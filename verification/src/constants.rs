//! Record tags, validation limits and program identities.

use vstd::prelude::*;
use crate::identity::Identity;

verus! {

/// Bytes of the identity of this program, which owns every record.
pub const PROGRAM_ID: [u8; 32] = [
    46, 58, 94, 199, 121, 242, 83, 204, 235, 160, 83, 41, 64, 106, 195, 42,
    203, 61, 210, 31, 159, 184, 86, 160, 94, 161, 51, 86, 96, 33, 37, 162,
];

/// Bytes of the identity of the transfer hook program that an asset with a transfer hook
/// must name.
pub const SSS_TRANSFER_HOOK_PROGRAM_ID: [u8; 32] = [
    107, 44, 97, 58, 61, 97, 111, 13, 62, 218, 209, 116, 184, 21, 55, 186,
    11, 190, 111, 226, 176, 176, 181, 45, 107, 51, 252, 146, 119, 32, 240, 89,
];

/// Tag of the registry record: the text `stablecoin`.
pub const STABLECOIN_SEED: [u8; 10] = [115, 116, 97, 98, 108, 101, 99, 111, 105, 110];

/// Tag of a role record: the text `role`.
pub const ROLE_SEED: [u8; 4] = [114, 111, 108, 101];

/// Tag of a minter quota record: the text `minter`.
pub const MINTER_SEED: [u8; 6] = [109, 105, 110, 116, 101, 114];

/// Tag of a blacklist entry: the text `blacklist`.
pub const BLACKLIST_SEED: [u8; 9] = [98, 108, 97, 99, 107, 108, 105, 115, 116];

/// Tag of the supply cap record: the text `supply_cap`.
pub const SUPPLY_CAP_SEED: [u8; 10] = [115, 117, 112, 112, 108, 121, 95, 99, 97, 112];

/// Tag of the hook's list of extra accounts: the text `extra-account-metas`.
pub const EXTRA_ACCOUNT_METAS_SEED: [u8; 19] = [
    101, 120, 116, 114, 97, 45, 97, 99, 99, 111, 117, 110, 116, 45, 109, 101, 116, 97, 115,
];

/// Length of the discriminator that starts a supply cap record.
pub const SUPPLY_CAP_DISCRIMINATOR_SIZE: usize = 8;

/// Offset of the cap in a supply cap record.
pub const SUPPLY_CAP_VALUE_OFFSET: usize = 8;

/// Length of the cap in a supply cap record.
pub const SUPPLY_CAP_VALUE_SIZE: usize = 8;

/// Shortest supply cap record that holds a cap.
pub const MIN_SUPPLY_CAP_DATA_LEN: usize = 16;

/// The cap that stands for "no cap".
pub const UNCAPPED: u64 = 0xffff_ffff_ffff_ffff;

/// Longest accepted asset name, in bytes.
pub const MAX_NAME_LEN: usize = 32;

/// Longest accepted asset symbol, in bytes.
pub const MAX_SYMBOL_LEN: usize = 10;

/// Longest accepted metadata URI, in bytes.
pub const MAX_URI_LEN: usize = 200;

/// Longest accepted blacklist reason, in bytes.
pub const MAX_REASON_LEN: usize = 100;

/// Largest number of decimal places an asset may declare.
pub const MAX_DECIMALS: u8 = 18;

/// The identity of this program.
pub open spec fn spec_program_id() -> Identity {
    Identity { bytes: PROGRAM_ID }
}

/// The identity of this program.
#[verifier::when_used_as_spec(spec_program_id)]
pub fn program_id() -> (id: Identity)
    ensures
        id == spec_program_id(),
{
    Identity { bytes: PROGRAM_ID }
}

/// The identity of the required transfer hook program.
pub open spec fn spec_transfer_hook_program_id() -> Identity {
    Identity { bytes: SSS_TRANSFER_HOOK_PROGRAM_ID }
}

/// The identity of the required transfer hook program.
#[verifier::when_used_as_spec(spec_transfer_hook_program_id)]
pub fn transfer_hook_program_id() -> (id: Identity)
    ensures
        id == spec_transfer_hook_program_id(),
{
    Identity { bytes: SSS_TRANSFER_HOOK_PROGRAM_ID }
}

} // verus!
