//! Requests to the token ledger. The operations decide; the host carries the requests out.

use vstd::prelude::*;
use crate::identity::Identity;

verus! {

/// An extension that a mint account is created with.
#[derive(Clone, Copy, Debug, PartialEq, Eq, Structural)]
pub enum MintExtension {
    MintCloseAuthority,
    PermanentDelegate,
    TransferHook,
    DefaultAccountState,
}

/// One request to the token ledger. Where the registry acts as an authority, the host signs
/// for it with the registry's tag, the mint and `bump`.
#[derive(Clone, Copy, Debug, PartialEq, Eq)]
pub enum LedgerAction {
    /// Create the mint account, `space` bytes long, owned by the ledger and paid by `payer`.
    CreateMintAccount { payer: Identity, mint: Identity, space: u64 },
    /// Let `close_authority` close the mint.
    InitializeMintCloseAuthority { mint: Identity, close_authority: Identity },
    /// Let `delegate` move tokens out of any account of the mint.
    InitializePermanentDelegate { mint: Identity, delegate: Identity },
    /// Have the ledger call `hook_program` on every transfer.
    InitializeTransferHook { mint: Identity, authority: Identity, hook_program: Identity },
    /// Have new token accounts start frozen.
    InitializeDefaultAccountStateFrozen { mint: Identity },
    /// Initialize the mint with its authorities and decimals.
    InitializeMint {
        mint: Identity,
        mint_authority: Identity,
        freeze_authority: Identity,
        decimals: u8,
    },
    /// Mint `amount` to `recipient`.
    MintTo { mint: Identity, recipient: Identity, authority: Identity, bump: u8, amount: u64 },
    /// Burn `amount` from `account`, signed by its owner.
    Burn { account: Identity, mint: Identity, owner: Identity, amount: u64 },
    /// Freeze `account`.
    FreezeAccount { account: Identity, mint: Identity, authority: Identity, bump: u8 },
    /// Thaw `account`.
    ThawAccount { account: Identity, mint: Identity, authority: Identity, bump: u8 },
    /// Move `amount` from `source` to `destination` as the permanent delegate.
    TransferChecked {
        source: Identity,
        mint: Identity,
        destination: Identity,
        authority: Identity,
        bump: u8,
        amount: u64,
        decimals: u8,
    },
}

} // verus!
