//! What the platform's own libraries compute for the core. Nothing in this file is proved:
//! each function states what the library behind it is trusted to do.

use anchor_lang::prelude::{ProgramError, Pubkey};
use spl_discriminator::SplDiscriminate;
use spl_tlv_account_resolution::seeds::Seed;
use spl_tlv_account_resolution::state::ExtraAccountMetaList;
use spl_token_2022::extension::{ExtensionType, StateWithExtensions};
use spl_token_2022::state::{Account, Mint};
use spl_transfer_hook_interface::instruction::ExecuteInstruction;
use vstd::prelude::*;
use crate::extra_metas::{ExtraAccountMeta, SeedRef};
use crate::identity::Identity;
use crate::ledger::MintExtension;

verus! {

/// The error type of the platform's programs.
#[verifier::external_type_specification]
#[verifier::external_body]
pub struct ExProgramError(ProgramError);

/// The address that the platform derives for a program from a list of seeds, with the bump
/// seed that it found, if it finds one. The derivation hashes its arguments and reads
/// nothing else.
pub uninterp spec fn derived_address(seeds: Seq<Seq<u8>>, program_id: Seq<u8>) -> Option<
    (Seq<u8>, u8),
>;

/// The length of a mint account that carries the given extensions, if the token program can
/// tell it.
pub uninterp spec fn mint_account_len(extensions: Seq<MintExtension>) -> Option<u64>;

/// The balance that the token program reads out of a serialized token account, if it takes
/// the bytes for an initialized token account.
pub uninterp spec fn token_account_amount(data: Seq<u8>) -> Option<u64>;

/// The entry that the account resolution library makes for an address derived for the
/// program at `program_index` from the literal seed `tag` followed by the seeds `rest`, if
/// it can make one.
pub uninterp spec fn external_pda_meta(
    program_index: u8,
    tag: Seq<u8>,
    rest: Seq<SeedRef>,
    is_signer: bool,
    is_writable: bool,
) -> Option<ExtraAccountMeta>;

/// The number of bytes that the account resolution library needs for a list of `count`
/// entries, if it can tell.
pub uninterp spec fn meta_list_size(count: usize) -> Option<usize>;

/// What a buffer of `len` zero bytes holds after the account resolution library has written
/// the list `metas` into it for the instruction of a transfer execution, if it can write it.
pub uninterp spec fn meta_list_image(len: nat, metas: Seq<ExtraAccountMeta>) -> Option<Seq<u8>>;

/// `Pubkey::try_find_program_address` on the two seeds `tag` and `id`. The result is the
/// derived address and bump seed, or `None` where the derivation finds no address.
#[verifier::external_body]
pub(crate) fn find_record_address(tag: &[u8], id: &Identity, program_id: &Identity) -> (found:
    Option<(Identity, u8)>)
    ensures
        match found {
            Some((address, bump)) => derived_address(seq![tag@, id@], program_id@) == Some(
                (address@, bump),
            ),
            None => derived_address(seq![tag@, id@], program_id@) is None,
        },
{
    let program = Pubkey::new_from_array(program_id.bytes);
    let found = Pubkey::try_find_program_address(&[tag, &id.bytes[..]], &program);
    found.map(|(address, bump)| (Identity { bytes: address.to_bytes() }, bump))
}

/// `ExtensionType::try_calculate_account_len` for a mint with the given extensions. The
/// result is the account length, or `None` where the token program reports an error.
#[verifier::external_body]
pub(crate) fn calculate_mint_len(extensions: &Vec<MintExtension>) -> (len: Option<u64>)
    ensures
        len == mint_account_len(extensions@),
{
    let types: Vec<ExtensionType> = extensions.iter().map(|e| match e {
        MintExtension::MintCloseAuthority => ExtensionType::MintCloseAuthority,
        MintExtension::PermanentDelegate => ExtensionType::PermanentDelegate,
        MintExtension::TransferHook => ExtensionType::TransferHook,
        MintExtension::DefaultAccountState => ExtensionType::DefaultAccountState,
    }).collect();
    ExtensionType::try_calculate_account_len::<Mint>(&types).ok().map(|len| len as u64)
}

/// `StateWithExtensions::<Account>::unpack` on a serialized token account, of which only the
/// balance is kept. The result is the balance, or the token program's error where it does
/// not take the bytes for an initialized token account.
#[verifier::external_body]
pub(crate) fn unpack_token_amount(data: &[u8]) -> (amount: Result<u64, ProgramError>)
    ensures
        match amount {
            Ok(balance) => token_account_amount(data@) == Some(balance),
            Err(_) => token_account_amount(data@) is None,
        },
{
    StateWithExtensions::<Account>::unpack(data).map(|account| account.base.amount)
}

/// The eight bytes that start the instruction of a transfer execution: the first eight bytes
/// of the SHA-256 hash of `spl-transfer-hook-interface:execute`.
pub open spec fn execute_discriminator_bytes() -> Seq<u8> {
    seq![105u8, 37u8, 101u8, 197u8, 75u8, 251u8, 102u8, 26u8]
}

/// `ExecuteInstruction::SPL_DISCRIMINATOR`, which the interface crate computes as the first
/// eight bytes of the SHA-256 hash of `spl-transfer-hook-interface:execute`. The contract
/// gives those bytes.
#[verifier::external_body]
pub(crate) fn execute_discriminator() -> (bytes: [u8; 8])
    ensures
        bytes@ == execute_discriminator_bytes(),
{
    ExecuteInstruction::SPL_DISCRIMINATOR.into()
}

/// `ExtraAccountMeta::new_with_pubkey`, which always succeeds: the entry holds the address
/// itself under the discriminator 0, with the two flags as given.
#[verifier::external_body]
pub(crate) fn new_pubkey_meta(
    key: &Identity,
    is_signer: bool,
    is_writable: bool,
) -> (meta: Result<ExtraAccountMeta, ProgramError>)
    ensures
        match meta {
            Ok(entry) => entry.discriminator == 0 && entry.address_config == key.bytes
                && entry.is_signer == is_signer && entry.is_writable == is_writable,
            Err(_) => false,
        },
{
    let address = Pubkey::new_from_array(key.bytes);
    let made = spl_tlv_account_resolution::account::ExtraAccountMeta::new_with_pubkey(
        &address,
        is_signer,
        is_writable,
    )?;
    let (is_signer, is_writable) = (made.is_signer.into(), made.is_writable.into());
    let (discriminator, address_config) = (made.discriminator, made.address_config);
    Ok(ExtraAccountMeta { discriminator, address_config, is_signer, is_writable })
}

/// `ExtraAccountMeta::new_external_pda_with_seeds` on the literal seed `tag` followed by the
/// seeds `rest`. The result is the entry, or the library's error. The literal is at most 253
/// bytes long: the library counts the size of a literal in one byte, which a longer one
/// overflows.
#[verifier::external_body]
pub(crate) fn new_external_pda_meta(
    program_index: u8,
    tag: &[u8],
    rest: &Vec<SeedRef>,
    is_signer: bool,
    is_writable: bool,
) -> (meta: Result<ExtraAccountMeta, ProgramError>)
    requires
        tag@.len() <= 253,
    ensures
        match meta {
            Ok(entry) => external_pda_meta(program_index, tag@, rest@, is_signer, is_writable)
                == Some(entry),
            Err(_) => external_pda_meta(program_index, tag@, rest@, is_signer, is_writable)
                is None,
        },
{
    let mut seeds = vec![Seed::Literal { bytes: tag.to_vec() }];
    seeds.extend(rest.iter().map(|seed| match *seed {
        SeedRef::AccountKey { index } => Seed::AccountKey { index },
        SeedRef::AccountData { account_index, data_index, length } => {
            Seed::AccountData { account_index, data_index, length }
        },
    }));
    let made = spl_tlv_account_resolution::account::ExtraAccountMeta::new_external_pda_with_seeds(
        program_index, &seeds, is_signer, is_writable,
    )?;
    let (is_signer, is_writable) = (made.is_signer.into(), made.is_writable.into());
    let (discriminator, address_config) = (made.discriminator, made.address_config);
    Ok(ExtraAccountMeta { discriminator, address_config, is_signer, is_writable })
}

/// `ExtraAccountMetaList::size_of`. The result is the size of a list of `count` entries, or
/// the library's error.
#[verifier::external_body]
pub(crate) fn size_of_meta_list(count: usize) -> (size: Result<usize, ProgramError>)
    ensures
        match size {
            Ok(bytes) => meta_list_size(count) == Some(bytes),
            Err(_) => meta_list_size(count) is None,
        },
{
    ExtraAccountMetaList::size_of(count)
}

/// `ExtraAccountMetaList::init` for the instruction of a transfer execution, on a buffer of
/// zero bytes. The buffer keeps its length. On success it holds the list; on an error what
/// it holds is not stated.
#[verifier::external_body]
pub(crate) fn write_meta_list(data: &mut Vec<u8>, metas: &Vec<ExtraAccountMeta>) -> (outcome:
    Result<(), ProgramError>)
    requires
        forall|i: int| 0 <= i < old(data)@.len() ==> old(data)@[i] == 0,
    ensures
        final(data)@.len() == old(data)@.len(),
        match outcome {
            Ok(_) => meta_list_image(old(data)@.len(), metas@) == Some(final(data)@),
            Err(_) => meta_list_image(old(data)@.len(), metas@) is None,
        },
{
    let list: Vec<spl_tlv_account_resolution::account::ExtraAccountMeta> = metas.iter().map(
        |entry| spl_tlv_account_resolution::account::ExtraAccountMeta {
            discriminator: entry.discriminator,
            address_config: entry.address_config,
            is_signer: entry.is_signer.into(),
            is_writable: entry.is_writable.into(),
        },
    ).collect();
    ExtraAccountMetaList::init::<ExecuteInstruction>(data, &list)
}

} // verus!
