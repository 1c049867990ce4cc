//! Setting the hook up: the list that tells the token program which accounts to hand to the
//! hook on every transfer, and how to find them.

use vstd::prelude::*;
use crate::account::RawAccount;
use crate::constants::{BLACKLIST_SEED, EXTRA_ACCOUNT_METAS_SEED, STABLECOIN_SEED};
use crate::host::{
    derived_address, external_pda_meta, find_record_address, meta_list_image, meta_list_size,
    new_external_pda_meta, new_pubkey_meta, size_of_meta_list, write_meta_list,
};
use crate::identity::Identity;

verus! {

/// Bytes of the identity of the hook program.
pub const HOOK_PROGRAM_ID: [u8; 32] = [
    236, 20, 6, 148, 125, 199, 212, 174, 14, 117, 99, 96, 93, 93, 90, 245,
    252, 10, 39, 58, 192, 200, 167, 42, 81, 15, 134, 203, 243, 201, 231, 93,
];

/// Position of the mint among the accounts of a transfer.
pub const MINT_INDEX: u8 = 1;

/// Position of the destination token account among the accounts of a transfer.
pub const DESTINATION_INDEX: u8 = 2;

/// Position of the owner of the source among the accounts of a transfer.
pub const OWNER_INDEX: u8 = 3;

/// Position of the core program among the accounts of a transfer.
pub const CORE_PROGRAM_INDEX: u8 = 5;

/// Position of the registry among the accounts of a transfer.
pub const REGISTRY_META_INDEX: u8 = 6;

/// Where the owner stands in a token account, and how long it is.
pub const TOKEN_ACCOUNT_OWNER_OFFSET: u8 = 32;

/// Number of accounts that the list adds to a transfer.
pub const EXTRA_ACCOUNT_COUNT: usize = 4;

/// A seed that is taken from the accounts of a transfer.
#[derive(Clone, Copy, Debug, PartialEq, Eq, Structural)]
pub enum SeedRef {
    /// The address of the account at `index`.
    AccountKey { index: u8 },
    /// `length` bytes of the content of the account at `account_index`, from `data_index` on.
    AccountData { account_index: u8, data_index: u8, length: u8 },
}

/// One entry of the list: an account that the token program must add to a transfer.
#[derive(Clone, Copy, Debug, PartialEq, Eq)]
pub struct ExtraAccountMeta {
    /// What `address_config` holds: 0 for an address; 128 plus the position of a program for
    /// the seeds of an address derived for that program.
    pub discriminator: u8,
    pub address_config: [u8; 32],
    pub is_signer: bool,
    pub is_writable: bool,
}

/// The accounts of the hook's setup.
#[derive(Clone, Debug, PartialEq, Eq)]
pub struct InitializeExtraAccountMetas {
    /// The caller, who pays for the account.
    pub authority: Identity,
    /// The account that will hold the list. It must not exist yet.
    pub extra_account_meta_list: RawAccount,
    /// The mint that the hook is attached to.
    pub mint: Identity,
}

/// What the host needs to create the account of the list: its size, and the bump seed with
/// which the hook signs for it.
#[derive(Clone, Copy, Debug, PartialEq, Eq, Structural)]
pub struct MetaListPlan {
    pub account_size: u64,
    pub bump: u8,
}

/// Why the hook's setup did not happen.
#[derive(Clone, Copy, Debug, PartialEq, Eq, Structural)]
pub enum MetaListError {
    /// An entry of the list could not be made.
    InvalidSeedConfig,
    /// The size of the list could not be computed.
    SizeOverflow,
    /// No address can be derived for the list.
    NoProgramAddress,
    /// The list could not be written.
    WriteFailed,
}

/// The identity of the hook program.
pub open spec fn spec_hook_program_id() -> Identity {
    Identity { bytes: HOOK_PROGRAM_ID }
}

/// The identity of the hook program.
#[verifier::when_used_as_spec(spec_hook_program_id)]
pub fn hook_program_id() -> (id: Identity)
    ensures
        id == spec_hook_program_id(),
{
    Identity { bytes: HOOK_PROGRAM_ID }
}

/// The entry for the core program itself, which the other entries derive addresses for.
pub open spec fn core_program_meta(core_program: Identity) -> ExtraAccountMeta {
    ExtraAccountMeta {
        discriminator: 0,
        address_config: core_program.bytes,
        is_signer: false,
        is_writable: false,
    }
}

/// The four entries of the list, in the order in which the token program adds the accounts:
/// the core program; the registry of the mint; the blacklist slot of the source's owner;
/// the blacklist slot of the destination's owner, who is read out of the destination token
/// account. `None` where the outside library cannot make one of them.
pub open spec fn required_metas(core_program: Identity) -> Option<Seq<ExtraAccountMeta>> {
    let registry = external_pda_meta(
        CORE_PROGRAM_INDEX,
        STABLECOIN_SEED@,
        seq![SeedRef::AccountKey { index: MINT_INDEX }],
        false,
        false,
    );
    let source = external_pda_meta(
        CORE_PROGRAM_INDEX,
        BLACKLIST_SEED@,
        seq![
            SeedRef::AccountKey { index: REGISTRY_META_INDEX },
            SeedRef::AccountKey { index: OWNER_INDEX },
        ],
        false,
        false,
    );
    let destination = external_pda_meta(
        CORE_PROGRAM_INDEX,
        BLACKLIST_SEED@,
        seq![
            SeedRef::AccountKey { index: REGISTRY_META_INDEX },
            SeedRef::AccountData {
                account_index: DESTINATION_INDEX,
                data_index: TOKEN_ACCOUNT_OWNER_OFFSET,
                length: 32,
            },
        ],
        false,
        false,
    );
    if registry is Some && source is Some && destination is Some {
        Some(
            seq![
                core_program_meta(core_program),
                registry.unwrap(),
                source.unwrap(),
                destination.unwrap(),
            ],
        )
    } else {
        None
    }
}

/// The plan for the host, from the size of the list and the bump seed of its account: each
/// must be known, the size first.
pub open spec fn plan_for(size: Option<usize>, bump: Option<u8>) -> Result<MetaListPlan, MetaListError> {
    match size {
        None => Err(MetaListError::SizeOverflow),
        Some(bytes) => match bump {
            None => Err(MetaListError::NoProgramAddress),
            Some(seed) => Ok(MetaListPlan { account_size: bytes as u64, bump: seed }),
        },
    }
}

/// The bump seed with which the hook signs for the account of the list of `mint`, if the
/// platform derives an address for it.
pub open spec fn meta_list_bump(mint: Identity) -> Option<u8> {
    match derived_address(seq![EXTRA_ACCOUNT_METAS_SEED@, mint@], spec_hook_program_id()@) {
        Some((_, bump)) => Some(bump),
        None => None,
    }
}

/// What the setup does: the plan for the host and the bytes of the account, or why not.
/// The entries of the list, its size, the bump seed of its account and the written list are
/// what the outside libraries compute.
pub open spec fn setup_outcome(mint: Identity, core_program: Identity) -> Result<
    (MetaListPlan, Seq<u8>),
    MetaListError,
> {
    match required_metas(core_program) {
        None => Err(MetaListError::InvalidSeedConfig),
        Some(metas) => match plan_for(meta_list_size(EXTRA_ACCOUNT_COUNT), meta_list_bump(mint)) {
            Err(e) => Err(e),
            Ok(plan) => match meta_list_image(plan.account_size as nat, metas) {
                None => Err(MetaListError::WriteFailed),
                Some(image) => Ok((plan, image)),
            },
        },
    }
}

/// Makes the plan for the host from the size of the list and the bump seed of its account.
pub fn meta_list_plan(size: Option<usize>, bump: Option<u8>) -> (plan: Result<
    MetaListPlan,
    MetaListError,
>)
    ensures
        plan == plan_for(size, bump),
{
    match size {
        None => Err(MetaListError::SizeOverflow),
        Some(bytes) => match bump {
            None => Err(MetaListError::NoProgramAddress),
            Some(seed) => Ok(MetaListPlan { account_size: bytes as u64, bump: seed }),
        },
    }
}

/// Makes the four entries of the list.
pub fn extra_account_metas(core_program: &Identity) -> (metas: Option<Vec<ExtraAccountMeta>>)
    ensures
        match metas {
            Some(list) => required_metas(*core_program) == Some(list@),
            None => required_metas(*core_program) is None,
        },
{
    let program = match new_pubkey_meta(core_program, false, false) {
        Ok(entry) => entry,
        Err(_) => {
            return None;
        },
    };
    let mut mint_seed: Vec<SeedRef> = Vec::new();
    mint_seed.push(SeedRef::AccountKey { index: MINT_INDEX });
    assert(mint_seed@ =~= seq![SeedRef::AccountKey { index: MINT_INDEX }]);
    let registry = new_external_pda_meta(
        CORE_PROGRAM_INDEX,
        STABLECOIN_SEED.as_slice(),
        &mint_seed,
        false,
        false,
    );
    let mut source_seeds: Vec<SeedRef> = Vec::new();
    source_seeds.push(SeedRef::AccountKey { index: REGISTRY_META_INDEX });
    source_seeds.push(SeedRef::AccountKey { index: OWNER_INDEX });
    assert(source_seeds@ =~= seq![
        SeedRef::AccountKey { index: REGISTRY_META_INDEX },
        SeedRef::AccountKey { index: OWNER_INDEX },
    ]);
    let source = new_external_pda_meta(
        CORE_PROGRAM_INDEX,
        BLACKLIST_SEED.as_slice(),
        &source_seeds,
        false,
        false,
    );
    let mut destination_seeds: Vec<SeedRef> = Vec::new();
    destination_seeds.push(SeedRef::AccountKey { index: REGISTRY_META_INDEX });
    destination_seeds.push(
        SeedRef::AccountData {
            account_index: DESTINATION_INDEX,
            data_index: TOKEN_ACCOUNT_OWNER_OFFSET,
            length: 32,
        },
    );
    assert(destination_seeds@ =~= seq![
        SeedRef::AccountKey { index: REGISTRY_META_INDEX },
        SeedRef::AccountData {
            account_index: DESTINATION_INDEX,
            data_index: TOKEN_ACCOUNT_OWNER_OFFSET,
            length: 32,
        },
    ]);
    let destination = new_external_pda_meta(
        CORE_PROGRAM_INDEX,
        BLACKLIST_SEED.as_slice(),
        &destination_seeds,
        false,
        false,
    );
    match (registry, source, destination) {
        (Ok(registry), Ok(source), Ok(destination)) => {
            let mut list: Vec<ExtraAccountMeta> = Vec::new();
            list.push(program);
            list.push(registry);
            list.push(source);
            list.push(destination);
            assert(list@ =~= seq![core_program_meta(*core_program), registry, source, destination]);
            Some(list)
        },
        _ => None,
    }
}

/// A buffer of `len` zero bytes.
fn zeroed(len: usize) -> (buffer: Vec<u8>)
    ensures
        buffer@.len() == len,
        forall|i: int| 0 <= i < len ==> buffer@[i] == 0,
{
    let mut buffer: Vec<u8> = Vec::new();
    while buffer.len() < len
        invariant
            buffer@.len() <= len,
            forall|i: int| 0 <= i < buffer@.len() ==> buffer@[i] == 0,
        decreases len - buffer@.len(),
    {
        buffer.push(0u8);
    }
    buffer
}

/// Prepares the account that holds the hook's list for the mint. On a refusal nothing
/// changes. On success the account is owned by the hook program and holds the list, in a
/// buffer of exactly the size that the list needs; the plan tells the host how to create
/// the account.
pub fn initialize_extra_account_meta_list(
    ctx: &mut InitializeExtraAccountMetas,
    sss_token_program_id: Identity,
) -> (outcome: Result<MetaListPlan, MetaListError>)
    ensures
        match setup_outcome(old(ctx).mint, sss_token_program_id) {
            Err(e) => outcome == Err::<MetaListPlan, MetaListError>(e) && *final(ctx) == *old(ctx),
            Ok((plan, image)) => {
                &&& outcome == Ok::<MetaListPlan, MetaListError>(plan)
                &&& final(ctx).authority == old(ctx).authority
                &&& final(ctx).mint == old(ctx).mint
                &&& final(ctx).extra_account_meta_list.key == old(ctx).extra_account_meta_list.key
                &&& final(ctx).extra_account_meta_list.lamports
                    == old(ctx).extra_account_meta_list.lamports
                &&& final(ctx).extra_account_meta_list.owner == spec_hook_program_id()
                &&& final(ctx).extra_account_meta_list.data@ == image
            },
        },
{
    let metas = match extra_account_metas(&sss_token_program_id) {
        None => {
            return Err(MetaListError::InvalidSeedConfig);
        },
        Some(metas) => metas,
    };
    let size: Option<usize> = match size_of_meta_list(EXTRA_ACCOUNT_COUNT) {
        Err(_) => None,
        Ok(bytes) => Some(bytes),
    };
    let own = hook_program_id();
    let bump: Option<u8> = match find_record_address(
        EXTRA_ACCOUNT_METAS_SEED.as_slice(),
        &ctx.mint,
        &own,
    ) {
        None => None,
        Some((_, bump)) => Some(bump),
    };
    let plan = match meta_list_plan(size, bump) {
        Err(e) => {
            return Err(e);
        },
        Ok(plan) => plan,
    };
    let mut data = zeroed(size.unwrap());
    match write_meta_list(&mut data, &metas) {
        Err(_) => {
            return Err(MetaListError::WriteFailed);
        },
        Ok(_) => {},
    }
    ctx.extra_account_meta_list.owner = own;
    ctx.extra_account_meta_list.data = data;
    Ok(plan)
}

} // verus!
