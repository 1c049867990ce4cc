use std::str::FromStr;

use anchor_lang::prelude::Pubkey;
use anchor_lang::solana_program::program_option::COption;
use anchor_lang::solana_program::program_pack::Pack;
use spl_discriminator::{ArrayDiscriminator, SplDiscriminate};
use spl_tlv_account_resolution::account::ExtraAccountMeta as LibraryMeta;
use spl_tlv_account_resolution::seeds::Seed;
use spl_tlv_account_resolution::state::ExtraAccountMetaList;
use spl_token_2022::extension::ExtensionType;
use spl_token_2022::state::{Account, AccountState, Mint};
use spl_transfer_hook_interface::instruction::ExecuteInstruction;
use sss_token::account::RawAccount;
use sss_token::constants::{
    program_id, transfer_hook_program_id, PROGRAM_ID, SSS_TRANSFER_HOOK_PROGRAM_ID,
};
use sss_token::enums::RoleFlags;
use sss_token::error::{HookError, StablecoinError};
use sss_token::extra_metas::{
    extra_account_metas, hook_program_id, initialize_extra_account_meta_list, meta_list_plan,
    InitializeExtraAccountMetas, MetaListError, MetaListPlan, HOOK_PROGRAM_ID,
};
use sss_token::hook::fallback;
use sss_token::identity::Identity;
use sss_token::instructions::{
    InitializeParams, InitializeStablecoin, InitializeStablecoinBumps, MintTokens, Seize,
    SeizeError,
};
use sss_token::ledger::LedgerAction;
use sss_token::state::{
    BlacklistEntry, MinterInfo, RoleAccount, StablecoinState, SupplyCap,
};

fn id(n: u8) -> Identity {
    Identity::new([n; 32])
}

fn registry(compliance: bool) -> StablecoinState {
    StablecoinState {
        authority: id(1),
        mint: id(2),
        name: "Test Dollar".to_string(),
        symbol: "TUSD".to_string(),
        uri: "https://example.com".to_string(),
        decimals: 6,
        enable_permanent_delegate: compliance,
        enable_transfer_hook: compliance,
        default_account_frozen: false,
        paused: false,
        total_minted: 0,
        total_burned: 0,
        bump: 254,
    }
}

fn derived(tag: &[u8], key: &Identity, program: &[u8; 32]) -> (Identity, u8) {
    let (address, bump) =
        Pubkey::find_program_address(&[tag, &key.bytes[..]], &Pubkey::new_from_array(*program));
    (Identity::new(address.to_bytes()), bump)
}

fn mint_ctx(supply_cap: RawAccount) -> MintTokens {
    MintTokens {
        minter: id(1),
        stablecoin_key: id(3),
        stablecoin: registry(false),
        role: Some(RoleAccount { stablecoin: id(3), holder: id(1), roles: RoleFlags::all(), bump: 1 }),
        minter_info: Some(MinterInfo {
            stablecoin: id(3),
            minter: id(1),
            quota: 1_000,
            minted_amount: 0,
            bump: 1,
        }),
        recipient_token_account: id(4),
        supply_cap,
    }
}

#[test]
fn program_identities_are_the_published_ones() {
    let core = Pubkey::from_str("47TNsKC1iJvLTKYRMbfYjrod4a56YE1f4qv73hZkdWUZ").unwrap();
    assert_eq!(core.to_bytes(), PROGRAM_ID);
    assert_eq!(program_id().bytes, PROGRAM_ID);
    let required = Pubkey::from_str("8DMsf39fGWfcrWVjfyEq8fqZf5YcTvVPGgdJr8s2S8Nc").unwrap();
    assert_eq!(required.to_bytes(), SSS_TRANSFER_HOOK_PROGRAM_ID);
    assert_eq!(transfer_hook_program_id().bytes, SSS_TRANSFER_HOOK_PROGRAM_ID);
    let hook = Pubkey::from_str("GtYvo8PY7hV3KWfGHs3fPDyFEHRV4t1PVw6BkYUBgctC").unwrap();
    assert_eq!(hook.to_bytes(), HOOK_PROGRAM_ID);
    assert_eq!(hook_program_id().bytes, HOOK_PROGRAM_ID);
}

#[test]
fn record_discriminators_are_hashes_of_the_record_names() {
    let of = |name: &str| -> [u8; 8] { ArrayDiscriminator::new_with_hash_input(name).into() };
    assert_eq!(StablecoinState::DISCRIMINATOR, of("account:StablecoinState"));
    assert_eq!(SupplyCap::DISCRIMINATOR, of("account:SupplyCap"));
    assert_eq!(BlacklistEntry::DISCRIMINATOR, of("account:BlacklistEntry"));
}

#[test]
fn mint_honours_the_cap_at_the_derived_address() {
    let (address, bump) = derived(b"supply_cap", &id(3), &PROGRAM_ID);
    let cap = SupplyCap { cap: 100, bump };
    let mut ctx = mint_ctx(RawAccount {
        key: address,
        owner: program_id(),
        lamports: 1,
        data: cap.to_bytes(),
    });
    assert_eq!(ctx.mint_tokens(101), Err(StablecoinError::SupplyCapExceeded));
    assert!(ctx.mint_tokens(100).is_ok());
    assert_eq!(ctx.mint_tokens(1), Err(StablecoinError::SupplyCapExceeded));
    assert_eq!(ctx.stablecoin.total_minted, 100);
}

#[test]
fn mint_ignores_a_cap_that_is_not_at_the_derived_address() {
    let cap = SupplyCap { cap: 100, bump: 1 };
    for key in [id(3), id(9), derived(b"supply_cap", &id(4), &PROGRAM_ID).0,
        derived(b"supply_cap", &id(3), &HOOK_PROGRAM_ID).0,
        derived(b"stablecoin", &id(3), &PROGRAM_ID).0]
    {
        let mut ctx =
            mint_ctx(RawAccount { key, owner: program_id(), lamports: 1, data: cap.to_bytes() });
        assert!(ctx.mint_tokens(101).is_ok());
        assert_eq!(ctx.stablecoin.total_minted, 101);
    }
}

#[test]
fn mint_refuses_a_derived_cap_account_of_another_owner() {
    let (address, bump) = derived(b"supply_cap", &id(3), &PROGRAM_ID);
    let cap = SupplyCap { cap: 100, bump };
    let mut ctx =
        mint_ctx(RawAccount { key: address, owner: id(8), lamports: 1, data: cap.to_bytes() });
    assert_eq!(ctx.mint_tokens(1), Err(StablecoinError::Unauthorized));
}

fn init_ctx() -> InitializeStablecoin {
    InitializeStablecoin {
        authority: id(1),
        stablecoin_key: id(3),
        stablecoin: None,
        mint: id(2),
        authority_role: None,
        transfer_hook_program: transfer_hook_program_id(),
    }
}

fn init_params(delegate: bool, hook: bool, frozen: bool) -> InitializeParams {
    InitializeParams {
        name: "Dollar".to_string(),
        symbol: "USD".to_string(),
        uri: "uri".to_string(),
        decimals: 6,
        enable_permanent_delegate: delegate,
        enable_transfer_hook: hook,
        default_account_frozen: frozen,
    }
}

fn planned_space(plan: &[LedgerAction]) -> u64 {
    match plan[0] {
        LedgerAction::CreateMintAccount { space, .. } => space,
        _ => panic!("the plan does not start with the account"),
    }
}

#[test]
fn initialize_sizes_the_mint_for_its_extensions() {
    let bumps = InitializeStablecoinBumps { stablecoin: 254, authority_role: 253 };
    let mut ctx = init_ctx();
    let plan = ctx.initialize_stablecoin(init_params(false, false, false), bumps).unwrap();
    let expected = ExtensionType::try_calculate_account_len::<Mint>(&[
        ExtensionType::MintCloseAuthority,
    ])
    .unwrap();
    assert_eq!(planned_space(&plan), expected as u64);
    assert_eq!(planned_space(&plan), 202);
    assert_eq!(plan.len(), 3);

    let mut ctx = init_ctx();
    let plan = ctx.initialize_stablecoin(init_params(true, true, true), bumps).unwrap();
    let expected = ExtensionType::try_calculate_account_len::<Mint>(&[
        ExtensionType::MintCloseAuthority,
        ExtensionType::PermanentDelegate,
        ExtensionType::TransferHook,
        ExtensionType::DefaultAccountState,
    ])
    .unwrap();
    assert_eq!(planned_space(&plan), expected as u64);
    assert_eq!(planned_space(&plan), 311);
    assert_eq!(plan.len(), 6);
    assert!(ctx.stablecoin.unwrap().is_sss2());

    let mut ctx = init_ctx();
    let plan = ctx.initialize_stablecoin(init_params(false, true, false), bumps).unwrap();
    let expected = ExtensionType::try_calculate_account_len::<Mint>(&[
        ExtensionType::MintCloseAuthority,
        ExtensionType::TransferHook,
    ])
    .unwrap();
    assert_eq!(planned_space(&plan), expected as u64);
    assert_eq!(plan.len(), 4);
}

fn token_account(amount: u64, state: AccountState, extra: usize) -> Vec<u8> {
    let account = Account {
        mint: Pubkey::new_from_array([2; 32]),
        owner: Pubkey::new_from_array([7; 32]),
        amount,
        delegate: COption::None,
        state,
        is_native: COption::None,
        delegated_amount: 0,
        close_authority: COption::None,
    };
    let mut data = vec![0u8; Account::LEN];
    account.pack_into_slice(&mut data);
    if extra > 0 {
        // the byte that marks a token account, then unused room for extensions
        data.push(2);
        data.extend(std::iter::repeat(0u8).take(extra));
    }
    data
}

fn seize_ctx(source: Vec<u8>) -> Seize {
    let (metas, _) = derived(b"extra-account-metas", &id(2), &SSS_TRANSFER_HOOK_PROGRAM_ID);
    Seize {
        seizer: id(1),
        stablecoin_key: id(3),
        stablecoin: registry(true),
        role: Some(RoleAccount { stablecoin: id(3), holder: id(1), roles: RoleFlags::all(), bump: 1 }),
        source_token_account: RawAccount { key: id(10), owner: id(11), lamports: 1, data: source },
        destination_token_account: id(12),
        transfer_hook_program: transfer_hook_program_id(),
        extra_account_metas: metas,
    }
}

#[test]
fn seize_takes_the_whole_balance_of_the_source() {
    for extra in [0usize, 4, 40] {
        let ctx = seize_ctx(token_account(777, AccountState::Initialized, extra));
        assert_eq!(
            ctx.seize(),
            Ok(LedgerAction::TransferChecked {
                source: id(10),
                mint: id(2),
                destination: id(12),
                authority: id(3),
                bump: 254,
                amount: 777,
                decimals: 6,
            })
        );
    }
    let ctx = seize_ctx(token_account(u64::MAX, AccountState::Frozen, 0));
    match ctx.seize() {
        Ok(LedgerAction::TransferChecked { amount, .. }) => assert_eq!(amount, u64::MAX),
        other => panic!("unexpected {:?}", other),
    }
}

#[test]
fn seize_of_an_empty_account_is_zero_amount() {
    let ctx = seize_ctx(token_account(0, AccountState::Initialized, 0));
    assert_eq!(ctx.seize(), Err(SeizeError::Denied(StablecoinError::ZeroAmount)));
}

#[test]
fn seize_of_an_unreadable_source_gives_the_token_program_error() {
    for source in [
        Vec::new(),
        vec![0u8; 164],
        token_account(5, AccountState::Uninitialized, 0),
        vec![1u8; 165],
    ] {
        let ctx = seize_ctx(source);
        match ctx.seize() {
            Err(SeizeError::SourceAccount(_)) => {}
            other => panic!("unexpected {:?}", other),
        }
    }
}

#[test]
fn seize_refusals_come_in_order() {
    let mut ctx = seize_ctx(Vec::new());
    ctx.stablecoin = registry(false);
    ctx.role = None;
    ctx.transfer_hook_program = id(0);
    ctx.extra_account_metas = id(0);
    assert_eq!(ctx.seize(), Err(SeizeError::Denied(StablecoinError::ComplianceNotEnabled)));
    ctx.stablecoin = registry(true);
    assert_eq!(ctx.seize(), Err(SeizeError::Denied(StablecoinError::Unauthorized)));
    let mut not_seizer = RoleFlags::all();
    not_seizer.is_seizer = false;
    ctx.role = Some(RoleAccount { stablecoin: id(3), holder: id(1), roles: not_seizer, bump: 1 });
    assert_eq!(ctx.seize(), Err(SeizeError::Denied(StablecoinError::Unauthorized)));

    let mut ctx = seize_ctx(token_account(5, AccountState::Initialized, 0));
    ctx.transfer_hook_program = hook_program_id();
    assert_eq!(ctx.seize(), Err(SeizeError::Denied(StablecoinError::Unauthorized)));
    let mut ctx = seize_ctx(token_account(5, AccountState::Initialized, 0));
    ctx.extra_account_metas = derived(b"extra-account-metas", &id(2), &HOOK_PROGRAM_ID).0;
    assert_eq!(ctx.seize(), Err(SeizeError::Denied(StablecoinError::Unauthorized)));
    let mut ctx = seize_ctx(token_account(5, AccountState::Initialized, 0));
    ctx.extra_account_metas = id(2);
    assert_eq!(ctx.seize(), Err(SeizeError::Denied(StablecoinError::Unauthorized)));
    let ctx = seize_ctx(token_account(5, AccountState::Initialized, 0));
    assert!(ctx.seize().is_ok());
}

#[test]
fn seize_with_decides_from_what_it_is_given() {
    let ctx = seize_ctx(Vec::new());
    let metas = ctx.extra_account_metas;
    assert_eq!(
        ctx.seize_with(Some(metas), Ok(9)),
        Ok(LedgerAction::TransferChecked {
            source: id(10),
            mint: id(2),
            destination: id(12),
            authority: id(3),
            bump: 254,
            amount: 9,
            decimals: 6,
        })
    );
    assert_eq!(
        ctx.seize_with(None, Ok(9)),
        Err(SeizeError::Denied(StablecoinError::Unauthorized))
    );
    assert_eq!(
        ctx.seize_with(Some(id(5)), Ok(9)),
        Err(SeizeError::Denied(StablecoinError::Unauthorized))
    );
    assert_eq!(
        ctx.seize_with(Some(metas), Ok(0)),
        Err(SeizeError::Denied(StablecoinError::ZeroAmount))
    );
}

#[test]
fn hook_accepts_the_discriminator_of_the_interface() {
    let mut data = ExecuteInstruction::SPL_DISCRIMINATOR_SLICE.to_vec();
    assert_eq!(data, vec![105, 37, 101, 197, 75, 251, 102, 26]);
    assert_eq!(fallback(&hook_program_id(), &[], &data), Ok(()));
    data.extend_from_slice(&42u64.to_le_bytes());
    assert_eq!(fallback(&hook_program_id(), &[], &data), Ok(()));
    for i in 0..8 {
        let mut wrong = data.clone();
        wrong[i] ^= 1;
        assert_eq!(fallback(&hook_program_id(), &[], &wrong), Err(HookError::InvalidInstruction));
    }
}

fn library_metas(core: &Identity) -> Vec<LibraryMeta> {
    let literal = |text: &[u8]| Seed::Literal { bytes: text.to_vec() };
    vec![
        LibraryMeta::new_with_pubkey(&Pubkey::new_from_array(core.bytes), false, false).unwrap(),
        LibraryMeta::new_external_pda_with_seeds(
            5,
            &[literal(b"stablecoin"), Seed::AccountKey { index: 1 }],
            false,
            false,
        )
        .unwrap(),
        LibraryMeta::new_external_pda_with_seeds(
            5,
            &[literal(b"blacklist"), Seed::AccountKey { index: 6 }, Seed::AccountKey { index: 3 }],
            false,
            false,
        )
        .unwrap(),
        LibraryMeta::new_external_pda_with_seeds(
            5,
            &[
                literal(b"blacklist"),
                Seed::AccountKey { index: 6 },
                Seed::AccountData { account_index: 2, data_index: 32, length: 32 },
            ],
            false,
            false,
        )
        .unwrap(),
    ]
}

#[test]
fn hook_setup_lists_the_four_accounts() {
    let core = program_id();
    let ours = extra_account_metas(&core).unwrap();
    let theirs = library_metas(&core);
    assert_eq!(ours.len(), 4);
    for (mine, other) in ours.iter().zip(theirs.iter()) {
        assert_eq!(mine.discriminator, other.discriminator);
        assert_eq!(mine.address_config, other.address_config);
        assert_eq!(mine.is_signer, bool::from(other.is_signer));
        assert_eq!(mine.is_writable, bool::from(other.is_writable));
    }
    assert_eq!(ours[0].discriminator, 0);
    assert_eq!(ours[0].address_config, PROGRAM_ID);
    assert_eq!(ours[1].discriminator, 128 + 5);
    let mut registry_seeds = vec![1u8, 10];
    registry_seeds.extend_from_slice(b"stablecoin");
    registry_seeds.extend_from_slice(&[3, 1]);
    registry_seeds.resize(32, 0);
    assert_eq!(ours[1].address_config.to_vec(), registry_seeds);
    let mut destination_seeds = vec![1u8, 9];
    destination_seeds.extend_from_slice(b"blacklist");
    destination_seeds.extend_from_slice(&[3, 6, 4, 2, 32, 32]);
    destination_seeds.resize(32, 0);
    assert_eq!(ours[3].address_config.to_vec(), destination_seeds);
    assert!(ours.iter().all(|meta| !meta.is_signer && !meta.is_writable));
}

#[test]
fn hook_setup_writes_the_list_that_the_library_writes() {
    let core = program_id();
    let mut ctx = InitializeExtraAccountMetas {
        authority: id(1),
        extra_account_meta_list: RawAccount {
            key: id(20),
            owner: id(0),
            lamports: 0,
            data: Vec::new(),
        },
        mint: id(2),
    };
    let plan = initialize_extra_account_meta_list(&mut ctx, core).unwrap();
    let (_, bump) = derived(b"extra-account-metas", &id(2), &HOOK_PROGRAM_ID);
    let size = ExtraAccountMetaList::size_of(4).unwrap();
    assert_eq!(plan, MetaListPlan { account_size: size as u64, bump });
    assert_eq!(plan.account_size, 156);
    let mut expected = vec![0u8; size];
    ExtraAccountMetaList::init::<ExecuteInstruction>(&mut expected, &library_metas(&core)).unwrap();
    assert_eq!(ctx.extra_account_meta_list.data, expected);
    assert_eq!(&expected[..8], &[105, 37, 101, 197, 75, 251, 102, 26]);
    assert_eq!(ctx.extra_account_meta_list.owner, hook_program_id());
    assert_eq!(ctx.extra_account_meta_list.key, id(20));
    assert_eq!(ctx.authority, id(1));
    assert_eq!(ctx.mint, id(2));
}

#[test]
fn hook_setup_plan_needs_size_and_bump() {
    assert_eq!(
        meta_list_plan(Some(156), Some(254)),
        Ok(MetaListPlan { account_size: 156, bump: 254 })
    );
    assert_eq!(meta_list_plan(Some(0), Some(0)), Ok(MetaListPlan { account_size: 0, bump: 0 }));
    assert_eq!(meta_list_plan(None, Some(254)), Err(MetaListError::SizeOverflow));
    assert_eq!(meta_list_plan(None, None), Err(MetaListError::SizeOverflow));
    assert_eq!(meta_list_plan(Some(156), None), Err(MetaListError::NoProgramAddress));
}
