use anchor_lang::prelude::Pubkey;
use sss_token::account::RawAccount;
use sss_token::auth::{authorize, require_authority, Operation};
use sss_token::constants::{program_id, transfer_hook_program_id, PROGRAM_ID};
use sss_token::enums::RoleFlags;
use sss_token::error::{HookError, StablecoinError};
use sss_token::hook::fallback;
use sss_token::identity::Identity;
use sss_token::instructions::{
    AddToBlacklist, AddToBlacklistBumps, BurnTokens, FreezeTokenAccount, InitializeParams,
    InitializeStablecoin, InitializeStablecoinBumps, MintTokens, PauseUnpause,
    RemoveFromBlacklist, TransferAuthority, UpdateMinter, UpdateMinterBumps, UpdateRoles,
    UpdateSupplyCap,
};
use sss_token::state::{BlacklistEntry, MinterInfo, RoleAccount, StablecoinState, SupplyCap};

fn id(n: u8) -> Identity {
    Identity::new([n; 32])
}

const REGISTRY_KEY: u8 = 3;

/// The records of one registry, as a host would keep them.
struct Ledger {
    registry: StablecoinState,
    roles: Vec<(Identity, RoleAccount)>,
    quotas: Vec<(Identity, MinterInfo)>,
    blacklist: Vec<(Identity, BlacklistEntry)>,
    cap: Option<SupplyCap>,
}

fn find<T: Clone>(records: &[(Identity, T)], key: Identity) -> Option<T> {
    records.iter().find(|(k, _)| *k == key).map(|(_, v)| v.clone())
}

fn store<T>(records: &mut Vec<(Identity, T)>, key: Identity, value: Option<T>) {
    records.retain(|(k, _)| *k != key);
    if let Some(value) = value {
        records.push((key, value));
    }
}

impl Ledger {
    fn create(authority: Identity, compliance: bool) -> Ledger {
        let hook = if compliance { transfer_hook_program_id() } else { id(0) };
        let mut ctx = InitializeStablecoin {
            authority,
            stablecoin_key: id(REGISTRY_KEY),
            stablecoin: None,
            mint: id(2),
            authority_role: None,
            transfer_hook_program: hook,
        };
        let params = InitializeParams {
            name: "SupplyCapCoin".to_string(),
            symbol: "SCC".to_string(),
            uri: "https://example.com".to_string(),
            decimals: 6,
            enable_permanent_delegate: compliance,
            enable_transfer_hook: compliance,
            default_account_frozen: false,
        };
        let bumps = InitializeStablecoinBumps { stablecoin: 254, authority_role: 253 };
        ctx.initialize_stablecoin(params, bumps).unwrap();
        Ledger {
            registry: ctx.stablecoin.unwrap(),
            roles: vec![(authority, ctx.authority_role.unwrap())],
            quotas: Vec::new(),
            blacklist: Vec::new(),
            cap: None,
        }
    }

    fn cap_account(&self) -> RawAccount {
        let (address, _) = Pubkey::find_program_address(
            &[b"supply_cap", &[REGISTRY_KEY; 32]],
            &Pubkey::new_from_array(PROGRAM_ID),
        );
        match self.cap {
            Some(cap) => RawAccount {
                key: Identity::new(address.to_bytes()),
                owner: program_id(),
                lamports: 1,
                data: cap.to_bytes(),
            },
            None => RawAccount { key: program_id(), owner: id(0), lamports: 0, data: Vec::new() },
        }
    }

    fn mint(&mut self, caller: Identity, amount: u64) -> Result<(), StablecoinError> {
        let mut ctx = MintTokens {
            minter: caller,
            stablecoin_key: id(REGISTRY_KEY),
            stablecoin: self.registry.clone(),
            role: find(&self.roles, caller),
            minter_info: find(&self.quotas, caller),
            recipient_token_account: id(40),
            supply_cap: self.cap_account(),
        };
        let outcome = ctx.mint_tokens(amount).map(|_| ());
        self.registry = ctx.stablecoin;
        store(&mut self.quotas, caller, ctx.minter_info);
        outcome
    }

    fn burn(&mut self, caller: Identity, amount: u64) -> Result<(), StablecoinError> {
        let mut ctx = BurnTokens {
            burner: caller,
            stablecoin_key: id(REGISTRY_KEY),
            stablecoin: self.registry.clone(),
            role: find(&self.roles, caller),
            burner_token_account: id(41),
        };
        let outcome = ctx.burn_tokens(amount).map(|_| ());
        self.registry = ctx.stablecoin;
        outcome
    }

    fn freeze(&self, caller: Identity) -> Result<(), StablecoinError> {
        let ctx = FreezeTokenAccount {
            authority: caller,
            stablecoin_key: id(REGISTRY_KEY),
            stablecoin: self.registry.clone(),
            role: find(&self.roles, caller),
            target_token_account: id(42),
        };
        ctx.freeze_token_account().map(|_| ())
    }

    fn pause(&mut self, caller: Identity, on: bool) -> Result<(), StablecoinError> {
        let mut ctx = PauseUnpause {
            authority: caller,
            stablecoin: self.registry.clone(),
            role: find(&self.roles, caller),
        };
        let outcome = if on { ctx.pause() } else { ctx.unpause() };
        self.registry = ctx.stablecoin;
        outcome
    }

    fn set_roles(&mut self, caller: Identity, holder: Identity, roles: RoleFlags) -> Result<(), StablecoinError> {
        let mut ctx = UpdateRoles {
            authority: caller,
            stablecoin_key: id(REGISTRY_KEY),
            stablecoin: self.registry.clone(),
            role: find(&self.roles, holder),
            holder,
        };
        let outcome = ctx.update_roles(roles);
        store(&mut self.roles, holder, ctx.role);
        outcome
    }

    fn set_quota(&mut self, caller: Identity, minter: Identity, quota: u64) -> Result<(), StablecoinError> {
        let mut ctx = UpdateMinter {
            authority: caller,
            stablecoin_key: id(REGISTRY_KEY),
            stablecoin: self.registry.clone(),
            minter_info: find(&self.quotas, minter),
            minter,
        };
        let outcome = ctx.update_minter(quota, &UpdateMinterBumps { minter_info: 200 });
        store(&mut self.quotas, minter, ctx.minter_info);
        outcome
    }

    fn set_cap(&mut self, caller: Identity, cap: u64) -> Result<(), StablecoinError> {
        let mut ctx = UpdateSupplyCap {
            authority: caller,
            stablecoin: self.registry.clone(),
            supply_cap: self.cap,
        };
        let outcome = ctx.update_supply_cap(cap);
        self.cap = ctx.supply_cap;
        outcome
    }

    fn hand_on(&mut self, caller: Identity, new_authority: Identity) -> Result<(), StablecoinError> {
        let mut ctx = TransferAuthority {
            authority: caller,
            stablecoin: self.registry.clone(),
            new_authority,
        };
        let outcome = ctx.transfer_authority();
        self.registry = ctx.stablecoin;
        outcome
    }

    fn block(&mut self, caller: Identity, address: Identity, reason: &str) -> Result<(), StablecoinError> {
        let mut ctx = AddToBlacklist {
            blacklister: caller,
            stablecoin_key: id(REGISTRY_KEY),
            stablecoin: self.registry.clone(),
            role: find(&self.roles, caller),
            blacklist_entry: find(&self.blacklist, address),
            address,
        };
        let outcome =
            ctx.add_to_blacklist(reason.to_string(), AddToBlacklistBumps { blacklist_entry: 7 }, 1_000);
        store(&mut self.blacklist, address, ctx.blacklist_entry);
        outcome
    }

    fn unblock(&mut self, caller: Identity, address: Identity) -> Result<(), StablecoinError> {
        let mut ctx = RemoveFromBlacklist {
            blacklister: caller,
            stablecoin_key: id(REGISTRY_KEY),
            stablecoin: self.registry.clone(),
            role: find(&self.roles, caller),
            blacklist_entry: find(&self.blacklist, address),
            address,
        };
        let outcome = ctx.remove_from_blacklist();
        store(&mut self.blacklist, address, ctx.blacklist_entry);
        outcome
    }

    fn transfer(&self, from: Identity, to: Identity) -> Result<(), HookError> {
        let slot = |address: Identity| match find(&self.blacklist, address) {
            Some(entry) => {
                RawAccount { key: id(50), owner: program_id(), lamports: 1, data: entry.to_bytes() }
            },
            None => RawAccount { key: id(50), owner: id(0), lamports: 0, data: Vec::new() },
        };
        let other = RawAccount { key: id(51), owner: id(0), lamports: 1, data: vec![1; 8] };
        let registry = RawAccount {
            key: id(REGISTRY_KEY),
            owner: program_id(),
            lamports: 1,
            data: self.registry.to_bytes(),
        };
        let accounts = vec![
            other.clone(),
            other.clone(),
            other.clone(),
            other.clone(),
            other.clone(),
            other,
            registry,
            slot(from),
            slot(to),
        ];
        fallback(&id(9), &accounts, &[105, 37, 101, 197, 75, 251, 102, 26, 1, 0, 0, 0, 0, 0, 0, 0])
    }
}

fn only(set: fn(&mut RoleFlags)) -> RoleFlags {
    let mut roles = RoleFlags::default();
    set(&mut roles);
    roles
}

#[test]
fn supply_cap_scenario() {
    let authority = id(1);
    let mut ledger = Ledger::create(authority, false);
    assert_eq!(ledger.set_roles(authority, authority, only(|r| r.is_minter = true)), Ok(()));
    assert_eq!(ledger.set_quota(authority, authority, 1_000_000), Ok(()));
    assert_eq!(ledger.mint(authority, 50), Ok(()));
    assert_eq!(ledger.registry.total_minted, 50);
    assert_eq!(ledger.set_cap(authority, 100), Ok(()));
    assert_eq!(ledger.cap, Some(SupplyCap { cap: 100, bump: 0 }));
    assert_eq!(ledger.mint(authority, 60), Err(StablecoinError::SupplyCapExceeded));
    assert_eq!(ledger.registry.total_minted, 50);
    assert!(ledger.registry.total_minted <= 100);
    assert_eq!(ledger.mint(authority, 50), Ok(()));
    assert_eq!(ledger.registry.total_minted, 100);
    assert_eq!(ledger.mint(authority, 1), Err(StablecoinError::SupplyCapExceeded));
    assert_eq!(ledger.set_cap(authority, 99), Err(StablecoinError::SupplyCapExceeded));
    assert_eq!(ledger.set_cap(authority, 0), Ok(()));
    assert_eq!(ledger.cap, Some(SupplyCap { cap: u64::MAX, bump: 0 }));
    assert_eq!(ledger.mint(authority, 1), Ok(()));
    assert_eq!(ledger.registry.total_minted, 101);
}

#[test]
fn supply_cap_scenario_with_a_small_quota() {
    let authority = id(1);
    let mut ledger = Ledger::create(authority, false);
    assert_eq!(ledger.set_quota(authority, authority, 100), Ok(()));
    assert_eq!(ledger.mint(authority, 50), Ok(()));
    assert_eq!(ledger.set_cap(authority, 100), Ok(()));
    assert_eq!(ledger.mint(authority, 60), Err(StablecoinError::QuotaExceeded));
    assert_eq!(ledger.registry.total_minted, 50);
}

#[test]
fn mint_sequences_stay_within_quota_and_cap() {
    let authority = id(1);
    let mut ledger = Ledger::create(authority, false);
    assert_eq!(ledger.set_quota(authority, authority, 500), Ok(()));
    assert_eq!(ledger.set_quota(authority, id(5), 400), Ok(()));
    assert_eq!(ledger.set_roles(authority, id(5), only(|r| r.is_minter = true)), Ok(()));
    assert_eq!(ledger.set_cap(authority, 700), Ok(()));
    let mut seed: u64 = 0x2545_f491_4f6c_dd1d;
    let mut accepted: u64 = 0;
    for round in 0..400 {
        seed ^= seed << 13;
        seed ^= seed >> 7;
        seed ^= seed << 17;
        let amount = seed % 90;
        let caller = if round % 3 == 0 { id(5) } else { authority };
        let before = ledger.registry.total_minted;
        match ledger.mint(caller, amount) {
            Ok(()) => {
                accepted += amount;
                assert_eq!(ledger.registry.total_minted, before + amount);
            },
            Err(_) => assert_eq!(ledger.registry.total_minted, before),
        }
        for (_, quota) in &ledger.quotas {
            assert!(quota.minted_amount <= quota.quota);
        }
        assert!(ledger.registry.total_minted <= 700);
    }
    assert_eq!(ledger.registry.total_minted, accepted);
    let used: u64 = ledger.quotas.iter().map(|(_, quota)| quota.minted_amount).sum();
    assert_eq!(used, accepted);
    assert!(accepted > 600);
}

#[test]
fn quota_cannot_fall_below_what_was_minted() {
    let authority = id(1);
    let mut ledger = Ledger::create(authority, false);
    assert_eq!(ledger.set_quota(authority, authority, 100), Ok(()));
    assert_eq!(ledger.mint(authority, 70), Ok(()));
    assert_eq!(ledger.set_quota(authority, authority, 69), Err(StablecoinError::QuotaExceeded));
    assert_eq!(ledger.set_quota(authority, authority, 0), Err(StablecoinError::QuotaExceeded));
    assert_eq!(find(&ledger.quotas, authority).unwrap().quota, 100);
    assert_eq!(ledger.set_quota(authority, authority, 70), Ok(()));
    assert_eq!(ledger.mint(authority, 1), Err(StablecoinError::QuotaExceeded));
    assert_eq!(ledger.set_quota(authority, authority, 71), Ok(()));
    assert_eq!(ledger.mint(authority, 1), Ok(()));
    assert_eq!(find(&ledger.quotas, authority).unwrap().minted_amount, 71);
}

#[test]
fn pause_stops_mint_and_burn_until_unpause() {
    let authority = id(1);
    let mut ledger = Ledger::create(authority, false);
    assert_eq!(ledger.set_quota(authority, authority, 100), Ok(()));
    assert_eq!(ledger.mint(authority, 10), Ok(()));
    assert_eq!(ledger.burn(authority, 1), Ok(()));
    assert_eq!(ledger.pause(authority, true), Ok(()));
    assert_eq!(ledger.mint(authority, 10), Err(StablecoinError::Paused));
    assert_eq!(ledger.burn(authority, 1), Err(StablecoinError::Paused));
    assert_eq!(ledger.mint(id(77), 10), Err(StablecoinError::Paused));
    assert_eq!(ledger.burn(id(77), 1), Err(StablecoinError::Paused));
    assert_eq!(ledger.mint(authority, 0), Err(StablecoinError::ZeroAmount));
    assert_eq!(ledger.freeze(authority), Ok(()));
    assert_eq!(ledger.registry.total_minted, 10);
    assert_eq!(ledger.registry.total_burned, 1);
    assert_eq!(ledger.pause(authority, false), Ok(()));
    assert_eq!(ledger.mint(authority, 10), Ok(()));
    assert_eq!(ledger.burn(authority, 1), Ok(()));
    assert_eq!(ledger.registry.total_minted, 20);
    assert_eq!(ledger.registry.total_burned, 2);
}

#[test]
fn blacklist_life_cycle() {
    let authority = id(1);
    let mut plain = Ledger::create(authority, false);
    assert_eq!(plain.block(authority, id(66), "x"), Err(StablecoinError::ComplianceNotEnabled));
    assert_eq!(plain.unblock(authority, id(66)), Err(StablecoinError::ComplianceNotEnabled));

    let mut ledger = Ledger::create(authority, true);
    assert_eq!(ledger.unblock(authority, id(66)), Err(StablecoinError::NotBlacklisted));
    assert_eq!(ledger.transfer(id(66), id(67)), Ok(()));
    assert_eq!(ledger.block(authority, id(66), "sanctions"), Ok(()));
    assert_eq!(ledger.block(authority, id(66), "sanctions"), Err(StablecoinError::AlreadyBlacklisted));
    assert_eq!(ledger.block(authority, id(66), "again"), Err(StablecoinError::AlreadyBlacklisted));
    assert_eq!(ledger.transfer(id(66), id(67)), Err(HookError::Blacklisted));
    assert_eq!(ledger.transfer(id(67), id(66)), Err(HookError::Blacklisted));
    assert_eq!(ledger.transfer(id(67), id(68)), Ok(()));
    assert_eq!(ledger.block(authority, id(67), ""), Ok(()));
    assert_eq!(ledger.unblock(authority, id(66)), Ok(()));
    assert_eq!(ledger.unblock(authority, id(66)), Err(StablecoinError::NotBlacklisted));
    assert_eq!(ledger.transfer(id(66), id(68)), Ok(()));
    assert_eq!(ledger.transfer(id(66), id(67)), Err(HookError::Blacklisted));
    assert_eq!(ledger.block(authority, id(66), "once more"), Ok(()));
    assert_eq!(ledger.block(authority, Identity::default(), "nobody"), Ok(()));
    assert_eq!(
        ledger.block(authority, Identity::default(), "nobody"),
        Err(StablecoinError::AlreadyBlacklisted)
    );
}

#[test]
fn pause_is_seen_by_the_hook() {
    let authority = id(1);
    let mut ledger = Ledger::create(authority, true);
    assert_eq!(ledger.transfer(id(66), id(67)), Ok(()));
    assert_eq!(ledger.pause(authority, true), Ok(()));
    assert_eq!(ledger.transfer(id(66), id(67)), Err(HookError::Paused));
    assert_eq!(ledger.pause(authority, false), Ok(()));
    assert_eq!(ledger.transfer(id(66), id(67)), Ok(()));
}

#[test]
fn role_gated_operations_need_the_bit() {
    let authority = id(1);
    let holder = id(8);
    let mut ledger = Ledger::create(authority, true);
    assert_eq!(ledger.set_quota(authority, holder, 100), Ok(()));

    // no record at all
    assert_eq!(ledger.mint(holder, 5), Err(StablecoinError::Unauthorized));
    assert_eq!(ledger.burn(holder, 5), Err(StablecoinError::Unauthorized));
    assert_eq!(ledger.freeze(holder), Err(StablecoinError::Unauthorized));
    assert_eq!(ledger.pause(holder, true), Err(StablecoinError::Unauthorized));
    assert_eq!(ledger.pause(holder, false), Err(StablecoinError::Unauthorized));
    assert_eq!(ledger.block(holder, id(66), "x"), Err(StablecoinError::Unauthorized));
    assert_eq!(ledger.unblock(holder, id(66)), Err(StablecoinError::Unauthorized));

    // a record with every bit but the one asked for
    let mut roles = RoleFlags::all();
    roles.is_minter = false;
    assert_eq!(ledger.set_roles(authority, holder, roles), Ok(()));
    assert_eq!(ledger.mint(holder, 5), Err(StablecoinError::Unauthorized));
    roles = RoleFlags::all();
    roles.is_burner = false;
    assert_eq!(ledger.set_roles(authority, holder, roles), Ok(()));
    assert_eq!(ledger.burn(holder, 5), Err(StablecoinError::Unauthorized));
    roles = RoleFlags::all();
    roles.is_pauser = false;
    roles.is_freezer = false;
    assert_eq!(ledger.set_roles(authority, holder, roles), Ok(()));
    assert_eq!(ledger.freeze(holder), Err(StablecoinError::Unauthorized));
    assert_eq!(ledger.pause(holder, true), Err(StablecoinError::Unauthorized));
    roles = RoleFlags::all();
    roles.is_blacklister = false;
    assert_eq!(ledger.set_roles(authority, holder, roles), Ok(()));
    assert_eq!(ledger.block(holder, id(66), "x"), Err(StablecoinError::Unauthorized));

    // the bit alone is enough for the identical call
    assert_eq!(ledger.set_roles(authority, holder, only(|r| r.is_minter = true)), Ok(()));
    assert_eq!(ledger.mint(holder, 5), Ok(()));
    assert_eq!(ledger.set_roles(authority, holder, only(|r| r.is_burner = true)), Ok(()));
    assert_eq!(ledger.burn(holder, 5), Ok(()));
    assert_eq!(ledger.mint(holder, 5), Err(StablecoinError::Unauthorized));
    assert_eq!(ledger.set_roles(authority, holder, only(|r| r.is_freezer = true)), Ok(()));
    assert_eq!(ledger.freeze(holder), Ok(()));
    assert_eq!(ledger.pause(holder, true), Err(StablecoinError::Unauthorized));
    assert_eq!(ledger.set_roles(authority, holder, only(|r| r.is_pauser = true)), Ok(()));
    assert_eq!(ledger.freeze(holder), Ok(()));
    assert_eq!(ledger.pause(holder, true), Ok(()));
    assert_eq!(ledger.pause(holder, false), Ok(()));
    assert_eq!(ledger.set_roles(authority, holder, only(|r| r.is_blacklister = true)), Ok(()));
    assert_eq!(ledger.block(holder, id(66), "x"), Ok(()));
    assert_eq!(ledger.unblock(holder, id(66)), Ok(()));

    // roles are granted by the authority only
    assert_eq!(
        ledger.set_roles(holder, holder, RoleFlags::all()),
        Err(StablecoinError::Unauthorized)
    );
}

#[test]
fn authorize_goes_by_the_table() {
    let registry = Ledger::create(id(1), true).registry;
    let ops = [
        Operation::Mint,
        Operation::Burn,
        Operation::Freeze,
        Operation::Thaw,
        Operation::Pause,
        Operation::Unpause,
        Operation::AddToBlacklist,
        Operation::RemoveFromBlacklist,
        Operation::Seize,
    ];
    let setters: [fn(&mut RoleFlags); 6] = [
        |r| r.is_minter = true,
        |r| r.is_burner = true,
        |r| r.is_pauser = true,
        |r| r.is_freezer = true,
        |r| r.is_blacklister = true,
        |r| r.is_seizer = true,
    ];
    // rows: operations; columns: whether the single role allows it
    let table: [[bool; 6]; 9] = [
        [true, false, false, false, false, false],
        [false, true, false, false, false, false],
        [false, false, true, true, false, false],
        [false, false, true, true, false, false],
        [false, false, true, false, false, false],
        [false, false, true, false, false, false],
        [false, false, false, false, true, false],
        [false, false, false, false, true, false],
        [false, false, false, false, false, true],
    ];
    for (op, row) in ops.iter().zip(table.iter()) {
        assert_eq!(authorize(*op, &None, &registry), Err(StablecoinError::Unauthorized));
        for (set, allowed) in setters.iter().zip(row.iter()) {
            let record = RoleAccount { stablecoin: id(3), holder: id(8), roles: only(*set), bump: 0 };
            let expected = if *allowed { Ok(()) } else { Err(StablecoinError::Unauthorized) };
            assert_eq!(authorize(*op, &Some(record), &registry), expected);
        }
    }
    let mut paused = registry.clone();
    paused.paused = true;
    let mut plain = registry.clone();
    plain.enable_transfer_hook = false;
    let everything =
        Some(RoleAccount { stablecoin: id(3), holder: id(8), roles: RoleFlags::all(), bump: 0 });
    for (i, op) in ops.iter().enumerate() {
        let when_paused = if i < 2 { Err(StablecoinError::Paused) } else { Ok(()) };
        assert_eq!(authorize(*op, &everything, &paused), when_paused);
        let when_plain = if i >= 6 { Err(StablecoinError::ComplianceNotEnabled) } else { Ok(()) };
        assert_eq!(authorize(*op, &everything, &plain), when_plain);
        assert_eq!(authorize(*op, &None, &plain).is_err(), true);
    }
    assert_eq!(require_authority(&id(1), &registry), Ok(()));
    assert_eq!(require_authority(&id(2), &registry), Err(StablecoinError::Unauthorized));
}

#[test]
fn authority_handoff() {
    let old = id(1);
    let new = id(9);
    let mut ledger = Ledger::create(old, false);
    assert_eq!(ledger.set_quota(old, old, 100), Ok(()));
    assert_eq!(ledger.hand_on(old, Identity::default()), Err(StablecoinError::Unauthorized));
    assert_eq!(ledger.hand_on(old, old), Err(StablecoinError::InvalidRoleConfig));
    assert_eq!(ledger.hand_on(new, new), Err(StablecoinError::Unauthorized));
    assert_eq!(ledger.registry.authority, old);
    assert_eq!(ledger.hand_on(old, new), Ok(()));
    assert_eq!(ledger.registry.authority, new);

    // what only the authority may do is lost at once
    assert_eq!(ledger.set_roles(old, old, RoleFlags::all()), Err(StablecoinError::Unauthorized));
    assert_eq!(ledger.set_quota(old, old, 1_000), Err(StablecoinError::Unauthorized));
    assert_eq!(ledger.set_cap(old, 1_000), Err(StablecoinError::Unauthorized));
    assert_eq!(ledger.hand_on(old, old), Err(StablecoinError::Unauthorized));

    // roles stay until they are taken away
    assert_eq!(ledger.mint(old, 10), Ok(()));
    assert_eq!(ledger.burn(old, 10), Ok(()));
    assert_eq!(ledger.pause(old, true), Ok(()));
    assert_eq!(ledger.pause(old, false), Ok(()));
    // and the new authority has none until it grants itself some
    assert_eq!(ledger.mint(new, 10), Err(StablecoinError::Unauthorized));
    assert_eq!(ledger.set_roles(new, old, RoleFlags::default()), Ok(()));
    assert_eq!(ledger.mint(old, 10), Err(StablecoinError::Unauthorized));
    assert_eq!(ledger.set_roles(new, new, only(|r| r.is_minter = true)), Ok(()));
    assert_eq!(ledger.set_quota(new, new, 5), Ok(()));
    assert_eq!(ledger.mint(new, 5), Ok(()));
    assert_eq!(ledger.hand_on(new, old), Ok(()));
    assert_eq!(ledger.registry.authority, old);
}

#[test]
fn counters_only_grow_and_features_stay() {
    let authority = id(1);
    let mut ledger = Ledger::create(authority, true);
    let created = ledger.registry.clone();
    assert_eq!(ledger.set_quota(authority, authority, 1_000), Ok(()));
    let mut minted = 0;
    let mut burned = 0;
    for step in 1..40u64 {
        let _ = ledger.mint(authority, step % 7);
        let _ = ledger.burn(authority, step % 5);
        let _ = ledger.pause(authority, step % 4 == 0);
        let _ = ledger.pause(authority, false);
        assert!(ledger.registry.total_minted >= minted);
        assert!(ledger.registry.total_burned >= burned);
        minted = ledger.registry.total_minted;
        burned = ledger.registry.total_burned;
        let mut expected = created.clone();
        expected.total_minted = minted;
        expected.total_burned = burned;
        assert_eq!(ledger.registry, expected);
    }
    assert!(minted > 0 && burned > 0);
}
