//! Minting: the quota of the minter and the supply cap of the registry.

use vstd::prelude::*;
use crate::account::RawAccount;
use crate::auth::{authorization, authorize, Operation};
use crate::constants::{program_id, spec_program_id, SUPPLY_CAP_SEED, UNCAPPED};
use crate::error::StablecoinError;
use crate::host::{derived_address, find_record_address};
use crate::identity::{lemma_identity_by_bytes, Identity};
use crate::ledger::LedgerAction;
use crate::state::minter_info::{minted_so_far, quota_of};
use crate::state::{MinterInfo, RoleAccount, StablecoinState, SupplyCap};

verus! {

/// The accounts of a mint.
#[derive(Clone, Debug, PartialEq, Eq)]
pub struct MintTokens {
    /// The caller.
    pub minter: Identity,
    /// Where the registry lives.
    pub stablecoin_key: Identity,
    pub stablecoin: StablecoinState,
    /// The role slot of the caller in the registry.
    pub role: Option<RoleAccount>,
    /// The quota slot of the caller in the registry.
    pub minter_info: Option<MinterInfo>,
    /// The token account that receives the new tokens.
    pub recipient_token_account: Identity,
    /// The account handed in as the registry's supply cap. A caller that knows of no cap
    /// hands in the program itself.
    pub supply_cap: RawAccount,
}

/// Whether `account` lives where the platform derives the supply cap record of `registry`.
pub open spec fn is_supply_cap_record(account: RawAccount, registry: Identity) -> bool {
    match derived_address(seq![SUPPLY_CAP_SEED@, registry@], spec_program_id()@) {
        Some((address, _)) => address == account.key@,
        None => false,
    }
}

/// The ceiling that the account handed in as supply cap sets on `total_minted`. An account
/// that is the program itself, that is not recognised as the registry's supply cap record,
/// or at which nothing is stored, sets none. A recognised one at which something is stored
/// must be owned by the program and hold a cap; the largest cap stands for no ceiling.
pub open spec fn supply_cap_reading(account: RawAccount, recognised: bool) -> Result<
    Option<u64>,
    StablecoinError,
> {
    if account.key == spec_program_id() || !recognised || !account.is_present() {
        Ok(None)
    } else if account.owner != spec_program_id() {
        Err(StablecoinError::Unauthorized)
    } else {
        match SupplyCap::stored_cap(account.data@) {
            None => Err(StablecoinError::MathOverflow),
            Some(cap) => if cap == UNCAPPED {
                Ok(None)
            } else {
                Ok(Some(cap))
            },
        }
    }
}

/// The request that a successful mint sends to the ledger, signed by the registry.
pub open spec fn mint_request(ctx: MintTokens, amount: u64) -> LedgerAction {
    LedgerAction::MintTo {
        mint: ctx.stablecoin.mint,
        recipient: ctx.recipient_token_account,
        authority: ctx.stablecoin_key,
        bump: ctx.stablecoin.bump,
        amount,
    }
}

/// What a mint does: the accounts afterwards, or the refusal. The checks come in a fixed
/// order, which decides the refusal where several apply: the amount, the pause, the role, the
/// quota, the total, and last the supply cap.
pub open spec fn mint_outcome(ctx: MintTokens, amount: u64, cap_recognised: bool) -> Result<
    MintTokens,
    StablecoinError,
> {
    let minted = minted_so_far(ctx.minter_info) + amount;
    let total = ctx.stablecoin.total_minted + amount;
    if amount == 0 {
        Err(StablecoinError::ZeroAmount)
    } else if authorization(Operation::Mint, ctx.role, ctx.stablecoin) is Err {
        Err(authorization(Operation::Mint, ctx.role, ctx.stablecoin)->Err_0)
    } else if minted > u64::MAX {
        Err(StablecoinError::MathOverflow)
    } else if minted > quota_of(ctx.minter_info) {
        Err(StablecoinError::QuotaExceeded)
    } else if total > u64::MAX {
        Err(StablecoinError::MathOverflow)
    } else {
        match supply_cap_reading(ctx.supply_cap, cap_recognised) {
            Err(e) => Err(e),
            Ok(ceiling) => if ceiling is Some && total > ceiling.unwrap() {
                Err(StablecoinError::SupplyCapExceeded)
            } else {
                Ok(
                    MintTokens {
                        stablecoin: StablecoinState {
                            total_minted: total as u64,
                            ..ctx.stablecoin
                        },
                        minter_info: Some(
                            MinterInfo { minted_amount: minted as u64, ..ctx.minter_info.unwrap() },
                        ),
                        ..ctx
                    },
                )
            },
        }
    }
}

/// Whether the quota and the supply cap have room for `amount`: the minter stays within the
/// quota, the total fits 64 bits, and the supply cap account is in order and not exceeded.
pub open spec fn mint_fits(ctx: MintTokens, amount: u64, cap_recognised: bool) -> bool {
    &&& minted_so_far(ctx.minter_info) + amount <= quota_of(ctx.minter_info)
    &&& ctx.stablecoin.total_minted + amount <= u64::MAX
    &&& match supply_cap_reading(ctx.supply_cap, cap_recognised) {
        Err(_) => false,
        Ok(None) => true,
        Ok(Some(ceiling)) => ctx.stablecoin.total_minted + amount <= ceiling,
    }
}

/// A mint succeeds exactly when the amount is positive, the caller is authorized and the
/// quota and the supply cap have room for the amount.
pub proof fn lemma_mint_succeeds_exactly_when_allowed(ctx: MintTokens, amount: u64, cap_recognised: bool)
    ensures
        mint_outcome(ctx, amount, cap_recognised) is Ok <==> amount > 0 && authorization(
            Operation::Mint,
            ctx.role,
            ctx.stablecoin,
        ) is Ok && mint_fits(ctx, amount, cap_recognised),
{
}

/// Reads the ceiling that the account handed in as supply cap sets, given the address at
/// which the registry's supply cap record is expected.
pub fn read_supply_cap(account: &RawAccount, expected_address: &Option<Identity>) -> (reading:
    Result<Option<u64>, StablecoinError>)
    ensures
        reading == supply_cap_reading(*account, *expected_address == Some(account.key)),
{
    let own = program_id();
    if account.key == own {
        return Ok(None);
    }
    let recognised = match expected_address {
        Some(address) => *address == account.key,
        None => false,
    };
    if !recognised || !account.is_present() {
        return Ok(None);
    }
    if account.owner != own {
        return Err(StablecoinError::Unauthorized);
    }
    match SupplyCap::read_cap(account.data.as_slice()) {
        None => Err(StablecoinError::MathOverflow),
        Some(cap) => if cap == UNCAPPED {
            Ok(None)
        } else {
            Ok(Some(cap))
        },
    }
}

impl MintTokens {
    /// Mints `amount`, given the address at which the registry's supply cap record is
    /// expected. On a refusal nothing changes. On success the minter's used quota and the
    /// registry's `total_minted` have grown by `amount`, and the result is the request to
    /// the ledger.
    pub fn mint_tokens_at(&mut self, amount: u64, expected_cap_address: Option<Identity>) -> (outcome:
        Result<LedgerAction, StablecoinError>)
        ensures
            match mint_outcome(
                *old(self),
                amount,
                expected_cap_address == Some(old(self).supply_cap.key),
            ) {
                Ok(after) => outcome == Ok::<LedgerAction, StablecoinError>(
                    mint_request(*old(self), amount),
                ) && *final(self) == after,
                Err(e) => outcome == Err::<LedgerAction, StablecoinError>(e) && *final(self)
                    == *old(self),
            },
    {
        if amount == 0 {
            return Err(StablecoinError::ZeroAmount);
        }
        match authorize(Operation::Mint, &self.role, &self.stablecoin) {
            Err(e) => {
                return Err(e);
            },
            Ok(_) => {},
        }
        let info = match self.minter_info {
            Some(info) => info,
            None => {
                // An empty slot is a quota of zero, which no positive amount fits.
                return Err(StablecoinError::QuotaExceeded);
            },
        };
        let minted: u64 = match info.minted_amount.checked_add(amount) {
            None => {
                return Err(StablecoinError::MathOverflow);
            },
            Some(sum) => sum,
        };
        if minted > info.quota {
            return Err(StablecoinError::QuotaExceeded);
        }
        let total: u64 = match self.stablecoin.total_minted.checked_add(amount) {
            None => {
                return Err(StablecoinError::MathOverflow);
            },
            Some(sum) => sum,
        };
        match read_supply_cap(&self.supply_cap, &expected_cap_address) {
            Err(e) => {
                return Err(e);
            },
            Ok(Some(ceiling)) => {
                if total > ceiling {
                    return Err(StablecoinError::SupplyCapExceeded);
                }
            },
            Ok(None) => {},
        }
        let request = LedgerAction::MintTo {
            mint: self.stablecoin.mint,
            recipient: self.recipient_token_account,
            authority: self.stablecoin_key,
            bump: self.stablecoin.bump,
            amount,
        };
        self.minter_info = Some(MinterInfo { minted_amount: minted, ..info });
        self.stablecoin.total_minted = total;
        Ok(request)
    }

    /// Mints `amount` to the recipient on behalf of the caller. The supply cap counts only if
    /// the account handed in lives where the platform derives the registry's supply cap
    /// record.
    pub fn mint_tokens(&mut self, amount: u64) -> (outcome: Result<LedgerAction, StablecoinError>)
        ensures
            match mint_outcome(
                *old(self),
                amount,
                is_supply_cap_record(old(self).supply_cap, old(self).stablecoin_key),
            ) {
                Ok(after) => outcome == Ok::<LedgerAction, StablecoinError>(
                    mint_request(*old(self), amount),
                ) && *final(self) == after,
                Err(e) => outcome == Err::<LedgerAction, StablecoinError>(e) && *final(self)
                    == *old(self),
            },
    {
        let own = program_id();
        let found = find_record_address(SUPPLY_CAP_SEED.as_slice(), &self.stablecoin_key, &own);
        let expected: Option<Identity> = match found {
            Some((address, _)) => Some(address),
            None => None,
        };
        proof {
            if expected is Some && expected.unwrap()@ == self.supply_cap.key@ {
                lemma_identity_by_bytes(expected.unwrap(), self.supply_cap.key);
            }
        }
        self.mint_tokens_at(amount, expected)
    }
}

} // verus!
