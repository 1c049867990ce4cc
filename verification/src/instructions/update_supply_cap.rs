//! Setting and lifting the supply cap of a registry.

use vstd::prelude::*;
use crate::auth::{authority_check, require_authority};
use crate::constants::UNCAPPED;
use crate::error::StablecoinError;
use crate::identity::Identity;
use crate::state::{StablecoinState, SupplyCap};

verus! {

/// The accounts of a supply cap update.
#[derive(Clone, Debug, PartialEq, Eq)]
pub struct UpdateSupplyCap {
    /// The caller.
    pub authority: Identity,
    pub stablecoin: StablecoinState,
    /// The registry's supply cap slot; empty until the first update.
    pub supply_cap: Option<SupplyCap>,
}

/// The cap that is stored for a requested one: zero asks for no cap at all.
pub open spec fn effective_cap(cap: u64) -> u64 {
    if cap == 0 {
        UNCAPPED
    } else {
        cap
    }
}

/// The bump seed that a written supply cap record carries: the one of the record it
/// replaces, or zero.
pub open spec fn kept_cap_bump(slot: Option<SupplyCap>) -> u8 {
    match slot {
        Some(record) => record.bump,
        None => 0,
    }
}

/// What a supply cap update does: the accounts afterwards, or the refusal. Only the authority
/// may update, and a cap may not be set below what the registry has already minted.
pub open spec fn update_supply_cap_outcome(ctx: UpdateSupplyCap, cap: u64) -> Result<
    UpdateSupplyCap,
    StablecoinError,
> {
    if authority_check(ctx.authority, ctx.stablecoin) is Err {
        Err(StablecoinError::Unauthorized)
    } else if effective_cap(cap) != UNCAPPED && effective_cap(cap) < ctx.stablecoin.total_minted {
        Err(StablecoinError::SupplyCapExceeded)
    } else {
        Ok(
            UpdateSupplyCap {
                supply_cap: Some(
                    SupplyCap { cap: effective_cap(cap), bump: kept_cap_bump(ctx.supply_cap) },
                ),
                ..ctx
            },
        )
    }
}

impl UpdateSupplyCap {
    /// Sets the supply cap of the registry to `cap`, or lifts it where `cap` is zero. On a
    /// refusal nothing changes.
    pub fn update_supply_cap(&mut self, cap: u64) -> (outcome: Result<(), StablecoinError>)
        ensures
            match update_supply_cap_outcome(*old(self), cap) {
                Ok(after) => outcome is Ok && *final(self) == after,
                Err(e) => outcome == Err::<(), StablecoinError>(e) && *final(self) == *old(self),
            },
    {
        match require_authority(&self.authority, &self.stablecoin) {
            Err(e) => {
                return Err(e);
            },
            Ok(_) => {},
        }
        let effective: u64 = if cap == 0 {
            UNCAPPED
        } else {
            cap
        };
        if effective != UNCAPPED && effective < self.stablecoin.total_minted {
            return Err(StablecoinError::SupplyCapExceeded);
        }
        let bump: u8 = match self.supply_cap {
            Some(record) => record.bump,
            None => 0,
        };
        self.supply_cap = Some(SupplyCap { cap: effective, bump });
        Ok(())
    }
}

} // verus!
