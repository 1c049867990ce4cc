//! Setting the quota of a minter.

use vstd::prelude::*;
use crate::auth::{authority_check, require_authority};
use crate::error::StablecoinError;
use crate::identity::Identity;
use crate::state::minter_info::minted_so_far;
use crate::state::{MinterInfo, StablecoinState};

verus! {

/// The bump seed of the record that a quota update writes.
#[derive(Clone, Copy, Debug, PartialEq, Eq, Structural)]
pub struct UpdateMinterBumps {
    pub minter_info: u8,
}

/// The accounts of a quota update.
#[derive(Clone, Debug, PartialEq, Eq)]
pub struct UpdateMinter {
    /// The caller.
    pub authority: Identity,
    /// Where the registry lives.
    pub stablecoin_key: Identity,
    pub stablecoin: StablecoinState,
    /// The quota slot of the minter in the registry; empty until the first update.
    pub minter_info: Option<MinterInfo>,
    /// The identity whose quota is set.
    pub minter: Identity,
}

/// What a quota update does: the accounts afterwards, or the refusal. Only the authority may
/// update, and the quota may not fall below what the minter has already minted, which is
/// kept.
pub open spec fn update_minter_outcome(ctx: UpdateMinter, quota: u64, bumps: UpdateMinterBumps) -> Result<
    UpdateMinter,
    StablecoinError,
> {
    if authority_check(ctx.authority, ctx.stablecoin) is Err {
        Err(StablecoinError::Unauthorized)
    } else if quota < minted_so_far(ctx.minter_info) {
        Err(StablecoinError::QuotaExceeded)
    } else {
        Ok(
            UpdateMinter {
                minter_info: Some(
                    MinterInfo {
                        stablecoin: ctx.stablecoin_key,
                        minter: ctx.minter,
                        quota,
                        minted_amount: minted_so_far(ctx.minter_info),
                        bump: bumps.minter_info,
                    },
                ),
                ..ctx
            },
        )
    }
}

impl UpdateMinter {
    /// Sets the quota of the minter to `quota`. On a refusal nothing changes.
    pub fn update_minter(&mut self, quota: u64, bumps: &UpdateMinterBumps) -> (outcome: Result<
        (),
        StablecoinError,
    >)
        ensures
            match update_minter_outcome(*old(self), quota, *bumps) {
                Ok(after) => outcome is Ok && *final(self) == after,
                Err(e) => outcome == Err::<(), StablecoinError>(e) && *final(self) == *old(self),
            },
    {
        match require_authority(&self.authority, &self.stablecoin) {
            Err(e) => {
                return Err(e);
            },
            Ok(_) => {},
        }
        let minted: u64 = match self.minter_info {
            Some(record) => record.minted_amount,
            None => 0,
        };
        if quota < minted {
            return Err(StablecoinError::QuotaExceeded);
        }
        self.minter_info = Some(
            MinterInfo {
                stablecoin: self.stablecoin_key,
                minter: self.minter,
                quota,
                minted_amount: minted,
                bump: bumps.minter_info,
            },
        );
        Ok(())
    }
}

} // verus!
