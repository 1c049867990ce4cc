//! Handing the authority of a registry on.

use vstd::prelude::*;
use crate::auth::{authority_check, require_authority};
use crate::error::StablecoinError;
use crate::identity::Identity;
use crate::state::StablecoinState;

verus! {

/// The accounts of an authority handoff.
#[derive(Clone, Debug, PartialEq, Eq)]
pub struct TransferAuthority {
    /// The caller.
    pub authority: Identity,
    pub stablecoin: StablecoinState,
    /// The identity that is to become the authority. It need not take part.
    pub new_authority: Identity,
}

/// What a handoff does: the accounts afterwards, or the refusal. Only the authority may hand
/// on; the null identity is refused with `Unauthorized`, the current authority with
/// `InvalidRoleConfig`. No role record changes hands.
pub open spec fn transfer_authority_outcome(ctx: TransferAuthority) -> Result<
    TransferAuthority,
    StablecoinError,
> {
    if authority_check(ctx.authority, ctx.stablecoin) is Err {
        Err(StablecoinError::Unauthorized)
    } else if ctx.new_authority.is_null() {
        Err(StablecoinError::Unauthorized)
    } else if ctx.new_authority == ctx.stablecoin.authority {
        Err(StablecoinError::InvalidRoleConfig)
    } else {
        Ok(
            TransferAuthority {
                stablecoin: StablecoinState { authority: ctx.new_authority, ..ctx.stablecoin },
                ..ctx
            },
        )
    }
}

impl TransferAuthority {
    /// Makes `new_authority` the authority of the registry. On a refusal nothing changes.
    pub fn transfer_authority(&mut self) -> (outcome: Result<(), StablecoinError>)
        ensures
            match transfer_authority_outcome(*old(self)) {
                Ok(after) => outcome is Ok && *final(self) == after,
                Err(e) => outcome == Err::<(), StablecoinError>(e) && *final(self) == *old(self),
            },
    {
        match require_authority(&self.authority, &self.stablecoin) {
            Err(e) => {
                return Err(e);
            },
            Ok(_) => {},
        }
        if self.new_authority.is_null() {
            return Err(StablecoinError::Unauthorized);
        }
        if self.new_authority == self.stablecoin.authority {
            return Err(StablecoinError::InvalidRoleConfig);
        }
        self.stablecoin.authority = self.new_authority;
        Ok(())
    }
}

} // verus!
