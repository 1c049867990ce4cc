//! Granting and revoking roles.

use vstd::prelude::*;
use crate::auth::{authority_check, require_authority};
use crate::enums::RoleFlags;
use crate::error::StablecoinError;
use crate::identity::Identity;
use crate::state::{RoleAccount, StablecoinState};

verus! {

/// The accounts of a role update.
#[derive(Clone, Debug, PartialEq, Eq)]
pub struct UpdateRoles {
    /// The caller.
    pub authority: Identity,
    /// Where the registry lives.
    pub stablecoin_key: Identity,
    pub stablecoin: StablecoinState,
    /// The role slot of the holder in the registry; empty until the first update.
    pub role: Option<RoleAccount>,
    /// The identity whose roles are set.
    pub holder: Identity,
}

/// The bump seed that a written role record carries: the one of the record it replaces, or
/// zero.
pub open spec fn kept_role_bump(slot: Option<RoleAccount>) -> u8 {
    match slot {
        Some(record) => record.bump,
        None => 0,
    }
}

/// What a role update does: the accounts afterwards, or the refusal. Only the authority may
/// update, and not for the null identity. The six flags replace the earlier ones; nothing is
/// merged.
pub open spec fn update_roles_outcome(ctx: UpdateRoles, roles: RoleFlags) -> Result<
    UpdateRoles,
    StablecoinError,
> {
    if authority_check(ctx.authority, ctx.stablecoin) is Err {
        Err(StablecoinError::Unauthorized)
    } else if ctx.holder.is_null() {
        Err(StablecoinError::InvalidRoleConfig)
    } else {
        Ok(
            UpdateRoles {
                role: Some(
                    RoleAccount {
                        stablecoin: ctx.stablecoin_key,
                        holder: ctx.holder,
                        roles,
                        bump: kept_role_bump(ctx.role),
                    },
                ),
                ..ctx
            },
        )
    }
}

impl UpdateRoles {
    /// Sets the roles of the holder to exactly `roles`. On a refusal nothing changes.
    pub fn update_roles(&mut self, roles: RoleFlags) -> (outcome: Result<(), StablecoinError>)
        ensures
            match update_roles_outcome(*old(self), roles) {
                Ok(after) => outcome is Ok && *final(self) == after,
                Err(e) => outcome == Err::<(), StablecoinError>(e) && *final(self) == *old(self),
            },
    {
        match require_authority(&self.authority, &self.stablecoin) {
            Err(e) => {
                return Err(e);
            },
            Ok(_) => {},
        }
        if self.holder.is_null() {
            return Err(StablecoinError::InvalidRoleConfig);
        }
        let bump: u8 = match self.role {
            Some(record) => record.bump,
            None => 0,
        };
        self.role = Some(
            RoleAccount { stablecoin: self.stablecoin_key, holder: self.holder, roles, bump },
        );
        Ok(())
    }
}

} // verus!
