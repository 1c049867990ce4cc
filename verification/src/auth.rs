//! The authorization engine: whether a caller may perform an operation on a registry.

use vstd::prelude::*;
use crate::enums::RoleFlags;
use crate::error::StablecoinError;
use crate::identity::Identity;
use crate::state::role::granted;
use crate::state::{RoleAccount, StablecoinState};

verus! {

/// The operations that a role gates.
#[derive(Clone, Copy, Debug, PartialEq, Eq, Structural)]
pub enum Operation {
    Mint,
    Burn,
    Freeze,
    Thaw,
    Pause,
    Unpause,
    AddToBlacklist,
    RemoveFromBlacklist,
    Seize,
}

impl Operation {
    /// Whether `flags` hold the capability that the operation asks for. Freezing and thawing
    /// are open to pausers and to freezers.
    pub open spec fn permitted_by(self, flags: RoleFlags) -> bool {
        match self {
            Operation::Mint => flags.is_minter,
            Operation::Burn => flags.is_burner,
            Operation::Freeze => flags.is_pauser || flags.is_freezer,
            Operation::Thaw => flags.is_pauser || flags.is_freezer,
            Operation::Pause => flags.is_pauser,
            Operation::Unpause => flags.is_pauser,
            Operation::AddToBlacklist => flags.is_blacklister,
            Operation::RemoveFromBlacklist => flags.is_blacklister,
            Operation::Seize => flags.is_seizer,
        }
    }

    /// Whether the operation exists only for registries in compliance mode.
    pub open spec fn needs_compliance(self) -> bool {
        self == Operation::AddToBlacklist || self == Operation::RemoveFromBlacklist || self
            == Operation::Seize
    }

    /// Whether a paused registry refuses the operation.
    pub open spec fn stopped_by_pause(self) -> bool {
        self == Operation::Mint || self == Operation::Burn
    }
}

/// The verdict on an operation, from the caller's role slot and the registry alone. The
/// registry is looked at first, so a caller without the capability learns of a paused or
/// non-compliance registry before being told that the capability is missing. An empty slot
/// grants nothing.
pub open spec fn authorization(
    op: Operation,
    role: Option<RoleAccount>,
    registry: StablecoinState,
) -> Result<(), StablecoinError> {
    if op.needs_compliance() && !registry.is_sss2() {
        Err(StablecoinError::ComplianceNotEnabled)
    } else if op.stopped_by_pause() && registry.paused {
        Err(StablecoinError::Paused)
    } else if !op.permitted_by(granted(role)) {
        Err(StablecoinError::Unauthorized)
    } else {
        Ok(())
    }
}

/// Whether `flags` hold the capability that `op` asks for.
pub fn permits(op: Operation, flags: &RoleFlags) -> (held: bool)
    ensures
        held == op.permitted_by(*flags),
{
    match op {
        Operation::Mint => flags.is_minter,
        Operation::Burn => flags.is_burner,
        Operation::Freeze => flags.is_pauser || flags.is_freezer,
        Operation::Thaw => flags.is_pauser || flags.is_freezer,
        Operation::Pause => flags.is_pauser,
        Operation::Unpause => flags.is_pauser,
        Operation::AddToBlacklist => flags.is_blacklister,
        Operation::RemoveFromBlacklist => flags.is_blacklister,
        Operation::Seize => flags.is_seizer,
    }
}

/// Decides whether the holder of `role` may perform `op` on `registry`.
pub fn authorize(op: Operation, role: &Option<RoleAccount>, registry: &StablecoinState) -> (verdict:
    Result<(), StablecoinError>)
    ensures
        verdict == authorization(op, *role, *registry),
{
    let compliance_only = match op {
        Operation::AddToBlacklist | Operation::RemoveFromBlacklist | Operation::Seize => true,
        _ => false,
    };
    let pausable = match op {
        Operation::Mint | Operation::Burn => true,
        _ => false,
    };
    if compliance_only && !registry.is_sss2() {
        return Err(StablecoinError::ComplianceNotEnabled);
    }
    if pausable && registry.paused {
        return Err(StablecoinError::Paused);
    }
    let held = match role {
        Some(record) => permits(op, &record.roles),
        None => false,
    };
    if !held {
        return Err(StablecoinError::Unauthorized);
    }
    Ok(())
}

/// Whether `caller` is the authority of `registry`.
pub open spec fn authority_check(caller: Identity, registry: StablecoinState) -> Result<
    (),
    StablecoinError,
> {
    if caller == registry.authority {
        Ok(())
    } else {
        Err(StablecoinError::Unauthorized)
    }
}

/// Accepts `caller` only if it is the authority of `registry`.
pub fn require_authority(caller: &Identity, registry: &StablecoinState) -> (verdict: Result<
    (),
    StablecoinError,
>)
    ensures
        verdict == authority_check(*caller, *registry),
{
    if *caller == registry.authority {
        Ok(())
    } else {
        Err(StablecoinError::Unauthorized)
    }
}

} // verus!
