//! Pausing and unpausing a registry.

use vstd::prelude::*;
use crate::auth::{authorization, authorize, Operation};
use crate::error::StablecoinError;
use crate::identity::Identity;
use crate::state::{RoleAccount, StablecoinState};

verus! {

/// The accounts of a pause or an unpause.
#[derive(Clone, Debug, PartialEq, Eq)]
pub struct PauseUnpause {
    /// The caller.
    pub authority: Identity,
    pub stablecoin: StablecoinState,
    /// The role slot of the caller in the registry.
    pub role: Option<RoleAccount>,
}

/// What a pause does: the accounts afterwards, with the registry paused, or the refusal.
pub open spec fn pause_outcome(ctx: PauseUnpause) -> Result<PauseUnpause, StablecoinError> {
    match authorization(Operation::Pause, ctx.role, ctx.stablecoin) {
        Err(e) => Err(e),
        Ok(_) => Ok(
            PauseUnpause { stablecoin: StablecoinState { paused: true, ..ctx.stablecoin }, ..ctx },
        ),
    }
}

/// What an unpause does: the accounts afterwards, with the registry running, or the refusal.
pub open spec fn unpause_outcome(ctx: PauseUnpause) -> Result<PauseUnpause, StablecoinError> {
    match authorization(Operation::Unpause, ctx.role, ctx.stablecoin) {
        Err(e) => Err(e),
        Ok(_) => Ok(
            PauseUnpause { stablecoin: StablecoinState { paused: false, ..ctx.stablecoin }, ..ctx },
        ),
    }
}

impl PauseUnpause {
    /// Pauses the registry. Pausing a paused registry succeeds and changes nothing.
    pub fn pause(&mut self) -> (outcome: Result<(), StablecoinError>)
        ensures
            match pause_outcome(*old(self)) {
                Ok(after) => outcome is Ok && *final(self) == after,
                Err(e) => outcome == Err::<(), StablecoinError>(e) && *final(self) == *old(self),
            },
    {
        match authorize(Operation::Pause, &self.role, &self.stablecoin) {
            Err(e) => {
                return Err(e);
            },
            Ok(_) => {},
        }
        self.stablecoin.paused = true;
        Ok(())
    }

    /// Lets the registry run again. Unpausing a running registry succeeds and changes
    /// nothing.
    pub fn unpause(&mut self) -> (outcome: Result<(), StablecoinError>)
        ensures
            match unpause_outcome(*old(self)) {
                Ok(after) => outcome is Ok && *final(self) == after,
                Err(e) => outcome == Err::<(), StablecoinError>(e) && *final(self) == *old(self),
            },
    {
        match authorize(Operation::Unpause, &self.role, &self.stablecoin) {
            Err(e) => {
                return Err(e);
            },
            Ok(_) => {},
        }
        self.stablecoin.paused = false;
        Ok(())
    }
}

} // verus!
