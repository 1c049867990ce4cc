//! Blacklisting: an address is blocked for as long as its entry exists.

use vstd::prelude::*;
use vstd::utf8::encode_utf8;
use crate::auth::{authorization, authorize, Operation};
use crate::constants::MAX_REASON_LEN;
use crate::error::StablecoinError;
use crate::identity::Identity;
use crate::state::{BlacklistEntry, RoleAccount, StablecoinState};

verus! {

/// The bump seed of the entry that blacklisting writes.
#[derive(Clone, Copy, Debug, PartialEq, Eq, Structural)]
pub struct AddToBlacklistBumps {
    pub blacklist_entry: u8,
}

/// The accounts of a blacklisting.
#[derive(Clone, Debug, PartialEq, Eq)]
pub struct AddToBlacklist {
    /// The caller.
    pub blacklister: Identity,
    /// Where the registry lives.
    pub stablecoin_key: Identity,
    pub stablecoin: StablecoinState,
    /// The role slot of the caller in the registry.
    pub role: Option<RoleAccount>,
    /// The blacklist slot of the address in the registry.
    pub blacklist_entry: Option<BlacklistEntry>,
    /// The address to block.
    pub address: Identity,
}

/// The accounts of the removal of a blacklist entry.
#[derive(Clone, Debug, PartialEq, Eq)]
pub struct RemoveFromBlacklist {
    /// The caller.
    pub blacklister: Identity,
    /// Where the registry lives.
    pub stablecoin_key: Identity,
    pub stablecoin: StablecoinState,
    /// The role slot of the caller in the registry.
    pub role: Option<RoleAccount>,
    /// The blacklist slot of the address in the registry.
    pub blacklist_entry: Option<BlacklistEntry>,
    /// The address to unblock.
    pub address: Identity,
}

/// The entry that blacklisting writes at the time `now`.
pub open spec fn new_entry(ctx: AddToBlacklist, reason: String, bumps: AddToBlacklistBumps, now: i64) -> BlacklistEntry {
    BlacklistEntry {
        stablecoin: ctx.stablecoin_key,
        address: ctx.address,
        reason,
        blacklisted_at: now,
        blacklisted_by: ctx.blacklister,
        bump: bumps.blacklist_entry,
    }
}

/// What a blacklisting does: the accounts afterwards, or the refusal. The registry must be
/// in compliance mode, the caller a blacklister, the reason at most 100 bytes long, and the
/// slot empty; the checks come in this order.
pub open spec fn add_to_blacklist_outcome(
    ctx: AddToBlacklist,
    reason: String,
    bumps: AddToBlacklistBumps,
    now: i64,
) -> Result<AddToBlacklist, StablecoinError> {
    if authorization(Operation::AddToBlacklist, ctx.role, ctx.stablecoin) is Err {
        Err(authorization(Operation::AddToBlacklist, ctx.role, ctx.stablecoin)->Err_0)
    } else if encode_utf8(reason@).len() > MAX_REASON_LEN {
        Err(StablecoinError::ReasonTooLong)
    } else if ctx.blacklist_entry is Some {
        Err(StablecoinError::AlreadyBlacklisted)
    } else {
        Ok(AddToBlacklist { blacklist_entry: Some(new_entry(ctx, reason, bumps, now)), ..ctx })
    }
}

/// What the removal of an entry does: the accounts afterwards, with the slot empty, or the
/// refusal. The registry must be in compliance mode, the caller a blacklister, and the slot
/// filled; the checks come in this order.
pub open spec fn remove_from_blacklist_outcome(ctx: RemoveFromBlacklist) -> Result<
    RemoveFromBlacklist,
    StablecoinError,
> {
    if authorization(Operation::RemoveFromBlacklist, ctx.role, ctx.stablecoin) is Err {
        Err(authorization(Operation::RemoveFromBlacklist, ctx.role, ctx.stablecoin)->Err_0)
    } else if ctx.blacklist_entry is None {
        Err(StablecoinError::NotBlacklisted)
    } else {
        Ok(RemoveFromBlacklist { blacklist_entry: None, ..ctx })
    }
}

impl AddToBlacklist {
    /// Blocks the address from the time `now` on, for the given reason. On a refusal nothing
    /// changes.
    pub fn add_to_blacklist(&mut self, reason: String, bumps: AddToBlacklistBumps, now: i64) -> (outcome:
        Result<(), StablecoinError>)
        ensures
            match add_to_blacklist_outcome(*old(self), reason, bumps, now) {
                Ok(after) => outcome is Ok && *final(self) == after,
                Err(e) => outcome == Err::<(), StablecoinError>(e) && *final(self) == *old(self),
            },
            outcome is Ok ==> final(self).blacklist_entry.unwrap().wf(),
    {
        match authorize(Operation::AddToBlacklist, &self.role, &self.stablecoin) {
            Err(e) => {
                return Err(e);
            },
            Ok(_) => {},
        }
        if reason.as_str().as_bytes().len() > MAX_REASON_LEN {
            return Err(StablecoinError::ReasonTooLong);
        }
        if self.blacklist_entry.is_some() {
            return Err(StablecoinError::AlreadyBlacklisted);
        }
        self.blacklist_entry = Some(
            BlacklistEntry {
                stablecoin: self.stablecoin_key,
                address: self.address,
                reason,
                blacklisted_at: now,
                blacklisted_by: self.blacklister,
                bump: bumps.blacklist_entry,
            },
        );
        Ok(())
    }
}

impl RemoveFromBlacklist {
    /// Unblocks the address by deleting its entry. On a refusal nothing changes.
    pub fn remove_from_blacklist(&mut self) -> (outcome: Result<(), StablecoinError>)
        ensures
            match remove_from_blacklist_outcome(*old(self)) {
                Ok(after) => outcome is Ok && *final(self) == after,
                Err(e) => outcome == Err::<(), StablecoinError>(e) && *final(self) == *old(self),
            },
    {
        match authorize(Operation::RemoveFromBlacklist, &self.role, &self.stablecoin) {
            Err(e) => {
                return Err(e);
            },
            Ok(_) => {},
        }
        if self.blacklist_entry.is_none() {
            return Err(StablecoinError::NotBlacklisted);
        }
        self.blacklist_entry = None;
        Ok(())
    }
}

} // verus!
