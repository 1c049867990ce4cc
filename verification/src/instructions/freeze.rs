//! Freezing and thawing token accounts.

use vstd::prelude::*;
use crate::auth::{authorization, authorize, Operation};
use crate::error::StablecoinError;
use crate::identity::Identity;
use crate::ledger::LedgerAction;
use crate::state::{RoleAccount, StablecoinState};

verus! {

/// The accounts of a freeze.
#[derive(Clone, Debug, PartialEq, Eq)]
pub struct FreezeTokenAccount {
    /// The caller.
    pub authority: Identity,
    /// Where the registry lives.
    pub stablecoin_key: Identity,
    pub stablecoin: StablecoinState,
    /// The role slot of the caller in the registry.
    pub role: Option<RoleAccount>,
    /// The token account to freeze.
    pub target_token_account: Identity,
}

/// The accounts of a thaw.
#[derive(Clone, Debug, PartialEq, Eq)]
pub struct ThawTokenAccount {
    /// The caller.
    pub authority: Identity,
    /// Where the registry lives.
    pub stablecoin_key: Identity,
    pub stablecoin: StablecoinState,
    /// The role slot of the caller in the registry.
    pub role: Option<RoleAccount>,
    /// The token account to thaw.
    pub target_token_account: Identity,
}

/// What a freeze does: the request to the ledger, signed by the registry, or the refusal.
/// Pausers and freezers may freeze, whether the registry is paused or not.
pub open spec fn freeze_outcome(ctx: FreezeTokenAccount) -> Result<LedgerAction, StablecoinError> {
    match authorization(Operation::Freeze, ctx.role, ctx.stablecoin) {
        Err(e) => Err(e),
        Ok(_) => Ok(
            LedgerAction::FreezeAccount {
                account: ctx.target_token_account,
                mint: ctx.stablecoin.mint,
                authority: ctx.stablecoin_key,
                bump: ctx.stablecoin.bump,
            },
        ),
    }
}

/// What a thaw does: the request to the ledger, signed by the registry, or the refusal.
/// Pausers and freezers may thaw, whether the registry is paused or not.
pub open spec fn thaw_outcome(ctx: ThawTokenAccount) -> Result<LedgerAction, StablecoinError> {
    match authorization(Operation::Thaw, ctx.role, ctx.stablecoin) {
        Err(e) => Err(e),
        Ok(_) => Ok(
            LedgerAction::ThawAccount {
                account: ctx.target_token_account,
                mint: ctx.stablecoin.mint,
                authority: ctx.stablecoin_key,
                bump: ctx.stablecoin.bump,
            },
        ),
    }
}

impl FreezeTokenAccount {
    /// Freezes the target token account. No record changes.
    pub fn freeze_token_account(&self) -> (outcome: Result<LedgerAction, StablecoinError>)
        ensures
            outcome == freeze_outcome(*self),
    {
        match authorize(Operation::Freeze, &self.role, &self.stablecoin) {
            Err(e) => Err(e),
            Ok(_) => Ok(
                LedgerAction::FreezeAccount {
                    account: self.target_token_account,
                    mint: self.stablecoin.mint,
                    authority: self.stablecoin_key,
                    bump: self.stablecoin.bump,
                },
            ),
        }
    }
}

impl ThawTokenAccount {
    /// Thaws the target token account. No record changes.
    pub fn thaw_token_account(&self) -> (outcome: Result<LedgerAction, StablecoinError>)
        ensures
            outcome == thaw_outcome(*self),
    {
        match authorize(Operation::Thaw, &self.role, &self.stablecoin) {
            Err(e) => Err(e),
            Ok(_) => Ok(
                LedgerAction::ThawAccount {
                    account: self.target_token_account,
                    mint: self.stablecoin.mint,
                    authority: self.stablecoin_key,
                    bump: self.stablecoin.bump,
                },
            ),
        }
    }
}

} // verus!
