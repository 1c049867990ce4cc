//! Burning.

use vstd::prelude::*;
use crate::auth::{authorization, authorize, Operation};
use crate::error::StablecoinError;
use crate::identity::Identity;
use crate::ledger::LedgerAction;
use crate::state::{RoleAccount, StablecoinState};

verus! {

/// The accounts of a burn.
#[derive(Clone, Debug, PartialEq, Eq)]
pub struct BurnTokens {
    /// The caller, who owns the token account.
    pub burner: Identity,
    /// Where the registry lives.
    pub stablecoin_key: Identity,
    pub stablecoin: StablecoinState,
    /// The role slot of the caller in the registry.
    pub role: Option<RoleAccount>,
    /// The token account that the tokens are taken from.
    pub burner_token_account: Identity,
}

/// The request that a successful burn sends to the ledger, signed by the caller.
pub open spec fn burn_request(ctx: BurnTokens, amount: u64) -> LedgerAction {
    LedgerAction::Burn {
        account: ctx.burner_token_account,
        mint: ctx.stablecoin.mint,
        owner: ctx.burner,
        amount,
    }
}

/// What a burn does: the accounts afterwards, or the refusal. The amount is checked first,
/// then the pause, the role, and the sum.
pub open spec fn burn_outcome(ctx: BurnTokens, amount: u64) -> Result<BurnTokens, StablecoinError> {
    let total = ctx.stablecoin.total_burned + amount;
    if amount == 0 {
        Err(StablecoinError::ZeroAmount)
    } else if authorization(Operation::Burn, ctx.role, ctx.stablecoin) is Err {
        Err(authorization(Operation::Burn, ctx.role, ctx.stablecoin)->Err_0)
    } else if total > u64::MAX {
        Err(StablecoinError::MathOverflow)
    } else {
        Ok(
            BurnTokens {
                stablecoin: StablecoinState { total_burned: total as u64, ..ctx.stablecoin },
                ..ctx
            },
        )
    }
}

impl BurnTokens {
    /// Burns `amount` from the caller's token account. On a refusal nothing changes. On
    /// success the registry's `total_burned` has grown by `amount`, and the result is the
    /// request to the ledger.
    pub fn burn_tokens(&mut self, amount: u64) -> (outcome: Result<LedgerAction, StablecoinError>)
        ensures
            match burn_outcome(*old(self), amount) {
                Ok(after) => outcome == Ok::<LedgerAction, StablecoinError>(
                    burn_request(*old(self), amount),
                ) && *final(self) == after,
                Err(e) => outcome == Err::<LedgerAction, StablecoinError>(e) && *final(self)
                    == *old(self),
            },
    {
        if amount == 0 {
            return Err(StablecoinError::ZeroAmount);
        }
        match authorize(Operation::Burn, &self.role, &self.stablecoin) {
            Err(e) => {
                return Err(e);
            },
            Ok(_) => {},
        }
        let total: u64 = match self.stablecoin.total_burned.checked_add(amount) {
            None => {
                return Err(StablecoinError::MathOverflow);
            },
            Some(sum) => sum,
        };
        let request = LedgerAction::Burn {
            account: self.burner_token_account,
            mint: self.stablecoin.mint,
            owner: self.burner,
            amount,
        };
        self.stablecoin.total_burned = total;
        Ok(request)
    }
}

} // verus!
