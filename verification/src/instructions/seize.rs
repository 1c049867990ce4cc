//! Seizing: moving the whole balance of a token account as the permanent delegate.

use anchor_lang::prelude::ProgramError;
use vstd::prelude::*;
use crate::account::RawAccount;
use crate::auth::{authorization, authorize, Operation};
use crate::constants::{
    spec_transfer_hook_program_id, transfer_hook_program_id, EXTRA_ACCOUNT_METAS_SEED,
};
use crate::error::StablecoinError;
use crate::host::{derived_address, find_record_address, token_account_amount, unpack_token_amount};
use crate::identity::{lemma_identity_by_bytes, Identity};
use crate::ledger::LedgerAction;
use crate::state::{RoleAccount, StablecoinState};

verus! {

/// Why a seizure did not happen.
#[derive(Debug, PartialEq, Eq)]
pub enum SeizeError {
    /// The core refused the seizure.
    Denied(StablecoinError),
    /// The token program does not take the source for an initialized token account.
    SourceAccount(ProgramError),
}

impl SeizeError {
    /// The core's reason, if it was the core that refused.
    pub open spec fn reason(self) -> Option<StablecoinError> {
        match self {
            SeizeError::Denied(e) => Some(e),
            SeizeError::SourceAccount(_) => None,
        }
    }
}

/// The accounts of a seizure.
#[derive(Clone, Debug, PartialEq, Eq)]
pub struct Seize {
    /// The caller.
    pub seizer: Identity,
    /// Where the registry lives.
    pub stablecoin_key: Identity,
    pub stablecoin: StablecoinState,
    /// The role slot of the caller in the registry.
    pub role: Option<RoleAccount>,
    /// The token account that is emptied.
    pub source_token_account: RawAccount,
    /// The token account that receives the balance.
    pub destination_token_account: Identity,
    /// The program that the ledger calls on the transfer.
    pub transfer_hook_program: Identity,
    /// The account handed in as the hook's list of extra accounts for the mint.
    pub extra_account_metas: Identity,
}

/// Whether `account` lives where the platform derives the hook's list of extra accounts for
/// `mint`.
pub open spec fn is_extra_account_metas(account: Identity, mint: Identity) -> bool {
    match derived_address(
        seq![EXTRA_ACCOUNT_METAS_SEED@, mint@],
        spec_transfer_hook_program_id()@,
    ) {
        Some((address, _)) => address == account@,
        None => false,
    }
}

/// The request that a seizure of `amount` sends to the ledger, signed by the registry as
/// permanent delegate.
pub open spec fn seize_request(ctx: Seize, amount: u64) -> LedgerAction {
    LedgerAction::TransferChecked {
        source: ctx.source_token_account.key,
        mint: ctx.stablecoin.mint,
        destination: ctx.destination_token_account,
        authority: ctx.stablecoin_key,
        bump: ctx.stablecoin.bump,
        amount,
        decimals: ctx.stablecoin.decimals,
    }
}

/// What a seizure does, given whether the list of extra accounts is recognised and the
/// balance that the token program reads out of the source: the request to the ledger, for
/// the whole balance, or why not. `Err(None)` stands for a source that the token program
/// cannot read. The registry must be in compliance mode, the caller a seizer, the hook
/// program the required one and its list recognised, and the balance positive; the checks
/// come in this order.
pub open spec fn seize_outcome(ctx: Seize, metas_recognised: bool, balance: Option<u64>) -> Result<
    LedgerAction,
    Option<StablecoinError>,
> {
    if authorization(Operation::Seize, ctx.role, ctx.stablecoin) is Err {
        Err(Some(authorization(Operation::Seize, ctx.role, ctx.stablecoin)->Err_0))
    } else if ctx.transfer_hook_program != spec_transfer_hook_program_id() {
        Err(Some(StablecoinError::Unauthorized))
    } else if !metas_recognised {
        Err(Some(StablecoinError::Unauthorized))
    } else if balance is None {
        Err(None)
    } else if balance.unwrap() == 0 {
        Err(Some(StablecoinError::ZeroAmount))
    } else {
        Ok(seize_request(ctx, balance.unwrap()))
    }
}

/// The balance of a reading, where there is one.
pub open spec fn balance_of(reading: Result<u64, ProgramError>) -> Option<u64> {
    match reading {
        Ok(balance) => Some(balance),
        Err(_) => None,
    }
}

impl Seize {
    /// Decides a seizure from the address at which the hook's list of extra accounts is
    /// expected and from what the token program read out of the source. No record changes.
    pub fn seize_with(&self, expected_metas: Option<Identity>, source: Result<u64, ProgramError>) -> (outcome:
        Result<LedgerAction, SeizeError>)
        ensures
            match outcome {
                Ok(request) => seize_outcome(
                    *self,
                    expected_metas == Some(self.extra_account_metas),
                    balance_of(source),
                ) == Ok::<LedgerAction, Option<StablecoinError>>(request),
                Err(e) => seize_outcome(
                    *self,
                    expected_metas == Some(self.extra_account_metas),
                    balance_of(source),
                ) == Err::<LedgerAction, Option<StablecoinError>>(e.reason()),
            },
            outcome matches Err(SeizeError::SourceAccount(e)) ==> source == Err::<
                u64,
                ProgramError,
            >(e),
    {
        match authorize(Operation::Seize, &self.role, &self.stablecoin) {
            Err(e) => {
                return Err(SeizeError::Denied(e));
            },
            Ok(_) => {},
        }
        if self.transfer_hook_program != transfer_hook_program_id() {
            return Err(SeizeError::Denied(StablecoinError::Unauthorized));
        }
        let recognised = match expected_metas {
            Some(address) => address == self.extra_account_metas,
            None => false,
        };
        if !recognised {
            return Err(SeizeError::Denied(StablecoinError::Unauthorized));
        }
        let amount: u64 = match source {
            Err(e) => {
                return Err(SeizeError::SourceAccount(e));
            },
            Ok(balance) => balance,
        };
        if amount == 0 {
            return Err(SeizeError::Denied(StablecoinError::ZeroAmount));
        }
        Ok(
            LedgerAction::TransferChecked {
                source: self.source_token_account.key,
                mint: self.stablecoin.mint,
                destination: self.destination_token_account,
                authority: self.stablecoin_key,
                bump: self.stablecoin.bump,
                amount,
                decimals: self.stablecoin.decimals,
            },
        )
    }

    /// Seizes the whole balance of the source token account for the destination. The hook's
    /// list of extra accounts counts as recognised only if it lives where the platform
    /// derives it for the mint, and the balance is the one that the token program reads out
    /// of the source.
    pub fn seize(&self) -> (outcome: Result<LedgerAction, SeizeError>)
        ensures
            match outcome {
                Ok(request) => seize_outcome(
                    *self,
                    is_extra_account_metas(self.extra_account_metas, self.stablecoin.mint),
                    token_account_amount(self.source_token_account.data@),
                ) == Ok::<LedgerAction, Option<StablecoinError>>(request),
                Err(e) => seize_outcome(
                    *self,
                    is_extra_account_metas(self.extra_account_metas, self.stablecoin.mint),
                    token_account_amount(self.source_token_account.data@),
                ) == Err::<LedgerAction, Option<StablecoinError>>(e.reason()),
            },
    {
        let hook = transfer_hook_program_id();
        let found = find_record_address(
            EXTRA_ACCOUNT_METAS_SEED.as_slice(),
            &self.stablecoin.mint,
            &hook,
        );
        let expected: Option<Identity> = match found {
            Some((address, _)) => Some(address),
            None => None,
        };
        proof {
            if expected is Some && expected.unwrap()@ == self.extra_account_metas@ {
                lemma_identity_by_bytes(expected.unwrap(), self.extra_account_metas);
            }
        }
        let source = unpack_token_amount(self.source_token_account.data.as_slice());
        self.seize_with(expected, source)
    }
}

} // verus!
