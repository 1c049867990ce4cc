//! Creating a registry.

use vstd::prelude::*;
use vstd::utf8::encode_utf8;
use crate::constants::{
    spec_transfer_hook_program_id, transfer_hook_program_id, MAX_DECIMALS, MAX_NAME_LEN,
    MAX_SYMBOL_LEN, MAX_URI_LEN,
};
use crate::enums::RoleFlags;
use crate::error::StablecoinError;
use crate::host::{calculate_mint_len, mint_account_len};
use crate::identity::Identity;
use crate::ledger::{LedgerAction, MintExtension};
use crate::state::{RoleAccount, StablecoinState};

verus! {

/// What the creator of a registry chooses. The three flags cannot be changed later.
#[derive(Clone, Debug, PartialEq, Eq)]
pub struct InitializeParams {
    pub name: String,
    pub symbol: String,
    pub uri: String,
    pub decimals: u8,
    pub enable_permanent_delegate: bool,
    pub enable_transfer_hook: bool,
    pub default_account_frozen: bool,
}

/// The bump seeds of the two records that creation writes.
#[derive(Clone, Copy, Debug, PartialEq, Eq, Structural)]
pub struct InitializeStablecoinBumps {
    pub stablecoin: u8,
    pub authority_role: u8,
}

/// The accounts of a registry's creation.
#[derive(Clone, Debug, PartialEq, Eq)]
pub struct InitializeStablecoin {
    /// The caller, who becomes the registry's authority and pays for the accounts.
    pub authority: Identity,
    /// Where the registry will live.
    pub stablecoin_key: Identity,
    /// The registry's slot: empty before, filled after.
    pub stablecoin: Option<StablecoinState>,
    /// The mint that the ledger will create for the asset.
    pub mint: Identity,
    /// The role slot of the caller in the new registry.
    pub authority_role: Option<RoleAccount>,
    /// The program that the ledger is to call on transfers, if the asset has a hook.
    pub transfer_hook_program: Identity,
}

/// The first fault in what the creator chose, if there is one: a text that is too long, too
/// many decimals, or a transfer hook other than the required one.
pub open spec fn params_check(params: InitializeParams, hook_program: Identity) -> Result<
    (),
    StablecoinError,
> {
    if encode_utf8(params.name@).len() > MAX_NAME_LEN {
        Err(StablecoinError::NameTooLong)
    } else if encode_utf8(params.symbol@).len() > MAX_SYMBOL_LEN {
        Err(StablecoinError::SymbolTooLong)
    } else if encode_utf8(params.uri@).len() > MAX_URI_LEN {
        Err(StablecoinError::UriTooLong)
    } else if params.decimals > MAX_DECIMALS {
        Err(StablecoinError::InvalidRoleConfig)
    } else if params.enable_transfer_hook && hook_program != spec_transfer_hook_program_id() {
        Err(StablecoinError::Unauthorized)
    } else {
        Ok(())
    }
}

/// The extensions of the mint: always a close authority, then one for each chosen flag.
pub open spec fn extensions_for(params: InitializeParams) -> Seq<MintExtension> {
    seq![MintExtension::MintCloseAuthority] + (if params.enable_permanent_delegate {
        seq![MintExtension::PermanentDelegate]
    } else {
        seq![]
    }) + (if params.enable_transfer_hook {
        seq![MintExtension::TransferHook]
    } else {
        seq![]
    }) + (if params.default_account_frozen {
        seq![MintExtension::DefaultAccountState]
    } else {
        seq![]
    })
}

/// The registry as it stands right after creation: not paused, nothing minted or burned.
pub open spec fn new_registry(
    ctx: InitializeStablecoin,
    params: InitializeParams,
    bumps: InitializeStablecoinBumps,
) -> StablecoinState {
    StablecoinState {
        authority: ctx.authority,
        mint: ctx.mint,
        name: params.name,
        symbol: params.symbol,
        uri: params.uri,
        decimals: params.decimals,
        enable_permanent_delegate: params.enable_permanent_delegate,
        enable_transfer_hook: params.enable_transfer_hook,
        default_account_frozen: params.default_account_frozen,
        paused: false,
        total_minted: 0,
        total_burned: 0,
        bump: bumps.stablecoin,
    }
}

/// The role record of the creator: every capability.
pub open spec fn creator_role(ctx: InitializeStablecoin, bumps: InitializeStablecoinBumps) -> RoleAccount {
    RoleAccount {
        stablecoin: ctx.stablecoin_key,
        holder: ctx.authority,
        roles: RoleFlags::all(),
        bump: bumps.authority_role,
    }
}

/// The requests that set the mint up, in the order in which the ledger must get them: the
/// account, then the extensions, then the mint itself. The registry is the authority of
/// everything.
pub open spec fn ledger_plan(ctx: InitializeStablecoin, params: InitializeParams, space: u64) -> Seq<
    LedgerAction,
> {
    seq![
        LedgerAction::CreateMintAccount { payer: ctx.authority, mint: ctx.mint, space },
        LedgerAction::InitializeMintCloseAuthority {
            mint: ctx.mint,
            close_authority: ctx.stablecoin_key,
        },
    ] + (if params.enable_permanent_delegate {
        seq![
            LedgerAction::InitializePermanentDelegate {
                mint: ctx.mint,
                delegate: ctx.stablecoin_key,
            },
        ]
    } else {
        seq![]
    }) + (if params.enable_transfer_hook {
        seq![
            LedgerAction::InitializeTransferHook {
                mint: ctx.mint,
                authority: ctx.stablecoin_key,
                hook_program: ctx.transfer_hook_program,
            },
        ]
    } else {
        seq![]
    }) + (if params.default_account_frozen {
        seq![LedgerAction::InitializeDefaultAccountStateFrozen { mint: ctx.mint }]
    } else {
        seq![]
    }) + seq![
        LedgerAction::InitializeMint {
            mint: ctx.mint,
            mint_authority: ctx.stablecoin_key,
            freeze_authority: ctx.stablecoin_key,
            decimals: params.decimals,
        },
    ]
}

/// What creation does, given the length that the token program computes for the mint
/// account: the accounts afterwards and the requests to the ledger, or the refusal.
pub open spec fn initialize_outcome(
    ctx: InitializeStablecoin,
    params: InitializeParams,
    bumps: InitializeStablecoinBumps,
    mint_len: Option<u64>,
) -> Result<(InitializeStablecoin, Seq<LedgerAction>), StablecoinError> {
    match params_check(params, ctx.transfer_hook_program) {
        Err(e) => Err(e),
        Ok(_) => match mint_len {
            None => Err(StablecoinError::MathOverflow),
            Some(space) => Ok(
                (
                    InitializeStablecoin {
                        stablecoin: Some(new_registry(ctx, params, bumps)),
                        authority_role: Some(creator_role(ctx, bumps)),
                        ..ctx
                    },
                    ledger_plan(ctx, params, space),
                ),
            ),
        },
    }
}

/// Checks what the creator chose against the limits, and the transfer hook program against
/// the required one where the asset has a hook.
pub fn validate_params(params: &InitializeParams, hook_program: &Identity) -> (verdict: Result<
    (),
    StablecoinError,
>)
    ensures
        verdict == params_check(*params, *hook_program),
{
    if params.name.as_str().as_bytes().len() > MAX_NAME_LEN {
        return Err(StablecoinError::NameTooLong);
    }
    if params.symbol.as_str().as_bytes().len() > MAX_SYMBOL_LEN {
        return Err(StablecoinError::SymbolTooLong);
    }
    if params.uri.as_str().as_bytes().len() > MAX_URI_LEN {
        return Err(StablecoinError::UriTooLong);
    }
    if params.decimals > MAX_DECIMALS {
        return Err(StablecoinError::InvalidRoleConfig);
    }
    if params.enable_transfer_hook && *hook_program != transfer_hook_program_id() {
        return Err(StablecoinError::Unauthorized);
    }
    Ok(())
}

/// Lists the extensions that the mint is created with.
pub fn mint_extensions(params: &InitializeParams) -> (extensions: Vec<MintExtension>)
    ensures
        extensions@ == extensions_for(*params),
{
    let mut extensions: Vec<MintExtension> = Vec::new();
    extensions.push(MintExtension::MintCloseAuthority);
    if params.enable_permanent_delegate {
        extensions.push(MintExtension::PermanentDelegate);
    }
    if params.enable_transfer_hook {
        extensions.push(MintExtension::TransferHook);
    }
    if params.default_account_frozen {
        extensions.push(MintExtension::DefaultAccountState);
    }
    assert(extensions@ =~= extensions_for(*params));
    extensions
}

impl InitializeStablecoin {
    /// Creates the registry once the length of the mint account is known. On a refusal
    /// nothing changes. On success the registry slot holds the new registry, the caller's
    /// role slot holds every capability, and the result lists the requests that set the
    /// mint up.
    pub fn initialize_with_mint_len(
        &mut self,
        params: InitializeParams,
        bumps: InitializeStablecoinBumps,
        mint_len: Option<u64>,
    ) -> (outcome: Result<Vec<LedgerAction>, StablecoinError>)
        requires
            old(self).stablecoin is None,
        ensures
            match initialize_outcome(*old(self), params, bumps, mint_len) {
                Ok((after, plan)) => outcome is Ok && outcome.unwrap()@ == plan && *final(self)
                    == after,
                Err(e) => outcome == Err::<Vec<LedgerAction>, StablecoinError>(e) && *final(self)
                    == *old(self),
            },
    {
        match validate_params(&params, &self.transfer_hook_program) {
            Err(e) => {
                return Err(e);
            },
            Ok(_) => {},
        }
        let space = match mint_len {
            None => {
                return Err(StablecoinError::MathOverflow);
            },
            Some(space) => space,
        };
        let registry = self.stablecoin_key;
        let mint = self.mint;
        let mut plan: Vec<LedgerAction> = Vec::new();
        plan.push(LedgerAction::CreateMintAccount { payer: self.authority, mint, space });
        plan.push(LedgerAction::InitializeMintCloseAuthority { mint, close_authority: registry });
        if params.enable_permanent_delegate {
            plan.push(LedgerAction::InitializePermanentDelegate { mint, delegate: registry });
        }
        if params.enable_transfer_hook {
            plan.push(
                LedgerAction::InitializeTransferHook {
                    mint,
                    authority: registry,
                    hook_program: self.transfer_hook_program,
                },
            );
        }
        if params.default_account_frozen {
            plan.push(LedgerAction::InitializeDefaultAccountStateFrozen { mint });
        }
        plan.push(
            LedgerAction::InitializeMint {
                mint,
                mint_authority: registry,
                freeze_authority: registry,
                decimals: params.decimals,
            },
        );
        assert(plan@ =~= ledger_plan(*old(self), params, space));
        self.authority_role = Some(
            RoleAccount {
                stablecoin: registry,
                holder: self.authority,
                roles: RoleFlags::all(),
                bump: bumps.authority_role,
            },
        );
        self.stablecoin = Some(
            StablecoinState {
                authority: self.authority,
                mint,
                name: params.name,
                symbol: params.symbol,
                uri: params.uri,
                decimals: params.decimals,
                enable_permanent_delegate: params.enable_permanent_delegate,
                enable_transfer_hook: params.enable_transfer_hook,
                default_account_frozen: params.default_account_frozen,
                paused: false,
                total_minted: 0,
                total_burned: 0,
                bump: bumps.stablecoin,
            },
        );
        Ok(plan)
    }

    /// Creates the registry of an asset for the caller, who becomes its authority and gets
    /// every role. The length of the mint account is the one that the token program computes
    /// for the chosen extensions; where it cannot, creation fails with `MathOverflow`.
    pub fn initialize_stablecoin(
        &mut self,
        params: InitializeParams,
        bumps: InitializeStablecoinBumps,
    ) -> (outcome: Result<Vec<LedgerAction>, StablecoinError>)
        requires
            old(self).stablecoin is None,
        ensures
            match initialize_outcome(
                *old(self),
                params,
                bumps,
                mint_account_len(extensions_for(params)),
            ) {
                Ok((after, plan)) => outcome is Ok && outcome.unwrap()@ == plan && *final(self)
                    == after,
                Err(e) => outcome == Err::<Vec<LedgerAction>, StablecoinError>(e) && *final(self)
                    == *old(self),
            },
    {
        let extensions = mint_extensions(&params);
        let mint_len = calculate_mint_len(&extensions);
        self.initialize_with_mint_len(params, bumps, mint_len)
    }
}

/// A registry that was just created respects the bounds of a registry, is not paused, has
/// minted and burned nothing, and its creator holds every capability in it.
pub proof fn lemma_created_registry_is_sound(
    ctx: InitializeStablecoin,
    params: InitializeParams,
    bumps: InitializeStablecoinBumps,
    mint_len: Option<u64>,
)
    requires
        initialize_outcome(ctx, params, bumps, mint_len) is Ok,
    ensures
        ({
            let after = initialize_outcome(ctx, params, bumps, mint_len).unwrap().0;
            &&& after.stablecoin is Some
            &&& after.stablecoin.unwrap().wf()
            &&& !after.stablecoin.unwrap().paused
            &&& after.stablecoin.unwrap().total_minted == 0
            &&& after.stablecoin.unwrap().total_burned == 0
            &&& after.stablecoin.unwrap().authority == ctx.authority
            &&& after.authority_role is Some
            &&& after.authority_role.unwrap().roles == RoleFlags::all()
            &&& after.authority_role.unwrap().holder == ctx.authority
        }),
{
}

} // verus!
