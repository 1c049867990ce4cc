//! What holds of the operations taken together.

use vstd::prelude::*;
use vstd::utf8::encode_utf8;
use crate::account::RawAccount;
use crate::auth::{authority_check, authorization, Operation};
use crate::constants::{spec_program_id, MAX_REASON_LEN};
use crate::enums::RoleFlags;
use crate::error::StablecoinError;
use crate::identity::Identity;
use crate::instructions::blacklist::{
    add_to_blacklist_outcome, remove_from_blacklist_outcome, AddToBlacklist, AddToBlacklistBumps,
    RemoveFromBlacklist,
};
use crate::instructions::burn::{burn_outcome, BurnTokens};
use crate::instructions::freeze::{freeze_outcome, thaw_outcome, FreezeTokenAccount, ThawTokenAccount};
use crate::instructions::mint::{
    is_supply_cap_record, mint_fits, mint_outcome, supply_cap_reading, MintTokens,
};
use crate::instructions::pause::{pause_outcome, unpause_outcome, PauseUnpause};
use crate::instructions::seize::{seize_outcome, Seize};
use crate::instructions::transfer_authority::{transfer_authority_outcome, TransferAuthority};
use crate::instructions::update_minter::{update_minter_outcome, UpdateMinter, UpdateMinterBumps};
use crate::instructions::update_roles::{update_roles_outcome, UpdateRoles};
use crate::instructions::update_supply_cap::{
    effective_cap, update_supply_cap_outcome, UpdateSupplyCap,
};
use crate::state::minter_info::{minted_so_far, quota_respected};
use crate::state::role::granted;
use crate::state::supply_cap::lemma_wire_holds_the_cap;
use crate::state::{MinterInfo, RoleAccount, StablecoinState, SupplyCap};

verus! {

/// The records that mints read and write: the registry, the account handed in as its
/// supply cap, and the role and quota slots of every identity.
pub struct MintDesk {
    pub stablecoin_key: Identity,
    pub stablecoin: StablecoinState,
    pub supply_cap: RawAccount,
    pub roles: Map<Identity, RoleAccount>,
    pub quotas: Map<Identity, MinterInfo>,
}

/// One call of a mint: who calls, for which recipient, and how much.
pub struct MintCall {
    pub minter: Identity,
    pub recipient: Identity,
    pub amount: u64,
}

/// The slot of `key`: its record, if it has one.
pub open spec fn slot_of<V>(records: Map<Identity, V>, key: Identity) -> Option<V> {
    if records.dom().contains(key) {
        Some(records[key])
    } else {
        None
    }
}

impl MintDesk {
    /// The accounts that the host hands to a mint for the given call.
    pub open spec fn accounts_for(self, call: MintCall) -> MintTokens {
        MintTokens {
            minter: call.minter,
            stablecoin_key: self.stablecoin_key,
            stablecoin: self.stablecoin,
            role: slot_of(self.roles, call.minter),
            minter_info: slot_of(self.quotas, call.minter),
            recipient_token_account: call.recipient,
            supply_cap: self.supply_cap,
        }
    }

    /// The records after one call. A refused mint changes nothing; an accepted one writes
    /// the registry and the quota slot of the caller back.
    pub open spec fn after(self, call: MintCall) -> MintDesk {
        match mint_outcome(
            self.accounts_for(call),
            call.amount,
            is_supply_cap_record(self.supply_cap, self.stablecoin_key),
        ) {
            Ok(accounts) => MintDesk {
                stablecoin: accounts.stablecoin,
                quotas: self.quotas.insert(call.minter, accounts.minter_info.unwrap()),
                ..self
            },
            Err(_) => self,
        }
    }

    /// The records after the calls, one after another.
    pub open spec fn after_all(self, calls: Seq<MintCall>) -> MintDesk
        decreases calls.len(),
    {
        if calls.len() == 0 {
            self
        } else {
            self.after_all(calls.drop_last()).after(calls.last())
        }
    }

    /// No minter has minted more than its quota, and the registry has minted no more than
    /// the ceiling that its supply cap account sets, if it sets one.
    pub open spec fn sound(self) -> bool {
        &&& forall|minter: Identity| #[trigger]
            self.quotas.dom().contains(minter) ==> self.quotas[minter].wf()
        &&& supply_cap_reading(
            self.supply_cap,
            is_supply_cap_record(self.supply_cap, self.stablecoin_key),
        ) matches Ok(Some(ceiling)) ==> self.stablecoin.total_minted <= ceiling
    }
}

/// Whether the registry of a mint has minted no more than the ceiling that its supply cap
/// account sets, if it sets one.
pub open spec fn within_supply_cap(ctx: MintTokens, cap_recognised: bool) -> bool {
    supply_cap_reading(ctx.supply_cap, cap_recognised) matches Ok(Some(ceiling))
        ==> ctx.stablecoin.total_minted <= ceiling
}

/// An accepted mint leaves the minter within the quota and the registry within the supply
/// cap, whatever was there before, and adds the amount to what the minter and the registry
/// have minted.
pub proof fn lemma_mint_keeps_quota_and_cap(ctx: MintTokens, amount: u64, cap_recognised: bool)
    ensures
        mint_outcome(ctx, amount, cap_recognised) matches Ok(after) ==> {
            &&& quota_respected(after.minter_info)
            &&& within_supply_cap(after, cap_recognised)
            &&& after.supply_cap == ctx.supply_cap
            &&& after.stablecoin.total_minted == ctx.stablecoin.total_minted + amount
            &&& minted_so_far(after.minter_info) == minted_so_far(ctx.minter_info) + amount
        },
{
}

/// Whoever mints, in whatever order and whatever amounts: no minter ever has minted more
/// than its quota, and a registry with a supply cap never has minted more than the cap.
pub proof fn lemma_mints_keep_quota_and_cap(desk: MintDesk, calls: Seq<MintCall>)
    requires
        desk.sound(),
    ensures
        desk.after_all(calls).sound(),
        desk.after_all(calls).supply_cap == desk.supply_cap,
        desk.after_all(calls).stablecoin_key == desk.stablecoin_key,
        desk.after_all(calls).stablecoin.total_minted >= desk.stablecoin.total_minted,
    decreases calls.len(),
{
    if calls.len() > 0 {
        lemma_mints_keep_quota_and_cap(desk, calls.drop_last());
        let before = desk.after_all(calls.drop_last());
        let call = calls.last();
        lemma_mint_keeps_quota_and_cap(
            before.accounts_for(call),
            call.amount,
            is_supply_cap_record(before.supply_cap, before.stablecoin_key),
        );
    }
}

/// A quota below what the minter has already minted is refused, and an accepted quota
/// leaves the minter within it, with what was minted unchanged.
pub proof fn lemma_quota_never_below_minted(ctx: UpdateMinter, quota: u64, bumps: UpdateMinterBumps)
    ensures
        quota < minted_so_far(ctx.minter_info) ==> update_minter_outcome(ctx, quota, bumps) is Err,
        quota < minted_so_far(ctx.minter_info) && ctx.authority == ctx.stablecoin.authority
            ==> update_minter_outcome(ctx, quota, bumps) == Err::<UpdateMinter, StablecoinError>(
            StablecoinError::QuotaExceeded,
        ),
        update_minter_outcome(ctx, quota, bumps) matches Ok(after) ==> {
            &&& quota_respected(after.minter_info)
            &&& minted_so_far(after.minter_info) == minted_so_far(ctx.minter_info)
            &&& after.minter_info.unwrap().quota == quota
        },
{
}

/// A supply cap that was accepted is not below what the registry has minted, so that the
/// registry starts out within it.
pub proof fn lemma_accepted_cap_covers_minted(ctx: UpdateSupplyCap, cap: u64)
    ensures
        update_supply_cap_outcome(ctx, cap) matches Ok(after) ==> {
            &&& after.supply_cap.unwrap().cap == effective_cap(cap)
            &&& after.supply_cap.unwrap().limit() matches Some(ceiling)
                ==> ctx.stablecoin.total_minted <= ceiling
            &&& after.stablecoin == ctx.stablecoin
        },
        cap != 0 && cap < ctx.stablecoin.total_minted ==> update_supply_cap_outcome(ctx, cap) is Err,
{
}

/// The cap that the authority has set is the ceiling that a mint reads: an account that is
/// recognised as the registry's supply cap record, is owned by the program and holds the
/// bytes of the record sets the record's cap as ceiling, or none where the record stands
/// for "no cap".
pub proof fn lemma_stored_cap_is_the_ceiling(account: RawAccount, record: SupplyCap)
    requires
        account.key != spec_program_id(),
        account.owner == spec_program_id(),
        account.data@ == record.wire(),
    ensures
        supply_cap_reading(account, true) == Ok::<Option<u64>, StablecoinError>(record.limit()),
        supply_cap_reading(account, false) == Ok::<Option<u64>, StablecoinError>(None),
{
    lemma_wire_holds_the_cap(record);
}

/// Once a pause went through, every mint and every burn of a positive amount on that
/// registry is refused with `Paused`, whoever calls.
pub proof fn lemma_pause_stops_mint_and_burn(
    pause: PauseUnpause,
    mint: MintTokens,
    burn: BurnTokens,
    amount: u64,
    cap_recognised: bool,
)
    requires
        pause_outcome(pause) is Ok,
        mint.stablecoin == pause_outcome(pause).unwrap().stablecoin,
        burn.stablecoin == pause_outcome(pause).unwrap().stablecoin,
        amount > 0,
    ensures
        mint_outcome(mint, amount, cap_recognised) == Err::<MintTokens, StablecoinError>(
            StablecoinError::Paused,
        ),
        burn_outcome(burn, amount) == Err::<BurnTokens, StablecoinError>(StablecoinError::Paused),
{
}

/// An unpause by the pauser who paused goes through and leaves the registry as it was
/// before the pause, but running: what was allowed before the pause is allowed again.
pub proof fn lemma_unpause_restores(pause: PauseUnpause)
    requires
        pause_outcome(pause) is Ok,
    ensures
        unpause_outcome(pause_outcome(pause).unwrap()) is Ok,
        unpause_outcome(pause_outcome(pause).unwrap()).unwrap().stablecoin == (StablecoinState {
            paused: false,
            ..pause.stablecoin
        }),
        !pause.stablecoin.paused ==> unpause_outcome(pause_outcome(pause).unwrap())
            == Ok::<PauseUnpause, StablecoinError>(pause),
{
}

/// On a running registry neither a mint nor a burn is refused with `Paused`.
pub proof fn lemma_running_registry_is_not_paused(
    mint: MintTokens,
    burn: BurnTokens,
    amount: u64,
    cap_recognised: bool,
)
    requires
        !mint.stablecoin.paused,
        !burn.stablecoin.paused,
    ensures
        mint_outcome(mint, amount, cap_recognised) != Err::<MintTokens, StablecoinError>(
            StablecoinError::Paused,
        ),
        burn_outcome(burn, amount) != Err::<BurnTokens, StablecoinError>(StablecoinError::Paused),
{
}

/// Outside compliance mode nobody can blacklist, unblock or seize: the refusal is
/// `ComplianceNotEnabled`, whatever the caller's roles.
pub proof fn lemma_compliance_mode_is_required(
    add: AddToBlacklist,
    reason: String,
    bumps: AddToBlacklistBumps,
    now: i64,
    remove: RemoveFromBlacklist,
    seize: Seize,
    metas_recognised: bool,
    balance: Option<u64>,
)
    requires
        !add.stablecoin.is_sss2(),
        !remove.stablecoin.is_sss2(),
        !seize.stablecoin.is_sss2(),
    ensures
        add_to_blacklist_outcome(add, reason, bumps, now) == Err::<AddToBlacklist, StablecoinError>(
            StablecoinError::ComplianceNotEnabled,
        ),
        remove_from_blacklist_outcome(remove) == Err::<RemoveFromBlacklist, StablecoinError>(
            StablecoinError::ComplianceNotEnabled,
        ),
        seize_outcome(seize, metas_recognised, balance) == Err::<
            crate::ledger::LedgerAction,
            Option<StablecoinError>,
        >(Some(StablecoinError::ComplianceNotEnabled)),
{
}

/// After an address was blacklisted, blacklisting it again on the same accounts is refused
/// with `AlreadyBlacklisted`, whatever the reason given, as long as the reason is short
/// enough to be looked at.
pub proof fn lemma_second_blacklisting_is_refused(
    ctx: AddToBlacklist,
    reason: String,
    bumps: AddToBlacklistBumps,
    now: i64,
    again: String,
    later_bumps: AddToBlacklistBumps,
    later: i64,
)
    requires
        add_to_blacklist_outcome(ctx, reason, bumps, now) is Ok,
        encode_utf8(again@).len() <= MAX_REASON_LEN,
    ensures
        add_to_blacklist_outcome(
            add_to_blacklist_outcome(ctx, reason, bumps, now).unwrap(),
            again,
            later_bumps,
            later,
        ) == Err::<AddToBlacklist, StablecoinError>(StablecoinError::AlreadyBlacklisted),
{
}

/// A blacklister who asks to unblock an address that has no entry is refused with
/// `NotBlacklisted`; one who asks to unblock an address that has an entry empties the slot,
/// after which the address can be blacklisted anew.
pub proof fn lemma_unblocking_needs_an_entry(ctx: RemoveFromBlacklist)
    requires
        authorization(Operation::RemoveFromBlacklist, ctx.role, ctx.stablecoin) is Ok,
    ensures
        ctx.blacklist_entry is None ==> remove_from_blacklist_outcome(ctx) == Err::<
            RemoveFromBlacklist,
            StablecoinError,
        >(StablecoinError::NotBlacklisted),
        ctx.blacklist_entry is Some ==> remove_from_blacklist_outcome(ctx) is Ok
            && remove_from_blacklist_outcome(ctx).unwrap().blacklist_entry is None,
{
}

/// A caller whose role slot is empty, or whose record lacks the capability, is refused
/// every operation that the capability gates. The refusal is `Unauthorized` wherever the
/// registry itself does not already refuse the operation (a paused registry refuses mints
/// and burns, one outside compliance mode refuses blacklisting and seizing).
pub proof fn lemma_missing_capability_is_refused(
    op: Operation,
    role: Option<RoleAccount>,
    registry: StablecoinState,
)
    requires
        role is None || !op.permitted_by(role.unwrap().roles),
    ensures
        authorization(op, role, registry) is Err,
        !(op.needs_compliance() && !registry.is_sss2()) && !(op.stopped_by_pause()
            && registry.paused) ==> authorization(op, role, registry) == Err::<
            (),
            StablecoinError,
        >(StablecoinError::Unauthorized),
{
}

/// Each operation on accounts whose caller lacks the capability is refused with
/// `Unauthorized`, once the checks that come before the role are passed: a positive amount
/// and a running registry for mints and burns, compliance mode for blacklisting and
/// seizing.
pub proof fn lemma_operations_refuse_without_role(
    mint: MintTokens,
    burn: BurnTokens,
    freeze: FreezeTokenAccount,
    thaw: ThawTokenAccount,
    pause: PauseUnpause,
    add: AddToBlacklist,
    remove: RemoveFromBlacklist,
    seize: Seize,
    amount: u64,
    cap_recognised: bool,
    reason: String,
    bumps: AddToBlacklistBumps,
    now: i64,
    metas_recognised: bool,
    balance: Option<u64>,
)
    requires
        amount > 0,
    ensures
        !mint.stablecoin.paused && !granted(mint.role).is_minter ==> mint_outcome(
            mint,
            amount,
            cap_recognised,
        ) == Err::<MintTokens, StablecoinError>(StablecoinError::Unauthorized),
        !burn.stablecoin.paused && !granted(burn.role).is_burner ==> burn_outcome(burn, amount)
            == Err::<BurnTokens, StablecoinError>(StablecoinError::Unauthorized),
        !granted(freeze.role).is_pauser && !granted(freeze.role).is_freezer ==> freeze_outcome(
            freeze,
        ) == Err::<crate::ledger::LedgerAction, StablecoinError>(StablecoinError::Unauthorized),
        !granted(thaw.role).is_pauser && !granted(thaw.role).is_freezer ==> thaw_outcome(thaw)
            == Err::<crate::ledger::LedgerAction, StablecoinError>(StablecoinError::Unauthorized),
        !granted(pause.role).is_pauser ==> pause_outcome(pause) == Err::<
            PauseUnpause,
            StablecoinError,
        >(StablecoinError::Unauthorized) && unpause_outcome(pause) == Err::<
            PauseUnpause,
            StablecoinError,
        >(StablecoinError::Unauthorized),
        add.stablecoin.is_sss2() && !granted(add.role).is_blacklister ==> add_to_blacklist_outcome(
            add,
            reason,
            bumps,
            now,
        ) == Err::<AddToBlacklist, StablecoinError>(StablecoinError::Unauthorized),
        remove.stablecoin.is_sss2() && !granted(remove.role).is_blacklister
            ==> remove_from_blacklist_outcome(remove) == Err::<
            RemoveFromBlacklist,
            StablecoinError,
        >(StablecoinError::Unauthorized),
        seize.stablecoin.is_sss2() && !granted(seize.role).is_seizer ==> seize_outcome(
            seize,
            metas_recognised,
            balance,
        ) == Err::<crate::ledger::LedgerAction, Option<StablecoinError>>(
            Some(StablecoinError::Unauthorized),
        ),
{
}

/// Once the authority has granted a capability, the holder's role slot passes the
/// authorization of every operation that the capability gates, on every registry that does
/// not itself refuse the operation.
pub proof fn lemma_granted_capability_is_honoured(
    grant: UpdateRoles,
    roles: RoleFlags,
    op: Operation,
    registry: StablecoinState,
)
    requires
        update_roles_outcome(grant, roles) is Ok,
        op.permitted_by(roles),
        !(op.needs_compliance() && !registry.is_sss2()),
        !(op.stopped_by_pause() && registry.paused),
    ensures
        authorization(op, update_roles_outcome(grant, roles).unwrap().role, registry) is Ok,
        granted(update_roles_outcome(grant, roles).unwrap().role) == roles,
{
}

/// A pause, an unpause, a freeze or a thaw that was refused with `Unauthorized` succeeds on
/// the same accounts once the role slot holds a record of a pauser.
pub proof fn lemma_retry_as_pauser_succeeds(
    pause: PauseUnpause,
    freeze: FreezeTokenAccount,
    thaw: ThawTokenAccount,
    record: RoleAccount,
)
    requires
        record.roles.is_pauser,
    ensures
        pause_outcome(PauseUnpause { role: Some(record), ..pause }) is Ok,
        unpause_outcome(PauseUnpause { role: Some(record), ..pause }) is Ok,
        freeze_outcome(FreezeTokenAccount { role: Some(record), ..freeze }) is Ok,
        thaw_outcome(ThawTokenAccount { role: Some(record), ..thaw }) is Ok,
{
}

/// A burn that was refused with `Unauthorized` succeeds on the same accounts once the role
/// slot holds a record of a burner, unless the counter would overflow. A mint that was
/// refused with `Unauthorized` succeeds once the slot holds a record of a minter, if the
/// quota and the supply cap have room for the amount.
pub proof fn lemma_retry_with_role_succeeds(
    burn: BurnTokens,
    mint: MintTokens,
    amount: u64,
    cap_recognised: bool,
    record: RoleAccount,
)
    requires
        burn_outcome(burn, amount) == Err::<BurnTokens, StablecoinError>(
            StablecoinError::Unauthorized,
        ),
        mint_outcome(mint, amount, cap_recognised) == Err::<MintTokens, StablecoinError>(
            StablecoinError::Unauthorized,
        ),
        !granted(mint.role).is_minter,
        record.roles.is_burner,
        record.roles.is_minter,
    ensures
        burn.stablecoin.total_burned + amount <= u64::MAX ==> burn_outcome(
            BurnTokens { role: Some(record), ..burn },
            amount,
        ) is Ok,
        mint_fits(mint, amount, cap_recognised) ==> mint_outcome(
            MintTokens { role: Some(record), ..mint },
            amount,
            cap_recognised,
        ) is Ok,
{
}

/// The authority can be handed neither to the null identity, which is refused with
/// `Unauthorized`, nor to the identity that holds it, which is refused with
/// `InvalidRoleConfig`.
pub proof fn lemma_authority_handoff_refusals(ctx: TransferAuthority)
    requires
        ctx.authority == ctx.stablecoin.authority,
    ensures
        ctx.new_authority.is_null() ==> transfer_authority_outcome(ctx) == Err::<
            TransferAuthority,
            StablecoinError,
        >(StablecoinError::Unauthorized),
        !ctx.new_authority.is_null() && ctx.new_authority == ctx.stablecoin.authority
            ==> transfer_authority_outcome(ctx) == Err::<TransferAuthority, StablecoinError>(
            StablecoinError::InvalidRoleConfig,
        ),
        !ctx.new_authority.is_null() && ctx.new_authority != ctx.stablecoin.authority
            ==> transfer_authority_outcome(ctx) is Ok,
{
}

/// After a handoff the registry has the new authority, and the old one is refused what only
/// the authority may do: setting roles, quotas and caps, and handing the authority on.
pub proof fn lemma_handoff_moves_authority(
    ctx: TransferAuthority,
    roles_update: UpdateRoles,
    roles: RoleFlags,
    quota_update: UpdateMinter,
    quota: u64,
    bumps: UpdateMinterBumps,
    cap_update: UpdateSupplyCap,
    cap: u64,
    next: TransferAuthority,
)
    requires
        transfer_authority_outcome(ctx) is Ok,
        roles_update.stablecoin == transfer_authority_outcome(ctx).unwrap().stablecoin,
        quota_update.stablecoin == transfer_authority_outcome(ctx).unwrap().stablecoin,
        cap_update.stablecoin == transfer_authority_outcome(ctx).unwrap().stablecoin,
        next.stablecoin == transfer_authority_outcome(ctx).unwrap().stablecoin,
        roles_update.authority == ctx.authority,
        quota_update.authority == ctx.authority,
        cap_update.authority == ctx.authority,
        next.authority == ctx.authority,
    ensures
        transfer_authority_outcome(ctx).unwrap().stablecoin.authority == ctx.new_authority,
        authority_check(ctx.new_authority, transfer_authority_outcome(ctx).unwrap().stablecoin)
            is Ok,
        update_roles_outcome(roles_update, roles) == Err::<UpdateRoles, StablecoinError>(
            StablecoinError::Unauthorized,
        ),
        update_minter_outcome(quota_update, quota, bumps) == Err::<UpdateMinter, StablecoinError>(
            StablecoinError::Unauthorized,
        ),
        update_supply_cap_outcome(cap_update, cap) == Err::<UpdateSupplyCap, StablecoinError>(
            StablecoinError::Unauthorized,
        ),
        transfer_authority_outcome(next) == Err::<TransferAuthority, StablecoinError>(
            StablecoinError::Unauthorized,
        ),
{
}

/// A handoff takes no role away: every role slot gets the verdict after the handoff that it
/// got before, for every operation that a role gates.
pub proof fn lemma_handoff_keeps_roles(ctx: TransferAuthority, op: Operation, role: Option<RoleAccount>)
    requires
        transfer_authority_outcome(ctx) is Ok,
    ensures
        authorization(op, role, transfer_authority_outcome(ctx).unwrap().stablecoin)
            == authorization(op, role, ctx.stablecoin),
{
}

/// No operation touches what is fixed at creation, counters only grow, and a registry
/// within its bounds stays within them.
pub proof fn lemma_registry_only_evolves(
    mint: MintTokens,
    burn: BurnTokens,
    pause: PauseUnpause,
    handoff: TransferAuthority,
    amount: u64,
    cap_recognised: bool,
)
    ensures
        mint_outcome(mint, amount, cap_recognised) matches Ok(after)
            ==> after.stablecoin.evolves_from(&mint.stablecoin) && (mint.stablecoin.wf()
            ==> after.stablecoin.wf()),
        burn_outcome(burn, amount) matches Ok(after) ==> after.stablecoin.evolves_from(
            &burn.stablecoin,
        ) && (burn.stablecoin.wf() ==> after.stablecoin.wf()),
        pause_outcome(pause) matches Ok(after) ==> after.stablecoin.evolves_from(&pause.stablecoin)
            && (pause.stablecoin.wf() ==> after.stablecoin.wf()),
        unpause_outcome(pause) matches Ok(after) ==> after.stablecoin.evolves_from(
            &pause.stablecoin,
        ) && (pause.stablecoin.wf() ==> after.stablecoin.wf()),
        transfer_authority_outcome(handoff) matches Ok(after) ==> after.stablecoin.evolves_from(
            &handoff.stablecoin,
        ) && (handoff.stablecoin.wf() ==> after.stablecoin.wf()),
{
}

} // verus!
