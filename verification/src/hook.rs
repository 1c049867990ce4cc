//! The transfer hook: the verdict on a transfer, reached from raw account bytes alone.

use vstd::prelude::*;
use crate::account::RawAccount;
use crate::error::HookError;
use crate::host::{execute_discriminator, execute_discriminator_bytes};
use crate::identity::Identity;
use crate::state::{BlacklistEntry, StablecoinState};
use crate::wire::{lemma_u32_le_round_trip, read_u32_le, string_wire, u32_le, u64_le_bytes};
use vstd::utf8::encode_utf8;

verus! {

/// Length of what precedes the strings in a registry record: the discriminator and two
/// identities.
pub const REGISTRY_PREFIX_LEN: u64 = 72;

/// Position of the registry among the accounts of a transfer.
pub const REGISTRY_INDEX: usize = 6;

/// Position of the source's blacklist slot among the accounts of a transfer.
pub const SOURCE_BLACKLIST_INDEX: usize = 7;

/// Position of the destination's blacklist slot among the accounts of a transfer.
pub const DESTINATION_BLACKLIST_INDEX: usize = 8;

/// Where the length-prefixed string that starts at `at` ends, going by its length prefix
/// alone: `None` where `data` is too short to hold the prefix. The end may lie beyond the
/// data.
pub open spec fn string_end(data: Seq<u8>, at: int) -> Option<int> {
    if data.len() < at + 4 {
        None
    } else {
        Some(at + 4 + u32_le(data.subrange(at, at + 4)))
    }
}

/// Where the `paused` byte of a registry record stands: after the prefix, three strings and
/// four one-byte fields. `None` where the record ends before the length prefix of one of
/// the strings.
pub open spec fn paused_offset(data: Seq<u8>) -> Option<int> {
    match string_end(data, REGISTRY_PREFIX_LEN as int) {
        None => None,
        Some(after_name) => match string_end(data, after_name) {
            None => None,
            Some(after_symbol) => match string_end(data, after_symbol) {
                None => None,
                Some(after_uri) => Some(after_uri + 4),
            },
        },
    }
}

/// The `paused` flag of a registry record: set where the byte at its place is not zero. A
/// record that is too short to have that byte counts as not paused.
pub open spec fn paused_flag(data: Seq<u8>) -> bool {
    match paused_offset(data) {
        None => false,
        Some(at) => at < data.len() && data[at] != 0,
    }
}

/// The verdict on a transfer. The instruction must start with the discriminator of a
/// transfer execution. Then the registry, where it is among the accounts, must not be
/// paused, and neither blacklist slot, where it is among the accounts, may hold anything.
pub open spec fn hook_verdict(accounts: Seq<RawAccount>, data: Seq<u8>) -> Result<(), HookError> {
    if data.len() < 8 || data.subrange(0, 8) != execute_discriminator_bytes() {
        Err(HookError::InvalidInstruction)
    } else if accounts.len() > REGISTRY_INDEX && paused_flag(accounts[REGISTRY_INDEX as int].data@) {
        Err(HookError::Paused)
    } else if accounts.len() > SOURCE_BLACKLIST_INDEX
        && accounts[SOURCE_BLACKLIST_INDEX as int].is_present() {
        Err(HookError::Blacklisted)
    } else if accounts.len() > DESTINATION_BLACKLIST_INDEX
        && accounts[DESTINATION_BLACKLIST_INDEX as int].is_present() {
        Err(HookError::Blacklisted)
    } else {
        Ok(())
    }
}

/// Skips the length-prefixed string that starts at `at`.
fn skip_string(data: &[u8], at: u64) -> (end: Option<u64>)
    requires
        at <= 0x4_0000_0000,
    ensures
        match end {
            Some(e) => string_end(data@, at as int) == Some(e as int),
            None => string_end(data@, at as int) is None,
        },
{
    let len: u64 = data.len() as u64;
    if len < at + 4 {
        return None;
    }
    let start: usize = at as usize;
    let str_len: u64 = read_u32_le(data, start) as u64;
    Some(at + 4 + str_len)
}

/// Reads the `paused` flag out of a serialized registry by walking its layout. Truncated
/// and malformed records count as not paused.
pub fn read_paused_flag(data: &[u8]) -> (paused: bool)
    ensures
        paused == paused_flag(data@),
{
    let after_name: u64 = match skip_string(data, REGISTRY_PREFIX_LEN) {
        None => {
            return false;
        },
        Some(end) => end,
    };
    let after_symbol: u64 = match skip_string(data, after_name) {
        None => {
            return false;
        },
        Some(end) => end,
    };
    let after_uri: u64 = match skip_string(data, after_symbol) {
        None => {
            return false;
        },
        Some(end) => end,
    };
    let at: u64 = after_uri + 4;
    let len: u64 = data.len() as u64;
    if len <= at {
        return false;
    }
    data[at as usize] != 0
}

/// Whether `data` starts with the discriminator of a transfer execution.
pub fn is_execute_instruction(data: &[u8]) -> (execute: bool)
    ensures
        execute == (data@.len() >= 8 && data@.subrange(0, 8) == execute_discriminator_bytes()),
{
    if data.len() < 8 {
        return false;
    }
    let expected = execute_discriminator();
    let mut i: usize = 0;
    while i < 8
        invariant
            i <= 8,
            data@.len() >= 8,
            expected@ == execute_discriminator_bytes(),
            forall|j: int| 0 <= j < i ==> data@[j] == expected@[j],
        decreases 8 - i,
    {
        if data[i] != expected[i] {
            assert(data@.subrange(0, 8)[i as int] != execute_discriminator_bytes()[i as int]);
            return false;
        }
        i += 1;
    }
    assert(data@.subrange(0, 8) =~= execute_discriminator_bytes());
    true
}

/// Decides whether a transfer may go on. The token program calls this on every transfer,
/// with the accounts in a fixed order; the registry and the blacklist slots may be missing
/// at the end of the list, and what is missing blocks nothing.
pub fn fallback(_program_id: &Identity, accounts: &[RawAccount], data: &[u8]) -> (verdict: Result<
    (),
    HookError,
>)
    ensures
        verdict == hook_verdict(accounts@, data@),
{
    if !is_execute_instruction(data) {
        return Err(HookError::InvalidInstruction);
    }
    if accounts.len() > REGISTRY_INDEX {
        if read_paused_flag(accounts[REGISTRY_INDEX].data.as_slice()) {
            return Err(HookError::Paused);
        }
    }
    if accounts.len() > SOURCE_BLACKLIST_INDEX {
        if accounts[SOURCE_BLACKLIST_INDEX].is_present() {
            return Err(HookError::Blacklisted);
        }
    }
    if accounts.len() > DESTINATION_BLACKLIST_INDEX {
        if accounts[DESTINATION_BLACKLIST_INDEX].is_present() {
            return Err(HookError::Blacklisted);
        }
    }
    Ok(())
}

/// A string that stands on the wire after `before` ends where its bytes end.
proof fn lemma_string_end(before: Seq<u8>, s: Seq<char>, after: Seq<u8>)
    requires
        encode_utf8(s).len() <= u32::MAX,
    ensures
        string_end(before + string_wire(s) + after, before.len() as int) == Some(
            (before + string_wire(s)).len() as int,
        ),
{
    let n = encode_utf8(s).len() as u32;
    let data = before + string_wire(s) + after;
    lemma_u32_le_round_trip(n);
    let at = before.len() as int;
    assert(data.subrange(at, at + 4) =~= crate::wire::u32_le_bytes(n));
}

/// The hook and the registry agree on the layout: from the bytes that a registry takes on
/// the wire, the hook reads that registry's `paused` flag.
pub proof fn lemma_hook_reads_registry_pause(registry: StablecoinState)
    requires
        registry.encodable(),
    ensures
        paused_flag(registry.wire()) == registry.paused,
{
    let data = registry.wire();
    let head = StablecoinState::DISCRIMINATOR@ + registry.authority@ + registry.mint@;
    let name = string_wire(registry.name@);
    let symbol = string_wire(registry.symbol@);
    let uri = string_wire(registry.uri@);
    let tail = u64_le_bytes(registry.total_minted) + u64_le_bytes(registry.total_burned)
        + seq![registry.bump];
    let flags = registry.flags_wire();
    assert(head.len() == REGISTRY_PREFIX_LEN);
    assert(data =~= head + name + (symbol + uri + flags + tail));
    lemma_string_end(head, registry.name@, symbol + uri + flags + tail);
    assert(data =~= (head + name) + symbol + (uri + flags + tail));
    lemma_string_end(head + name, registry.symbol@, uri + flags + tail);
    assert(data =~= (head + name + symbol) + uri + (flags + tail));
    lemma_string_end(head + name + symbol, registry.uri@, flags + tail);
    let at = (head + name + symbol + uri).len() + 4;
    assert(paused_offset(data) == Some(at as int));
    assert(data[at as int] == flags[4]);
}

/// The hook sees every blacklist entry: an account that holds the bytes of an entry holds
/// something, whatever the entry says.
pub proof fn lemma_hook_sees_blacklist_entries(account: RawAccount, entry: BlacklistEntry)
    requires
        account.data@ == entry.wire(),
    ensures
        account.is_present(),
{
    assert(entry.wire().len() >= BlacklistEntry::DISCRIMINATOR@.len());
}

/// A transfer that comes with the bytes of a paused registry is refused with `Paused`; one
/// that comes with the bytes of a running registry is allowed as long as neither blacklist
/// slot holds anything.
pub proof fn lemma_hook_follows_the_registry(
    accounts: Seq<RawAccount>,
    data: Seq<u8>,
    registry: StablecoinState,
)
    requires
        registry.encodable(),
        data.len() >= 8,
        data.subrange(0, 8) == execute_discriminator_bytes(),
        accounts.len() > REGISTRY_INDEX,
        accounts[REGISTRY_INDEX as int].data@ == registry.wire(),
    ensures
        registry.paused ==> hook_verdict(accounts, data) == Err::<(), HookError>(HookError::Paused),
        !registry.paused && (accounts.len() > SOURCE_BLACKLIST_INDEX
            ==> !accounts[SOURCE_BLACKLIST_INDEX as int].is_present()) && (accounts.len()
            > DESTINATION_BLACKLIST_INDEX
            ==> !accounts[DESTINATION_BLACKLIST_INDEX as int].is_present()) ==> hook_verdict(
            accounts,
            data,
        ) is Ok,
        !registry.paused && ((accounts.len() > SOURCE_BLACKLIST_INDEX
            && accounts[SOURCE_BLACKLIST_INDEX as int].is_present()) || (accounts.len()
            > DESTINATION_BLACKLIST_INDEX
            && accounts[DESTINATION_BLACKLIST_INDEX as int].is_present())) ==> hook_verdict(
            accounts,
            data,
        ) == Err::<(), HookError>(HookError::Blacklisted),
{
    lemma_hook_reads_registry_pause(registry);
}

} // verus!
