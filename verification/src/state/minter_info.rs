//! Minter quota records.

use vstd::prelude::*;
use crate::identity::Identity;

verus! {

/// The quota of `minter` in the registry `stablecoin`, and how much of it is used.
#[derive(Clone, Copy, Debug, PartialEq, Eq)]
pub struct MinterInfo {
    pub stablecoin: Identity,
    pub minter: Identity,
    /// The most that this minter may ever mint.
    pub quota: u64,
    /// What this minter has minted so far.
    pub minted_amount: u64,
    pub bump: u8,
}

impl MinterInfo {
    /// Number of bytes that a quota record takes on the wire.
    pub const LEN: usize = 8 + 32 + 32 + 8 + 8 + 1;

    /// A minter never has minted more than its quota.
    pub open spec fn wf(&self) -> bool {
        self.minted_amount <= self.quota
    }
}

/// What the minter of a quota slot has minted so far: nothing where the slot is empty.
pub open spec fn minted_so_far(slot: Option<MinterInfo>) -> u64 {
    match slot {
        Some(record) => record.minted_amount,
        None => 0,
    }
}

/// The quota of a slot: zero where the slot is empty.
pub open spec fn quota_of(slot: Option<MinterInfo>) -> u64 {
    match slot {
        Some(record) => record.quota,
        None => 0,
    }
}

/// Whether the slot respects the quota invariant.
pub open spec fn quota_respected(slot: Option<MinterInfo>) -> bool {
    minted_so_far(slot) <= quota_of(slot)
}

} // verus!
