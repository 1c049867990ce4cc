//! The supply cap record.

use vstd::prelude::*;
use crate::constants::{MIN_SUPPLY_CAP_DATA_LEN, SUPPLY_CAP_VALUE_OFFSET, UNCAPPED};
use crate::wire::{push_all, push_u64_le, read_u64_le, u64_le, u64_le_bytes};

verus! {

/// The ceiling on a registry's `total_minted`. The largest 64-bit number stands for "no cap".
#[derive(Clone, Copy, Debug, PartialEq, Eq, Structural)]
pub struct SupplyCap {
    pub cap: u64,
    pub bump: u8,
}

impl SupplyCap {
    /// The eight bytes that start a supply cap record on the wire.
    pub const DISCRIMINATOR: [u8; 8] = [120, 76, 77, 82, 129, 14, 220, 207];

    /// Number of bytes that a supply cap record takes on the wire.
    pub const LEN: usize = 8 + 8 + 1;

    /// The ceiling that the record sets, if it sets one.
    pub open spec fn limit(&self) -> Option<u64> {
        if self.cap == UNCAPPED {
            None
        } else {
            Some(self.cap)
        }
    }

    /// The record on the wire.
    pub open spec fn wire(&self) -> Seq<u8> {
        SupplyCap::DISCRIMINATOR@ + u64_le_bytes(self.cap) + seq![self.bump]
    }

    /// The cap that a serialized record holds: the eight bytes after the discriminator, if
    /// the record is long enough to have them.
    pub open spec fn stored_cap(data: Seq<u8>) -> Option<u64> {
        if data.len() >= MIN_SUPPLY_CAP_DATA_LEN {
            Some(u64_le(data.subrange(8, 16)) as u64)
        } else {
            None
        }
    }

    /// Writes the record as it stands on the wire.
    pub fn to_bytes(&self) -> (out: Vec<u8>)
        ensures
            out@ == self.wire(),
            out@.len() == SupplyCap::LEN,
            SupplyCap::stored_cap(out@) == Some(self.cap),
    {
        let mut out: Vec<u8> = Vec::new();
        push_all(&mut out, SupplyCap::DISCRIMINATOR.as_slice());
        push_u64_le(&mut out, self.cap);
        out.push(self.bump);
        proof {
            assert(out@ =~= self.wire());
            lemma_wire_holds_the_cap(*self);
        }
        out
    }

    /// Reads the cap out of a serialized record without decoding the rest.
    pub fn read_cap(data: &[u8]) -> (cap: Option<u64>)
        ensures
            cap == SupplyCap::stored_cap(data@),
    {
        if data.len() >= MIN_SUPPLY_CAP_DATA_LEN {
            Some(read_u64_le(data, SUPPLY_CAP_VALUE_OFFSET))
        } else {
            None
        }
    }
}

/// The cap that is read out of the bytes of a record is the cap of the record.
pub proof fn lemma_wire_holds_the_cap(record: SupplyCap)
    ensures
        record.wire().len() == SupplyCap::LEN,
        SupplyCap::stored_cap(record.wire()) == Some(record.cap),
{
    crate::wire::lemma_u64_le_round_trip(record.cap);
    assert(record.wire().subrange(8, 16) =~= u64_le_bytes(record.cap));
}

} // verus!
