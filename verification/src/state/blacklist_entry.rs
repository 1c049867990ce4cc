//! Blacklist entries.

use vstd::prelude::*;
use vstd::utf8::encode_utf8;
use crate::constants::MAX_REASON_LEN;
use crate::identity::Identity;
use crate::wire::{i64_le_bytes, push_all, push_i64_le, push_string, string_wire};

verus! {

/// The entry that blocks `address` in the registry `stablecoin`. That the entry exists is
/// what blocks; what it holds is kept for audits only.
#[derive(Clone, Debug, PartialEq, Eq)]
pub struct BlacklistEntry {
    pub stablecoin: Identity,
    pub address: Identity,
    pub reason: String,
    pub blacklisted_at: i64,
    pub blacklisted_by: Identity,
    pub bump: u8,
}

impl BlacklistEntry {
    /// The eight bytes that start a blacklist entry on the wire.
    pub const DISCRIMINATOR: [u8; 8] = [218, 179, 231, 40, 141, 25, 168, 189];

    /// Number of bytes that the longest blacklist entry takes on the wire.
    pub const LEN: usize = 8 + 32 + 32 + (4 + MAX_REASON_LEN) + 8 + 32 + 1;

    /// The bound that every entry respects.
    pub open spec fn wf(&self) -> bool {
        encode_utf8(self.reason@).len() <= MAX_REASON_LEN
    }

    /// The entry on the wire.
    pub open spec fn wire(&self) -> Seq<u8> {
        BlacklistEntry::DISCRIMINATOR@ + self.stablecoin@ + self.address@ + string_wire(
            self.reason@,
        ) + i64_le_bytes(self.blacklisted_at) + self.blacklisted_by@ + seq![self.bump]
    }

    /// Writes the entry as it stands on the wire. An entry within its bound takes no more
    /// room than the longest entry.
    pub fn to_bytes(&self) -> (out: Vec<u8>)
        requires
            encode_utf8(self.reason@).len() <= u32::MAX,
        ensures
            out@ == self.wire(),
            out@.len() > 0,
            self.wf() ==> out@.len() <= BlacklistEntry::LEN,
    {
        let mut out: Vec<u8> = Vec::new();
        push_all(&mut out, BlacklistEntry::DISCRIMINATOR.as_slice());
        push_all(&mut out, self.stablecoin.bytes.as_slice());
        push_all(&mut out, self.address.bytes.as_slice());
        push_string(&mut out, &self.reason);
        push_i64_le(&mut out, self.blacklisted_at);
        push_all(&mut out, self.blacklisted_by.bytes.as_slice());
        out.push(self.bump);
        assert(out@ =~= self.wire());
        out
    }
}

} // verus!
