//! The capabilities that a role record grants.

use vstd::prelude::*;
use crate::wire::bool_wire;

verus! {

/// Six independent capabilities. Any combination is valid and none implies another.
#[derive(Clone, Copy, Debug, PartialEq, Eq, Structural)]
pub struct RoleFlags {
    pub is_minter: bool,
    pub is_burner: bool,
    pub is_pauser: bool,
    pub is_freezer: bool,
    pub is_blacklister: bool,
    pub is_seizer: bool,
}

impl Default for RoleFlags {
    fn default() -> (flags: RoleFlags)
        ensures
            flags == RoleFlags::none(),
    {
        RoleFlags {
            is_minter: false,
            is_burner: false,
            is_pauser: false,
            is_freezer: false,
            is_blacklister: false,
            is_seizer: false,
        }
    }
}

impl RoleFlags {
    /// Number of bytes that the flags take on the wire.
    pub const LEN: usize = 6;

    /// No capability at all.
    pub open spec fn none() -> RoleFlags {
        RoleFlags {
            is_minter: false,
            is_burner: false,
            is_pauser: false,
            is_freezer: false,
            is_blacklister: false,
            is_seizer: false,
        }
    }

    /// Every capability.
    pub open spec fn spec_all() -> RoleFlags {
        RoleFlags {
            is_minter: true,
            is_burner: true,
            is_pauser: true,
            is_freezer: true,
            is_blacklister: true,
            is_seizer: true,
        }
    }

    /// Every capability, as granted to the identity that creates a registry.
    #[verifier::when_used_as_spec(spec_all)]
    pub fn all() -> (flags: RoleFlags)
        ensures
            flags == RoleFlags::spec_all(),
    {
        RoleFlags {
            is_minter: true,
            is_burner: true,
            is_pauser: true,
            is_freezer: true,
            is_blacklister: true,
            is_seizer: true,
        }
    }

    /// The flags on the wire: one byte each, in the order of the fields.
    pub open spec fn wire(self) -> Seq<u8> {
        seq![
            bool_wire(self.is_minter),
            bool_wire(self.is_burner),
            bool_wire(self.is_pauser),
            bool_wire(self.is_freezer),
            bool_wire(self.is_blacklister),
            bool_wire(self.is_seizer),
        ]
    }

    /// The flags that the first six bytes of `bytes` stand for, if there are six and each is
    /// 0 or 1.
    pub open spec fn parse(bytes: Seq<u8>) -> Option<RoleFlags> {
        if bytes.len() >= 6 && (forall|i: int| 0 <= i < 6 ==> bytes[i] <= 1) {
            Some(
                RoleFlags {
                    is_minter: bytes[0] == 1,
                    is_burner: bytes[1] == 1,
                    is_pauser: bytes[2] == 1,
                    is_freezer: bytes[3] == 1,
                    is_blacklister: bytes[4] == 1,
                    is_seizer: bytes[5] == 1,
                },
            )
        } else {
            None
        }
    }

    /// Writes the flags as they stand on the wire.
    pub fn to_bytes(&self) -> (out: Vec<u8>)
        ensures
            out@ == self.wire(),
            out@.len() == RoleFlags::LEN,
            RoleFlags::parse(out@) == Some(*self),
    {
        let mut out: Vec<u8> = Vec::new();
        out.push(if self.is_minter { 1u8 } else { 0u8 });
        out.push(if self.is_burner { 1u8 } else { 0u8 });
        out.push(if self.is_pauser { 1u8 } else { 0u8 });
        out.push(if self.is_freezer { 1u8 } else { 0u8 });
        out.push(if self.is_blacklister { 1u8 } else { 0u8 });
        out.push(if self.is_seizer { 1u8 } else { 0u8 });
        assert(out@ =~= self.wire());
        out
    }

    /// Reads the flags from the start of `bytes`. Bytes after the sixth are ignored.
    pub fn from_bytes(bytes: &[u8]) -> (flags: Option<RoleFlags>)
        ensures
            flags == RoleFlags::parse(bytes@),
    {
        if bytes.len() < 6 {
            return None;
        }
        let mut i: usize = 0;
        while i < 6
            invariant
                i <= 6,
                bytes@.len() >= 6,
                forall|j: int| 0 <= j < i ==> bytes@[j] <= 1,
            decreases 6 - i,
        {
            if bytes[i] > 1 {
                return None;
            }
            i += 1;
        }
        Some(
            RoleFlags {
                is_minter: bytes[0] == 1,
                is_burner: bytes[1] == 1,
                is_pauser: bytes[2] == 1,
                is_freezer: bytes[3] == 1,
                is_blacklister: bytes[4] == 1,
                is_seizer: bytes[5] == 1,
            },
        )
    }
}

/// Reading what was written gives back the flags.
pub proof fn lemma_role_flags_round_trip(flags: RoleFlags)
    ensures
        RoleFlags::parse(flags.wire()) == Some(flags),
{
}

} // verus!
