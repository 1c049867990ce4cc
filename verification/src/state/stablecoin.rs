//! The registry: the root record of one asset.

use vstd::prelude::*;
use vstd::utf8::encode_utf8;
use crate::constants::{MAX_DECIMALS, MAX_NAME_LEN, MAX_SYMBOL_LEN, MAX_URI_LEN};
use crate::identity::Identity;
use crate::wire::{
    bool_wire, push_all, push_bool, push_string, push_u64_le, string_wire, u64_le_bytes,
};

verus! {

/// The registry of one asset. It is created once and never deleted. The three feature flags
/// are fixed at creation; the counters never decrease.
#[derive(Clone, Debug, PartialEq, Eq)]
pub struct StablecoinState {
    /// The identity that may grant roles, set quotas and caps, and hand the authority on.
    pub authority: Identity,
    /// The ledger's handle for the asset.
    pub mint: Identity,
    pub name: String,
    pub symbol: String,
    pub uri: String,
    pub decimals: u8,
    pub enable_permanent_delegate: bool,
    pub enable_transfer_hook: bool,
    pub default_account_frozen: bool,
    pub paused: bool,
    /// Everything ever minted. Burns do not reduce it.
    pub total_minted: u64,
    /// Everything ever burned.
    pub total_burned: u64,
    pub bump: u8,
}

impl StablecoinState {
    /// The eight bytes that start a registry record on the wire.
    pub const DISCRIMINATOR: [u8; 8] = [107, 33, 134, 54, 129, 13, 187, 151];

    /// Compliance mode: the asset has both a permanent delegate and a transfer hook.
    pub open spec fn spec_is_sss2(&self) -> bool {
        self.enable_permanent_delegate && self.enable_transfer_hook
    }

    /// Whether the asset is in compliance mode, which blacklisting and seizing need.
    #[verifier::when_used_as_spec(spec_is_sss2)]
    pub fn is_sss2(&self) -> (compliance: bool)
        ensures
            compliance == self.spec_is_sss2(),
    {
        self.enable_permanent_delegate && self.enable_transfer_hook
    }

    /// The bounds that every registry respects.
    pub open spec fn wf(&self) -> bool {
        &&& encode_utf8(self.name@).len() <= MAX_NAME_LEN
        &&& encode_utf8(self.symbol@).len() <= MAX_SYMBOL_LEN
        &&& encode_utf8(self.uri@).len() <= MAX_URI_LEN
        &&& self.decimals <= MAX_DECIMALS
    }

    /// Whether the registry can be written to the wire: the length of each text fits the
    /// four bytes that hold it. Every registry within its bounds can.
    pub open spec fn encodable(&self) -> bool {
        &&& encode_utf8(self.name@).len() <= u32::MAX
        &&& encode_utf8(self.symbol@).len() <= u32::MAX
        &&& encode_utf8(self.uri@).len() <= u32::MAX
    }

    /// What an operation may change in a registry: the authority, the paused flag, and the
    /// counters, which only grow.
    pub open spec fn evolves_from(&self, before: &StablecoinState) -> bool {
        &&& self.mint == before.mint
        &&& self.name == before.name
        &&& self.symbol == before.symbol
        &&& self.uri == before.uri
        &&& self.decimals == before.decimals
        &&& self.enable_permanent_delegate == before.enable_permanent_delegate
        &&& self.enable_transfer_hook == before.enable_transfer_hook
        &&& self.default_account_frozen == before.default_account_frozen
        &&& self.bump == before.bump
        &&& self.total_minted >= before.total_minted
        &&& self.total_burned >= before.total_burned
    }

    /// The five bytes that follow the strings: the decimals and the four flags, `paused` last.
    pub open spec fn flags_wire(&self) -> Seq<u8> {
        seq![
            self.decimals,
            bool_wire(self.enable_permanent_delegate),
            bool_wire(self.enable_transfer_hook),
            bool_wire(self.default_account_frozen),
            bool_wire(self.paused),
        ]
    }

    /// The registry on the wire.
    pub open spec fn wire(&self) -> Seq<u8> {
        StablecoinState::DISCRIMINATOR@ + self.authority@ + self.mint@ + string_wire(self.name@)
            + string_wire(self.symbol@) + string_wire(self.uri@) + self.flags_wire()
            + u64_le_bytes(self.total_minted) + u64_le_bytes(self.total_burned) + seq![self.bump]
    }

    /// Writes the registry as it stands on the wire.
    pub fn to_bytes(&self) -> (out: Vec<u8>)
        requires
            self.encodable(),
        ensures
            out@ == self.wire(),
    {
        let mut out: Vec<u8> = Vec::new();
        push_all(&mut out, StablecoinState::DISCRIMINATOR.as_slice());
        push_all(&mut out, self.authority.bytes.as_slice());
        push_all(&mut out, self.mint.bytes.as_slice());
        push_string(&mut out, &self.name);
        push_string(&mut out, &self.symbol);
        push_string(&mut out, &self.uri);
        out.push(self.decimals);
        push_bool(&mut out, self.enable_permanent_delegate);
        push_bool(&mut out, self.enable_transfer_hook);
        push_bool(&mut out, self.default_account_frozen);
        push_bool(&mut out, self.paused);
        assert(out@ =~= StablecoinState::DISCRIMINATOR@ + self.authority@ + self.mint@
            + string_wire(self.name@) + string_wire(self.symbol@) + string_wire(self.uri@)
            + self.flags_wire());
        push_u64_le(&mut out, self.total_minted);
        push_u64_le(&mut out, self.total_burned);
        out.push(self.bump);
        assert(out@ =~= self.wire());
        out
    }
}

} // verus!
