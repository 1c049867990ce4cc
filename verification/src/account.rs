//! Accounts as the host hands them over: an address, an owner, a balance and raw bytes.

use vstd::prelude::*;
use crate::identity::Identity;

verus! {

/// An account whose content has not been decoded.
#[derive(Clone, Debug, PartialEq, Eq)]
pub struct RawAccount {
    /// Where the account lives.
    pub key: Identity,
    /// The program that owns the account.
    pub owner: Identity,
    /// The balance that keeps the account alive; zero for an account that does not exist.
    pub lamports: u64,
    /// The serialized record; empty for an account that does not exist.
    pub data: Vec<u8>,
}

impl RawAccount {
    /// Whether anything is stored at the account: some content, or a balance.
    pub open spec fn spec_is_present(&self) -> bool {
        self.data@.len() > 0 || self.lamports > 0
    }

    /// Whether anything is stored at the account: some content, or a balance.
    #[verifier::when_used_as_spec(spec_is_present)]
    pub fn is_present(&self) -> (present: bool)
        ensures
            present == self.spec_is_present(),
    {
        self.data.len() > 0 || self.lamports > 0
    }
}

} // verus!
