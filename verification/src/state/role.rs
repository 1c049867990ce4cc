//! Role records: the capabilities of one holder in one registry.

use vstd::prelude::*;
use crate::enums::RoleFlags;
use crate::identity::Identity;

verus! {

/// The capabilities of `holder` in the registry `stablecoin`. Only the registry's authority
/// writes such a record, and each write replaces all six flags.
#[derive(Clone, Copy, Debug, PartialEq, Eq)]
pub struct RoleAccount {
    pub stablecoin: Identity,
    pub holder: Identity,
    pub roles: RoleFlags,
    pub bump: u8,
}

impl RoleAccount {
    /// Number of bytes that a role record takes on the wire.
    pub const LEN: usize = 8 + 32 + 32 + RoleFlags::LEN + 1;
}

/// The capabilities that a role slot grants: those of its record, or none where it is empty.
pub open spec fn granted(role: Option<RoleAccount>) -> RoleFlags {
    match role {
        Some(record) => record.roles,
        None => RoleFlags::none(),
    }
}

} // verus!
