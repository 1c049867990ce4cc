//! The records that the ledger keeps.

pub mod blacklist_entry;
pub mod minter_info;
pub mod role;
pub mod stablecoin;
pub mod supply_cap;

pub use blacklist_entry::BlacklistEntry;
pub use minter_info::MinterInfo;
pub use role::RoleAccount;
pub use stablecoin::StablecoinState;
pub use supply_cap::SupplyCap;
