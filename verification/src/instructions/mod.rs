//! The privileged operations, one file each.

pub mod blacklist;
pub mod burn;
pub mod freeze;
pub mod initialize_stablecoin;
pub mod mint;
pub mod pause;
pub mod seize;
pub mod transfer_authority;
pub mod update_minter;
pub mod update_roles;
pub mod update_supply_cap;

pub use blacklist::{AddToBlacklist, AddToBlacklistBumps, RemoveFromBlacklist};
pub use burn::BurnTokens;
pub use freeze::{FreezeTokenAccount, ThawTokenAccount};
pub use initialize_stablecoin::{InitializeParams, InitializeStablecoin, InitializeStablecoinBumps};
pub use mint::MintTokens;
pub use pause::PauseUnpause;
pub use seize::{Seize, SeizeError};
pub use transfer_authority::TransferAuthority;
pub use update_minter::{UpdateMinter, UpdateMinterBumps};
pub use update_roles::UpdateRoles;
pub use update_supply_cap::UpdateSupplyCap;
