//! Authorization and compliance core of a role-gated stablecoin ledger.
//!
//! For each privileged operation on a registry (mint, burn, freeze, pause, blacklist, seize,
//! role and quota updates, authority handoff) the core decides whether the caller may
//! perform it and whether it keeps the quota and the supply cap intact, and says what the
//! records are afterwards and what to ask of the token ledger. The host loads the records,
//! carries the requests out and stores the records again.
//!
//! The transfer hook reaches its verdict on a transfer from raw account bytes alone. What
//! the operations state of each other, and that the hook reads the pause out of the bytes
//! that a registry takes on the wire, is proved in `laws` and `hook`.

pub mod account;
pub mod auth;
pub mod constants;
pub mod enums;
pub mod error;
pub mod extra_metas;
pub mod hook;
pub mod host;
pub mod identity;
pub mod instructions;
pub mod laws;
pub mod ledger;
pub mod state;
pub mod wire;
