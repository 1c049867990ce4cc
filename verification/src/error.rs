//! Why an operation was refused.

use vstd::prelude::*;

verus! {

/// Reasons for which a privileged operation is refused. Each one ends the operation with no
/// change of state.
#[derive(Clone, Copy, Debug, PartialEq, Eq, Structural)]
pub enum StablecoinError {
    /// The caller lacks the required role, or is not the registry's authority.
    Unauthorized,
    /// The registry is paused.
    Paused,
    /// The registry was not created in compliance mode.
    ComplianceNotEnabled,
    /// The address already has a blacklist entry.
    AlreadyBlacklisted,
    /// The address has no blacklist entry.
    NotBlacklisted,
    /// The minter's quota does not allow the amount.
    QuotaExceeded,
    /// The amount is zero.
    ZeroAmount,
    /// The name is longer than 32 bytes.
    NameTooLong,
    /// The symbol is longer than 10 bytes.
    SymbolTooLong,
    /// The URI is longer than 200 bytes.
    UriTooLong,
    /// The reason is longer than 100 bytes.
    ReasonTooLong,
    /// The address is blacklisted.
    Blacklisted,
    /// A sum does not fit in 64 bits, or a record is too short to hold its value.
    MathOverflow,
    /// A holder or a setting is not acceptable.
    InvalidRoleConfig,
    /// The supply cap does not allow the amount.
    SupplyCapExceeded,
}

/// Reasons for which the transfer hook refuses a transfer.
#[derive(Clone, Copy, Debug, PartialEq, Eq, Structural)]
pub enum HookError {
    /// The source or the destination is blacklisted.
    Blacklisted,
    /// The registry is paused.
    Paused,
    /// The instruction does not start with the discriminator of a transfer execution.
    InvalidInstruction,
}

} // verus!
