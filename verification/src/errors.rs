//! The error taxonomy. Every operation either commits all of its effects or
//! fails with one of these kinds and changes nothing.

use vstd::prelude::*;

verus! {

/// Why an operation was refused. Each failure is terminal for the current
/// operation: no partial state is ever left behind.
#[derive(Clone, Copy, Debug, PartialEq, Eq, Structural)]
pub enum VaultError {
    /// The source-side token balance is too low for a requested transfer.
    InsufficientFunds,
    /// A withdrawal asked for more than the vault holds.
    InsufficientBalance,
    /// A close was attempted on a vault that still holds tokens.
    NonZeroBalance,
    /// An accrual was attempted on an inactive vault.
    VaultInactive,
    /// The boost-credential supply is at its hard cap.
    SupplyExhausted,
    /// The caller is not the authority of an authority-gated operation.
    Unauthorized,
    /// Cross-checked identity fields disagree.
    InvalidMint,
    /// A checked arithmetic step would exceed the representable range.
    ArithmeticOverflow,
    /// A deposit of zero was requested.
    InvalidDepositAmount,
}

impl VaultError {
    /// The descriptive message of this error kind, as a sequence of
    /// characters.
    pub open spec fn spec_message(self) -> Seq<char> {
        match self {
            VaultError::InsufficientFunds => "Insufficient funds for operation"@,
            VaultError::InsufficientBalance => "Insufficient balance in vault"@,
            VaultError::NonZeroBalance => "Vault balance must be zero to close"@,
            VaultError::VaultInactive => "Vault is not active"@,
            VaultError::SupplyExhausted => "Reaper Pass supply exhausted"@,
            VaultError::Unauthorized => "Unauthorized: only authority can perform this action"@,
            VaultError::InvalidMint => "Invalid token mint"@,
            VaultError::ArithmeticOverflow => "Arithmetic overflow"@,
            VaultError::InvalidDepositAmount => "Invalid deposit amount"@,
        }
    }

    /// The descriptive message of this error kind.
    pub fn message(&self) -> (r: &'static str)
        ensures
            r@ == self.spec_message(),
    {
        match self {
            VaultError::InsufficientFunds => "Insufficient funds for operation",
            VaultError::InsufficientBalance => "Insufficient balance in vault",
            VaultError::NonZeroBalance => "Vault balance must be zero to close",
            VaultError::VaultInactive => "Vault is not active",
            VaultError::SupplyExhausted => "Reaper Pass supply exhausted",
            VaultError::Unauthorized => "Unauthorized: only authority can perform this action",
            VaultError::InvalidMint => "Invalid token mint",
            VaultError::ArithmeticOverflow => "Arithmetic overflow",
            VaultError::InvalidDepositAmount => "Invalid deposit amount",
        }
    }
}

} // verus!
