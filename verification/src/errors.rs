//! The failure taxonomy of the migration operation.

use vstd::prelude::*;

verus! {

/// The configuration and authorization failures of the migration operation,
/// checked in this fixed precedence order: missing vault account, missing
/// owner account, missing asset identifier, unauthorized caller.
#[derive(Clone, Copy, Debug, PartialEq, Eq, Structural)]
pub enum Error {
    Unauthorised,
    MigrationVaultAccountNoValue,
    MigrationOwnerNoValue,
    AssetIdNoValue,
}

/// A failure reported by the asset ledger when a transfer cannot be applied.
/// It is opaque to the migration operation, which passes it through unchanged.
#[derive(Clone, Copy, Debug, PartialEq, Eq, Structural)]
pub enum LedgerError {
    /// The debited account does not hold the requested amount.
    InsufficientBalance,
    /// Crediting the destination would overflow its balance.
    Overflow,
}

/// Everything a migration call can fail with: either one of the operation's
/// own checks, or a ledger failure propagated unmodified.
#[derive(Clone, Copy, Debug, PartialEq, Eq, Structural)]
pub enum DispatchError {
    Module(Error),
    Ledger(LedgerError),
}

} // verus!
