//! The conversion contract between the two balance denominations.
//!
//! Amounts are presented to the migration operation in a local balance unit,
//! while the asset ledger accounts in the asset's native unit. A runtime
//! assembles the operation with a deterministic two-way conversion between
//! the two; determinism is inherent in the specification functions, and
//! monotonicity is a proof obligation on every implementation.

use vstd::prelude::*;

verus! {

/// What a runtime must supply to assemble the migration operation: a
/// deterministic, monotonic two-way conversion between the local balance
/// unit and the asset's native balance unit.
pub trait Config {
    /// The meaning of the local-to-native conversion.
    spec fn spec_currency_to_asset(amount: u128) -> u128;

    /// The meaning of the native-to-local conversion.
    spec fn spec_asset_to_currency(amount: u128) -> u128;

    /// Converts an amount in the local unit to the asset's native unit.
    fn convert_currency_to_asset(amount: u128) -> (r: u128)
        ensures
            r == Self::spec_currency_to_asset(amount),
    ;

    /// Converts an amount in the asset's native unit to the local unit.
    fn convert_asset_to_currency(amount: u128) -> (r: u128)
        ensures
            r == Self::spec_asset_to_currency(amount),
    ;

    /// The local-to-native conversion must be monotonic.
    proof fn lemma_currency_to_asset_monotonic(a: u128, b: u128)
        requires
            a <= b,
        ensures
            Self::spec_currency_to_asset(a) <= Self::spec_currency_to_asset(b),
    ;

    /// The native-to-local conversion must be monotonic.
    proof fn lemma_asset_to_currency_monotonic(a: u128, b: u128)
        requires
            a <= b,
        ensures
            Self::spec_asset_to_currency(a) <= Self::spec_asset_to_currency(b),
    ;
}

/// Convenience methods available on every conversion configuration, under
/// the names the migration operation uses.
pub trait ConfigHelper: Config {
    /// Converts an amount in the local unit to the asset's native unit.
    fn currency_to_asset(amount: u128) -> (r: u128)
        ensures
            r == Self::spec_currency_to_asset(amount),
    ;

    /// Converts an amount in the asset's native unit to the local unit.
    fn asset_to_currency(amount: u128) -> (r: u128)
        ensures
            r == Self::spec_asset_to_currency(amount),
    ;
}

impl<T: Config> ConfigHelper for T {
    fn currency_to_asset(amount: u128) -> (r: u128) {
        T::convert_currency_to_asset(amount)
    }

    fn asset_to_currency(amount: u128) -> (r: u128) {
        T::convert_asset_to_currency(amount)
    }
}

/// The identity conversion: the local unit and the asset's native unit
/// coincide.
pub struct IdentityConversion;

impl Config for IdentityConversion {
    open spec fn spec_currency_to_asset(amount: u128) -> u128 {
        amount
    }

    open spec fn spec_asset_to_currency(amount: u128) -> u128 {
        amount
    }

    fn convert_currency_to_asset(amount: u128) -> (r: u128) {
        amount
    }

    fn convert_asset_to_currency(amount: u128) -> (r: u128) {
        amount
    }

    proof fn lemma_currency_to_asset_monotonic(a: u128, b: u128) {
    }

    proof fn lemma_asset_to_currency_monotonic(a: u128, b: u128) {
    }
}

} // verus!
