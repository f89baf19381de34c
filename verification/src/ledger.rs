//! The asset-ledger capability the migration operation is written against.
//!
//! The ledger is the sole external collaborator that holds mutable state: it
//! keeps a balance, in the asset's native unit, for every (asset, account)
//! pair, and applies transfers atomically. The migration operation needs
//! exactly two of its operations, a transfer and a balance query.

use crate::account::AccountId;
use crate::errors::LedgerError;
use vstd::prelude::*;

verus! {

/// Identifies which fungible asset a balance or a transfer is about.
pub type AssetId = u32;

/// An asset ledger: a balance, in the asset's native unit, for every
/// (asset, account) pair, and an atomic transfer between two accounts.
///
/// A transfer either applies in full — debiting the source, crediting the
/// destination, and touching no other balance — or rejects the request and
/// leaves every balance unchanged. Whether a given transfer applies is the
/// ledger's own decision (`spec_transfer_ok`); the ledger must at least
/// refuse to debit an account beyond its balance.
pub trait Ledger: Sized {
    /// The representation invariant of this ledger implementation.
    spec fn wf(&self) -> bool;

    /// The balance the ledger holds for `who` in `asset`, in the asset's
    /// native unit. Accounts the ledger has never seen hold zero.
    spec fn spec_balance(&self, asset: AssetId, who: AccountId) -> u128;

    /// Whether this ledger applies the given transfer.
    spec fn spec_transfer_ok(
        &self,
        asset: AssetId,
        from: AccountId,
        to: AccountId,
        amount: u128,
        keep_alive: bool,
    ) -> bool;

    /// The error this ledger reports when it rejects the given transfer.
    spec fn spec_transfer_err(
        &self,
        asset: AssetId,
        from: AccountId,
        to: AccountId,
        amount: u128,
        keep_alive: bool,
    ) -> LedgerError;

    /// Reads the balance of `who` in `asset`.
    fn balance(&self, asset: AssetId, who: AccountId) -> (r: u128)
        requires
            self.wf(),
        ensures
            r == self.spec_balance(asset, who),
    ;

    /// Moves `amount` native units of `asset` from `from` to `to`, all or
    /// nothing. A transfer of an account to itself leaves every balance as
    /// it was.
    fn transfer(
        &mut self,
        asset: AssetId,
        from: AccountId,
        to: AccountId,
        amount: u128,
        keep_alive: bool,
    ) -> (r: Result<(), LedgerError>)
        requires
            old(self).wf(),
        ensures
            final(self).wf(),
            r is Ok <==> old(self).spec_transfer_ok(asset, from, to, amount, keep_alive),
            r is Ok ==> amount <= old(self).spec_balance(asset, from),
            r is Err ==> *final(self) == *old(self),
            r is Err ==> r == Err::<(), LedgerError>(
                old(self).spec_transfer_err(asset, from, to, amount, keep_alive),
            ),
            r is Ok && from == to ==> *final(self) == *old(self),
            r is Ok && from != to ==> {
                &&& final(self).spec_balance(asset, from) == old(self).spec_balance(
                    asset,
                    from,
                ) - amount
                &&& final(self).spec_balance(asset, to) == old(self).spec_balance(
                    asset,
                    to,
                ) + amount
                &&& forall|a2: AssetId, w2: AccountId|
                    a2 != asset || (w2 != from && w2 != to) ==> final(self).spec_balance(a2, w2)
                        == old(self).spec_balance(a2, w2)
            },
    ;
}

} // verus!
