//! The migration operation and its configuration store.
//!
//! The configuration — vault account, owner account, asset identifier — is
//! written once, when a genesis triple is built, and only read afterwards.
//! `migrate` checks the configuration and the caller's authority in a fixed
//! precedence order, delegates the balance movement to an asset ledger, and
//! returns an auditable event carrying the resulting balances; any failure
//! leaves the ledger untouched and produces no event.

use crate::account::AccountId;
use crate::config::{Config, ConfigHelper};
use crate::errors::{DispatchError, Error, LedgerError};
use crate::ledger::{AssetId, Ledger};
use vstd::prelude::*;

verus! {

/// The record of one successful migration, carrying the amount as requested
/// (in the local unit), the accounts involved, the caller-supplied
/// correlation reference, and both post-transfer balances in the local unit.
#[derive(Clone, Copy, Debug, PartialEq, Eq)]
pub enum Event {
    BalanceMigrated {
        amount: u128,
        from_vault: AccountId,
        for_account: [u8; 32],
        to_account: AccountId,
        vault_balance_remained: u128,
        account_balance_after: u128,
    },
}

/// The optional configuration triple supplied at system initialization.
#[derive(Clone, Copy, Debug)]
pub struct GenesisConfig {
    pub migration_vault_account: Option<AccountId>,
    pub migration_owner: Option<AccountId>,
    pub asset_id: Option<AssetId>,
}

/// The diagnostics `GenesisConfig::build` reports: one error for each absent
/// field, in the order vault, owner, asset.
pub open spec fn missing_field_diagnostics(g: GenesisConfig) -> Seq<Error> {
    (if g.migration_vault_account is None {
        seq![Error::MigrationVaultAccountNoValue]
    } else {
        Seq::empty()
    }) + (if g.migration_owner is None {
        seq![Error::MigrationOwnerNoValue]
    } else {
        Seq::empty()
    }) + (if g.asset_id is None {
        seq![Error::AssetIdNoValue]
    } else {
        Seq::empty()
    })
}

impl Default for GenesisConfig {
    /// An empty triple: nothing configured.
    fn default() -> (r: GenesisConfig)
        ensures
            r.migration_vault_account is None,
            r.migration_owner is None,
            r.asset_id is None,
    {
        GenesisConfig {
            migration_vault_account: Option::None,
            migration_owner: Option::None,
            asset_id: Option::None,
        }
    }
}

impl GenesisConfig {
    /// Builds the configuration store from the triple, storing exactly what
    /// was supplied. An absent field is not a hard failure: it is surfaced
    /// as a diagnostic, and the store records the absence.
    pub fn build(&self) -> (r: (Pallet, Vec<Error>))
        ensures
            r.0.spec_vault() == self.migration_vault_account,
            r.0.spec_owner() == self.migration_owner,
            r.0.spec_token_id() == self.asset_id,
            r.1@ == missing_field_diagnostics(*self),
    {
        let mut diagnostics: Vec<Error> = Vec::new();
        if self.migration_vault_account.is_none() {
            diagnostics.push(Error::MigrationVaultAccountNoValue);
        }
        if self.migration_owner.is_none() {
            diagnostics.push(Error::MigrationOwnerNoValue);
        }
        if self.asset_id.is_none() {
            diagnostics.push(Error::AssetIdNoValue);
        }
        proof {
            assert(diagnostics@ =~= missing_field_diagnostics(*self));
        }
        let pallet = Pallet {
            vault: self.migration_vault_account,
            owner: self.migration_owner,
            token_id: self.asset_id,
        };
        (pallet, diagnostics)
    }
}

/// The configuration store and the migration operation. The three values are
/// set once, by `GenesisConfig::build`, and only read afterwards: no method
/// mutates them.
#[derive(Clone, Copy, Debug)]
pub struct Pallet {
    vault: Option<AccountId>,
    owner: Option<AccountId>,
    token_id: Option<AssetId>,
}

impl Pallet {
    /// The configured vault account, if set.
    pub closed spec fn spec_vault(&self) -> Option<AccountId> {
        self.vault
    }

    /// The configured owner account, if set.
    pub closed spec fn spec_owner(&self) -> Option<AccountId> {
        self.owner
    }

    /// The configured asset identifier, if set.
    pub closed spec fn spec_token_id(&self) -> Option<AssetId> {
        self.token_id
    }

    /// All three configuration values are present.
    pub open spec fn configured(&self) -> bool {
        self.spec_vault() is Some && self.spec_owner() is Some && self.spec_token_id() is Some
    }

    /// The configuration is complete and `caller` is the configured owner.
    pub open spec fn authorized(&self, caller: AccountId) -> bool {
        self.configured() && caller == self.spec_owner()->0
    }

    pub fn get_vault(&self) -> (r: Option<AccountId>)
        ensures
            r == self.spec_vault(),
    {
        self.vault
    }

    pub fn get_owner(&self) -> (r: Option<AccountId>)
        ensures
            r == self.spec_owner(),
    {
        self.owner
    }

    pub fn get_token_id(&self) -> (r: Option<AssetId>)
        ensures
            r == self.spec_token_id(),
    {
        self.token_id
    }

    /// Moves `amount` (in the local unit) of the configured asset from the
    /// vault to `account_to_credit`, when invoked by the configured owner.
    ///
    /// The preconditions are checked in a fixed precedence order — vault
    /// configured, owner configured, asset configured, caller is the owner —
    /// and the first failure reports its error with nothing changed. When
    /// they pass, the amount is converted to the asset's native unit and the
    /// transfer is delegated to the ledger; a ledger refusal propagates
    /// unmodified, again with nothing changed. On success the returned event
    /// carries the requested amount, the vault and destination identities,
    /// the caller's correlation reference byte for byte, and both
    /// post-transfer balances converted back to the local unit.
    pub fn migrate<C: Config, L: Ledger>(
        &self,
        ledger: &mut L,
        caller: AccountId,
        for_account: [u8; 32],
        account_to_credit: AccountId,
        amount: u128,
    ) -> (r: Result<Event, DispatchError>)
        requires
            old(ledger).wf(),
        ensures
            final(ledger).wf(),
            // Configuration gating, in precedence order.
            self.spec_vault() is None ==> r == Err::<Event, DispatchError>(
                DispatchError::Module(Error::MigrationVaultAccountNoValue),
            ),
            self.spec_vault() is Some && self.spec_owner() is None ==> r == Err::<
                Event,
                DispatchError,
            >(DispatchError::Module(Error::MigrationOwnerNoValue)),
            self.spec_vault() is Some && self.spec_owner() is Some && self.spec_token_id() is None
                ==> r == Err::<Event, DispatchError>(DispatchError::Module(Error::AssetIdNoValue)),
            // Authorization: any caller other than the owner is rejected,
            // whatever the amount, destination or reference.
            self.configured() && caller != self.spec_owner()->0 ==> r == Err::<
                Event,
                DispatchError,
            >(DispatchError::Module(Error::Unauthorised)),
            // Atomicity: a failed call leaves every balance untouched, and
            // produces no event.
            r is Err ==> *final(ledger) == *old(ledger),
            // The ledger decides the transfer; its refusal passes through
            // unmodified.
            self.authorized(caller) && !old(ledger).spec_transfer_ok(
                self.spec_token_id()->0,
                self.spec_vault()->0,
                account_to_credit,
                C::spec_currency_to_asset(amount),
                true,
            ) ==> r == Err::<Event, DispatchError>(
                DispatchError::Ledger(
                    old(ledger).spec_transfer_err(
                        self.spec_token_id()->0,
                        self.spec_vault()->0,
                        account_to_credit,
                        C::spec_currency_to_asset(amount),
                        true,
                    ),
                ),
            ),
            // Success happens exactly when the call is authorized and the
            // ledger applies the transfer.
            r is Ok <==> self.authorized(caller) && old(ledger).spec_transfer_ok(
                self.spec_token_id()->0,
                self.spec_vault()->0,
                account_to_credit,
                C::spec_currency_to_asset(amount),
                true,
            ),
            // Conservation: a successful call moves exactly the converted
            // amount from the vault to the destination and touches nothing
            // else.
            r is Ok && account_to_credit != self.spec_vault()->0 ==> migration_applied(
                *old(ledger),
                *final(ledger),
                self.spec_token_id()->0,
                self.spec_vault()->0,
                account_to_credit,
                C::spec_currency_to_asset(amount),
            ),
            r is Ok && account_to_credit == self.spec_vault()->0 ==> *final(ledger) == *old(
                ledger,
            ),
            // Event fidelity: the one event of a successful call reports the
            // requested amount, the parties, the correlation reference byte
            // for byte, and the post-transfer balances in the local unit.
            r is Ok ==> r == Ok::<Event, DispatchError>(
                (Event::BalanceMigrated {
                    amount,
                    from_vault: self.spec_vault()->0,
                    for_account,
                    to_account: account_to_credit,
                    vault_balance_remained: C::spec_asset_to_currency(
                        final(ledger).spec_balance(
                            self.spec_token_id()->0,
                            self.spec_vault()->0,
                        ),
                    ),
                    account_balance_after: C::spec_asset_to_currency(
                        final(ledger).spec_balance(self.spec_token_id()->0, account_to_credit),
                    ),
                }),
            ),
    {
        if self.vault.is_none() {
            return Err(DispatchError::Module(Error::MigrationVaultAccountNoValue));
        }
        if self.owner.is_none() {
            return Err(DispatchError::Module(Error::MigrationOwnerNoValue));
        }
        if self.token_id.is_none() {
            return Err(DispatchError::Module(Error::AssetIdNoValue));
        }
        let owner = self.owner.unwrap();
        let migration_account = self.vault.unwrap();
        let asset_id = self.token_id.unwrap();
        let migration_amount = C::currency_to_asset(amount);

        if !(owner == caller) {
            return Err(DispatchError::Module(Error::Unauthorised));
        }

        match ledger.transfer(asset_id, migration_account, account_to_credit, migration_amount, true) {
            Err(e) => Err(DispatchError::Ledger(e)),
            Ok(()) => {
                let vault_balance = ledger.balance(asset_id, migration_account);
                let account_balance = ledger.balance(asset_id, account_to_credit);
                Ok(
                    Event::BalanceMigrated {
                        amount,
                        from_vault: migration_account,
                        for_account,
                        to_account: account_to_credit,
                        vault_balance_remained: C::asset_to_currency(vault_balance),
                        account_balance_after: C::asset_to_currency(account_balance),
                    },
                )
            },
        }
    }
}

/// One successful migration's effect on the ledger: the vault held the
/// native amount, it moved in full to the destination, and no other balance
/// changed.
pub open spec fn migration_applied<L: Ledger>(
    pre: L,
    post: L,
    asset: AssetId,
    vault: AccountId,
    dest: AccountId,
    native_amount: u128,
) -> bool {
    &&& native_amount <= pre.spec_balance(asset, vault)
    &&& post.spec_balance(asset, vault) == pre.spec_balance(asset, vault) - native_amount
    &&& post.spec_balance(asset, dest) == pre.spec_balance(asset, dest) + native_amount
    &&& forall|a2: AssetId, w2: AccountId|
        a2 != asset || (w2 != vault && w2 != dest) ==> post.spec_balance(a2, w2)
            == pre.spec_balance(a2, w2)
}

/// Migration is not idempotent: two successful calls with identical
/// arguments perform two independent transfers, so the destination gains
/// twice the amount and the vault loses twice the amount.
pub proof fn lemma_double_migration_accumulates<L: Ledger>(
    s0: L,
    s1: L,
    s2: L,
    asset: AssetId,
    vault: AccountId,
    dest: AccountId,
    native_amount: u128,
)
    requires
        dest != vault,
        migration_applied(s0, s1, asset, vault, dest, native_amount),
        migration_applied(s1, s2, asset, vault, dest, native_amount),
    ensures
        s2.spec_balance(asset, dest) == s0.spec_balance(asset, dest) + 2 * native_amount,
        s2.spec_balance(asset, vault) == s0.spec_balance(asset, vault) - 2 * native_amount,
{
}

} // verus!
