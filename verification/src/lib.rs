//! A verified custodial-migration library.
//!
//! A single privileged operation moves a quantity of a fungible asset from a
//! configured vault account to a recipient account. The operation is gated by
//! a single authorized owner, reads an immutable-after-initialization
//! configuration, delegates the balance movement to an asset ledger, and
//! returns an auditable event carrying the resulting balances.

pub mod account;
pub mod config;
pub mod errors;
pub mod ledger;
pub mod memory_ledger;
pub mod pallet;

pub use account::AccountId;
pub use config::{Config, ConfigHelper, IdentityConversion};
pub use errors::{DispatchError, Error, LedgerError};
pub use ledger::{AssetId, Ledger};
pub use memory_ledger::InMemoryLedger;
pub use pallet::{Event, GenesisConfig, Pallet};
