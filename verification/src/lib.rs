//! A fungible-token ledger: per-account balances, owner-to-spender allowances
//! with an expiry height, and the operations that move, destroy and delegate
//! value.
//!
//! The ledger itself is [`Sep41`]; it is given a [`Host`] with each call. What
//! its operations do is defined by the model in [`model`], and [`laws`] holds
//! what follows for every ledger.

pub mod auth;
pub mod host;
pub mod laws;
pub mod model;
pub mod storage;
pub mod token;

pub use auth::AuthGate;
pub use host::Host;
pub use model::{AccountId, ErrorKind, LedgerError};
pub use storage::{Allowance, Storage};
pub use token::{Sep41, TokenInterface};
