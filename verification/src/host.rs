//! The host environment of an invocation: the storage that the ledger's
//! records live in, the authorization that the invocation carries, and the
//! clock that allowances expire against.

use crate::auth::AuthGate;
use crate::model::{Context, Ledger};
use crate::storage::Storage;
use vstd::prelude::*;

verus! {

/// What the ledger is given with each call. The ledger reads and writes
/// `storage`; it only reads `auth` and `sequence`.
pub struct Host {
    /// The balance and allowance records.
    pub storage: Storage,
    /// The principals that authorized the invocation.
    pub auth: AuthGate,
    /// The current height.
    pub sequence: u32,
}

impl Host {
    /// The records that the storage holds.
    pub open spec fn ledger(&self) -> Ledger {
        self.storage@
    }

    /// Who authorized the invocation, and at which height it runs.
    pub open spec fn context(&self) -> Context {
        Context { signers: self.auth@, height: self.sequence as int }
    }

    /// A host with an empty storage, at height zero, in which no principal has
    /// authorized anything.
    pub fn new() -> (host: Host)
        ensures
            host.ledger() == Ledger::empty(),
            host.context() == (Context { signers: Set::empty(), height: 0 }),
    {
        Host { storage: Storage::new(), auth: AuthGate::deny_all(), sequence: 0 }
    }
}

} // verus!
