//! The authorization gate: the capability that says which principals have
//! authorized the current invocation.

use crate::model::{AccountId, LedgerError};
use vstd::prelude::*;

verus! {

/// The principals that authorized an invocation. A gate is handed to the
/// ledger with each call; it holds no ledger state.
pub struct AuthGate {
    everyone: bool,
    signers: Vec<AccountId>,
}

impl View for AuthGate {
    type V = Set<AccountId>;

    /// The set of principals that are let pass.
    closed spec fn view(&self) -> Set<AccountId> {
        Set::new(|id: AccountId| self.everyone || self.signers@.contains(id))
    }
}

impl AuthGate {
    /// A gate that lets nobody pass.
    pub fn deny_all() -> (gate: AuthGate)
        ensures
            gate@ == Set::<AccountId>::empty(),
    {
        let gate = AuthGate { everyone: false, signers: Vec::new() };
        assert(gate@ =~= Set::<AccountId>::empty());
        gate
    }

    /// A gate that lets every principal pass.
    pub fn allow_all() -> (gate: AuthGate)
        ensures
            gate@ == Set::<AccountId>::full(),
    {
        let gate = AuthGate { everyone: true, signers: Vec::new() };
        assert(gate@ =~= Set::<AccountId>::full());
        gate
    }

    /// A gate that lets exactly the listed principals pass.
    pub fn signed_by(signers: Vec<AccountId>) -> (gate: AuthGate)
        ensures
            gate@ == signers@.to_set(),
    {
        let gate = AuthGate { everyone: false, signers };
        assert(gate@ =~= signers@.to_set());
        gate
    }

    /// Whether the invocation is authorized by `principal`.
    pub fn permits(&self, principal: AccountId) -> (permitted: bool)
        ensures
            permitted == self@.contains(principal),
    {
        if self.everyone {
            return true;
        }
        let mut i: usize = 0;
        while i < self.signers.len()
            invariant
                i <= self.signers.len(),
                forall|j: int| 0 <= j < i ==> self.signers@[j] != principal,
            decreases self.signers.len() - i,
        {
            if self.signers[i] == principal {
                return true;
            }
            i += 1;
        }
        false
    }

    /// Confirms that the invocation is authorized by `principal`, and fails
    /// with [`LedgerError::Unauthorized`] where it is not.
    pub fn require(&self, principal: AccountId) -> (verdict: Result<(), LedgerError>)
        ensures
            verdict == if self@.contains(principal) {
                Ok::<(), LedgerError>(())
            } else {
                Err(LedgerError::Unauthorized)
            },
    {
        if self.permits(principal) {
            Ok(())
        } else {
            Err(LedgerError::Unauthorized)
        }
    }
}

} // verus!
