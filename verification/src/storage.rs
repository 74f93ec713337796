//! The storage adapter: a key-value store over two key shapes, one balance per
//! account and one allowance per (owner, spender). It keeps what it is given
//! and decides nothing.

use crate::model::{AccountId, Grant, Ledger};
use std::collections::HashMap;
use vstd::prelude::*;

verus! {

broadcast use vstd::std_specs::hash::group_hash_axioms;

/// A stored allowance: the amount that may still be spent, and the height
/// from which on it may no longer be spent.
#[derive(Clone, Copy, Debug, PartialEq, Eq, Structural)]
pub struct Allowance {
    pub amount: i128,
    pub expiry: u32,
}

impl View for Allowance {
    type V = Grant;

    open spec fn view(&self) -> Grant {
        Grant { amount: self.amount as int, expiry: self.expiry as int }
    }
}

impl Allowance {
    /// The amount that a spender can use at `height`: the stored amount while
    /// it is positive and `height` is strictly below the expiry, else zero.
    pub fn effective(&self, height: u32) -> (amount: i128)
        ensures
            amount == self@.effective(height as int),
    {
        if self.amount > 0 && self.expiry > height {
            self.amount
        } else {
            0
        }
    }
}

/// The key under which the allowance of `spender` on `owner`'s account is
/// kept: the owner in the upper half, the spender in the lower half.
spec fn pair_key(owner: AccountId, spender: AccountId) -> u128 {
    (owner * 0x1_0000_0000_0000_0000 + spender) as u128
}

/// Different pairs have different keys; in particular the key of
/// (owner, spender) is not that of (spender, owner) unless the two are one.
proof fn lemma_pair_key_injective(
    owner: AccountId,
    spender: AccountId,
    other_owner: AccountId,
    other_spender: AccountId,
)
    ensures
        pair_key(owner, spender) == pair_key(other_owner, other_spender) <==> owner == other_owner
            && spender == other_spender,
{
}

/// Computes [`pair_key`].
fn make_pair_key(owner: AccountId, spender: AccountId) -> (key: u128)
    ensures
        key == pair_key(owner, spender),
{
    let upper: u128 = owner as u128;
    let lower: u128 = spender as u128;
    upper * 0x1_0000_0000_0000_0000 + lower
}

/// Balance and allowance records, each found again under the key it was
/// stored with.
pub struct Storage {
    balances: HashMap<AccountId, i128>,
    allowances: HashMap<u128, Allowance>,
}

impl View for Storage {
    type V = Ledger;

    /// The records as a [`Ledger`].
    closed spec fn view(&self) -> Ledger {
        Ledger {
            balances: Map::new(
                |id: AccountId| self.balances@.contains_key(id),
                |id: AccountId| self.balances@[id] as int,
            ),
            allowances: Map::new(
                |pair: (AccountId, AccountId)|
                    self.allowances@.contains_key(pair_key(pair.0, pair.1)),
                |pair: (AccountId, AccountId)| self.allowances@[pair_key(pair.0, pair.1)]@,
            ),
        }
    }
}

impl Storage {
    /// A storage without any record.
    pub fn new() -> (storage: Storage)
        ensures
            storage@ == Ledger::empty(),
    {
        let storage = Storage { balances: HashMap::new(), allowances: HashMap::new() };
        assert(storage@.balances =~= Map::empty());
        assert(storage@.allowances =~= Map::empty());
        storage
    }

    /// Whatever a storage holds can be held: its view is in range.
    pub proof fn lemma_in_range(&self)
        ensures
            self@.in_range(),
    {
    }

    /// The balance record of `id`, if there is one.
    pub fn get_balance(&self, id: AccountId) -> (record: Option<i128>)
        ensures
            match record {
                Some(value) => self@.balances.contains_key(id) && self@.balances[id] == value,
                None => !self@.balances.contains_key(id),
            },
    {
        match self.balances.get(&id) {
            Some(value) => Some(*value),
            None => None,
        }
    }

    /// Stores `value` as the balance record of `id`, in place of any earlier one.
    pub fn set_balance(&mut self, id: AccountId, value: i128)
        ensures
            final(self)@ == old(self)@.set_balance(id, value as int),
    {
        self.balances.insert(id, value);
        assert(self@.balances =~= old(self)@.balances.insert(id, value as int));
    }

    /// The balance of `id`: the stored one, or zero where none is stored.
    pub fn balance_or_zero(&self, id: AccountId) -> (balance: i128)
        ensures
            balance == self@.balance(id),
    {
        match self.get_balance(id) {
            Some(value) => value,
            None => 0,
        }
    }

    /// The allowance record of `spender` on `owner`'s account, if there is one.
    pub fn get_allowance(&self, owner: AccountId, spender: AccountId) -> (record: Option<Allowance>)
        ensures
            match record {
                Some(allowance) => self@.allowances.contains_key((owner, spender))
                    && self@.allowances[(owner, spender)] == allowance@,
                None => !self@.allowances.contains_key((owner, spender)),
            },
    {
        let key = make_pair_key(owner, spender);
        match self.allowances.get(&key) {
            Some(allowance) => Some(*allowance),
            None => None,
        }
    }

    /// Stores `allowance` as the record of `spender` on `owner`'s account, in
    /// place of any earlier one.
    pub fn set_allowance(&mut self, owner: AccountId, spender: AccountId, allowance: Allowance)
        ensures
            final(self)@ == old(self)@.set_grant(owner, spender, allowance@),
    {
        let key = make_pair_key(owner, spender);
        self.allowances.insert(key, allowance);
        assert(self@.allowances =~= old(self)@.allowances.insert((owner, spender), allowance@))
            by {
            assert forall|pair: (AccountId, AccountId)|
                (pair_key(pair.0, pair.1) == key) == (pair == (owner, spender)) by {
                lemma_pair_key_injective(pair.0, pair.1, owner, spender);
            }
        }
    }

    /// Drops the allowance record of `spender` on `owner`'s account. Nothing
    /// changes where there is none.
    pub fn remove_allowance(&mut self, owner: AccountId, spender: AccountId)
        ensures
            final(self)@ == old(self)@.remove_grant(owner, spender),
    {
        let key = make_pair_key(owner, spender);
        self.allowances.remove(&key);
        assert(self@.allowances =~= old(self)@.allowances.remove((owner, spender))) by {
            assert forall|pair: (AccountId, AccountId)|
                (pair_key(pair.0, pair.1) == key) == (pair == (owner, spender)) by {
                lemma_pair_key_injective(pair.0, pair.1, owner, spender);
            }
        }
    }

    /// The allowance record of `spender` on `owner`'s account: the stored
    /// one, or amount zero with expiry zero where none is stored.
    pub fn allowance_or_default(&self, owner: AccountId, spender: AccountId) -> (allowance:
        Allowance)
        ensures
            allowance@ == self@.grant(owner, spender),
    {
        match self.get_allowance(owner, spender) {
            Some(allowance) => allowance,
            None => Allowance { amount: 0, expiry: 0 },
        }
    }
}

} // verus!
