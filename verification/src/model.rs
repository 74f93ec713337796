//! The mathematical model of the ledger.
//!
//! A [`Ledger`] is what a storage holds, seen as two maps over unbounded
//! integers. A [`Call`] names one mutating operation with its arguments, and a
//! [`Context`] is what the host supplies to one invocation: who authorized it
//! and the current height. `verdict` says whether a call succeeds and with which
//! error it fails, `effect` says what a successful call does, and `step` puts
//! the two together. Every executable operation is specified against these.

use vstd::prelude::*;

verus! {

/// Opaque identifier of a principal: an account owner or a delegate.
pub type AccountId = u64;

/// Why an operation was aborted. An aborted operation changes nothing.
#[derive(Clone, Copy, Debug, PartialEq, Eq, Structural)]
pub enum LedgerError {
    /// The invocation is not authorized by the principal that has to act.
    Unauthorized,
    /// The account does not hold the amount that is to leave it.
    InsufficientBalance,
    /// The usable allowance does not cover the amount.
    InsufficientAllowance,
    /// The amount to move or to destroy is negative.
    NegativeAmount,
    /// The recipient's balance would leave the range of a signed 128-bit
    /// integer.
    Overflow,
}

/// The two kinds of failure a caller has to tell apart.
#[derive(Clone, Copy, Debug, PartialEq, Eq, Structural)]
pub enum ErrorKind {
    /// The invoking context is not the required principal.
    AuthorizationFailure,
    /// The operation would break a rule of the ledger's bookkeeping.
    InvariantViolation,
}

impl LedgerError {
    /// The kind of this error.
    pub open spec fn spec_kind(self) -> ErrorKind {
        match self {
            LedgerError::Unauthorized => ErrorKind::AuthorizationFailure,
            _ => ErrorKind::InvariantViolation,
        }
    }

    /// The kind of this error.
    #[verifier::when_used_as_spec(spec_kind)]
    pub fn kind(self) -> (k: ErrorKind)
        ensures
            k == self.spec_kind(),
    {
        match self {
            LedgerError::Unauthorized => ErrorKind::AuthorizationFailure,
            LedgerError::InsufficientBalance => ErrorKind::InvariantViolation,
            LedgerError::InsufficientAllowance => ErrorKind::InvariantViolation,
            LedgerError::NegativeAmount => ErrorKind::InvariantViolation,
            LedgerError::Overflow => ErrorKind::InvariantViolation,
        }
    }
}

/// Whether `v` can be held in a signed 128-bit integer.
pub open spec fn fits_i128(v: int) -> bool {
    i128::MIN <= v <= i128::MAX
}

/// A stored allowance as the model sees it: the amount that may still be
/// spent, and the height from which on it may no longer be spent.
pub struct Grant {
    pub amount: int,
    pub expiry: int,
}

impl Grant {
    /// What an absent record stands for: nothing to spend, already expired.
    pub open spec fn none() -> Grant {
        Grant { amount: 0, expiry: 0 }
    }

    /// The amount that a spender can use at `height`: the stored amount while
    /// it is positive and the height is strictly below the expiry, else zero.
    pub open spec fn effective(self, height: int) -> int {
        if self.amount > 0 && self.expiry > height {
            self.amount
        } else {
            0
        }
    }

    /// Whether the record can be held in storage.
    pub open spec fn in_range(self) -> bool {
        fits_i128(self.amount) && 0 <= self.expiry <= u32::MAX
    }
}

/// What the host supplies to one invocation.
pub struct Context {
    /// The principals that authorized the invocation.
    pub signers: Set<AccountId>,
    /// The current height.
    pub height: int,
}

/// One mutating operation with its arguments.
pub enum Call {
    Approve { owner: AccountId, spender: AccountId, amount: int, expiry: int },
    Transfer { from: AccountId, to: AccountId, amount: int },
    TransferFrom { spender: AccountId, from: AccountId, to: AccountId, amount: int },
    Burn { from: AccountId, amount: int },
    BurnFrom { spender: AccountId, from: AccountId, amount: int },
}

impl Call {
    /// The principal that has to authorize the call.
    pub open spec fn caller(self) -> AccountId {
        match self {
            Call::Approve { owner, .. } => owner,
            Call::Transfer { from, .. } => from,
            Call::TransferFrom { spender, .. } => spender,
            Call::Burn { from, .. } => from,
            Call::BurnFrom { spender, .. } => spender,
        }
    }
}

/// A call together with the context it is made in.
pub struct Invocation {
    pub context: Context,
    pub call: Call,
}

/// The balance and allowance records of a ledger.
#[verifier::ext_equal]
pub struct Ledger {
    /// Account to balance. An account without a record holds nothing.
    pub balances: Map<AccountId, int>,
    /// (owner, spender) to allowance. A pair without a record grants nothing.
    pub allowances: Map<(AccountId, AccountId), Grant>,
}

impl Ledger {
    /// The ledger without any record.
    pub open spec fn empty() -> Ledger {
        Ledger { balances: Map::empty(), allowances: Map::empty() }
    }

    /// The balance of `id`: the stored one, or zero where none is stored.
    pub open spec fn balance(self, id: AccountId) -> int {
        if self.balances.contains_key(id) {
            self.balances[id]
        } else {
            0
        }
    }

    /// The allowance record of `spender` on `owner`'s account: the stored one,
    /// or [`Grant::none`] where none is stored.
    pub open spec fn grant(self, owner: AccountId, spender: AccountId) -> Grant {
        if self.allowances.contains_key((owner, spender)) {
            self.allowances[(owner, spender)]
        } else {
            Grant::none()
        }
    }

    /// The amount that `spender` can use of `owner`'s account at `height`.
    pub open spec fn allowance(self, owner: AccountId, spender: AccountId, height: int) -> int {
        self.grant(owner, spender).effective(height)
    }

    /// Whether no account holds a negative balance.
    pub open spec fn nonnegative(self) -> bool {
        forall|id: AccountId| self.balance(id) >= 0
    }

    /// Whether every record can be held in storage.
    pub open spec fn in_range(self) -> bool {
        &&& forall|id: AccountId|
            self.balances.contains_key(id) ==> fits_i128(#[trigger] self.balances[id])
        &&& forall|pair: (AccountId, AccountId)|
            self.allowances.contains_key(pair) ==> (#[trigger] self.allowances[pair]).in_range()
    }

    /// The ledger with the balance record of `id` set to `value`.
    pub open spec fn set_balance(self, id: AccountId, value: int) -> Ledger {
        Ledger { balances: self.balances.insert(id, value), ..self }
    }

    /// The ledger with the allowance record of the pair set to `grant`.
    pub open spec fn set_grant(self, owner: AccountId, spender: AccountId, grant: Grant) -> Ledger {
        Ledger { allowances: self.allowances.insert((owner, spender), grant), ..self }
    }

    /// The ledger without an allowance record for the pair.
    pub open spec fn remove_grant(self, owner: AccountId, spender: AccountId) -> Ledger {
        Ledger { allowances: self.allowances.remove((owner, spender)), ..self }
    }

    /// `amount` taken out of the balance of `from`.
    pub open spec fn debit(self, from: AccountId, amount: int) -> Ledger {
        self.set_balance(from, self.balance(from) - amount)
    }

    /// `amount` added to the balance of `to`.
    pub open spec fn credit(self, to: AccountId, amount: int) -> Ledger {
        self.set_balance(to, self.balance(to) + amount)
    }

    /// The allowance record of the pair replaced by `(amount, expiry)`.
    pub open spec fn approve(
        self,
        owner: AccountId,
        spender: AccountId,
        amount: int,
        expiry: int,
    ) -> Ledger {
        self.set_grant(owner, spender, Grant { amount, expiry })
    }

    /// `amount` moved from `from` to `to`: a debit followed by a credit, so a
    /// transfer to oneself leaves the balance as it was.
    pub open spec fn transfer(self, from: AccountId, to: AccountId, amount: int) -> Ledger {
        self.debit(from, amount).credit(to, amount)
    }

    /// `amount` destroyed out of the balance of `from`.
    pub open spec fn burn(self, from: AccountId, amount: int) -> Ledger {
        self.debit(from, amount)
    }

    /// The stored allowance of the pair lowered by `amount`, with its expiry
    /// kept; the record is dropped when nothing is left of it.
    pub open spec fn spend(self, owner: AccountId, spender: AccountId, amount: int) -> Ledger {
        let grant = self.grant(owner, spender);
        if grant.amount - amount == 0 {
            self.remove_grant(owner, spender)
        } else {
            self.set_grant(owner, spender, Grant { amount: grant.amount - amount, ..grant })
        }
    }

    /// The ledger after `call`, when the call succeeds.
    pub open spec fn effect(self, call: Call) -> Ledger {
        match call {
            Call::Approve { owner, spender, amount, expiry } => self.approve(
                owner,
                spender,
                amount,
                expiry,
            ),
            Call::Transfer { from, to, amount } => self.transfer(from, to, amount),
            Call::TransferFrom { spender, from, to, amount } => self.transfer(
                from,
                to,
                amount,
            ).spend(from, spender, amount),
            Call::Burn { from, amount } => self.burn(from, amount),
            Call::BurnFrom { spender, from, amount } => self.burn(from, amount).spend(
                from,
                spender,
                amount,
            ),
        }
    }

    /// Whether the funds that `call` relies on are there: `Ok`, or the first
    /// rule that the call breaks. No negative amount is moved or destroyed. A
    /// delegated call then needs the allowance first and the balance second.
    /// An approval needs nothing.
    pub open spec fn funds(self, height: int, call: Call) -> Result<(), LedgerError> {
        match call {
            Call::Approve { .. } => Ok(()),
            Call::Transfer { from, amount, .. } | Call::Burn { from, amount } => {
                if amount < 0 {
                    Err(LedgerError::NegativeAmount)
                } else if self.balance(from) < amount {
                    Err(LedgerError::InsufficientBalance)
                } else {
                    Ok(())
                }
            },
            Call::TransferFrom { spender, from, amount, .. } | Call::BurnFrom {
                spender,
                from,
                amount,
            } => {
                if amount < 0 {
                    Err(LedgerError::NegativeAmount)
                } else if self.allowance(from, spender, height) < amount {
                    Err(LedgerError::InsufficientAllowance)
                } else if self.balance(from) < amount {
                    Err(LedgerError::InsufficientBalance)
                } else {
                    Ok(())
                }
            },
        }
    }

    /// Whether the records that `call` writes can be held in storage: the two
    /// balances of a movement between different accounts, the balance that
    /// remains after a burn, what remains of an allowance, and the record of
    /// an approval.
    pub open spec fn representable(self, call: Call) -> bool {
        match call {
            Call::Approve { amount, expiry, .. } => (Grant { amount, expiry }).in_range(),
            Call::Transfer { from, to, amount } => from == to || (fits_i128(
                self.balance(from) - amount,
            ) && fits_i128(self.balance(to) + amount)),
            Call::TransferFrom { spender, from, to, amount } => {
                &&& from == to || (fits_i128(self.balance(from) - amount) && fits_i128(
                    self.balance(to) + amount,
                ))
                &&& fits_i128(self.grant(from, spender).amount - amount)
            },
            Call::Burn { from, amount } => fits_i128(self.balance(from) - amount),
            Call::BurnFrom { spender, from, amount } => {
                &&& fits_i128(self.balance(from) - amount)
                &&& fits_i128(self.grant(from, spender).amount - amount)
            },
        }
    }

    /// On a ledger that can be stored, the effect of a call can be stored
    /// exactly when the records that the call writes can be held.
    pub proof fn lemma_effect_in_range(self, call: Call)
        requires
            self.in_range(),
        ensures
            self.effect(call).in_range() <==> self.representable(call),
    {
        let after = self.effect(call);
        match call {
            Call::Approve { owner, spender, amount, expiry } => {
                assert(after.allowances[(owner, spender)] == Grant { amount, expiry });
            },
            Call::Transfer { from, to, amount } => {
                self.lemma_transfer_balances(from, to, amount);
                assert(after.balances[from] == after.balance(from));
                assert(after.balances[to] == after.balance(to));
            },
            Call::TransferFrom { spender, from, to, amount } => {
                let moved = self.transfer(from, to, amount);
                self.lemma_transfer_balances(from, to, amount);
                moved.lemma_spend_allowances(from, spender, amount);
                assert(after.balances[from] == moved.balance(from));
                assert(after.balances[to] == moved.balance(to));
                if self.grant(from, spender).amount - amount != 0 {
                    assert(after.allowances[(from, spender)].amount == self.grant(
                        from,
                        spender,
                    ).amount - amount);
                }
            },
            Call::Burn { from, amount } => {
                assert(after.balances[from] == self.balance(from) - amount);
            },
            Call::BurnFrom { spender, from, amount } => {
                let burnt = self.burn(from, amount);
                burnt.lemma_spend_allowances(from, spender, amount);
                assert(after.balances[from] == self.balance(from) - amount);
                if self.grant(from, spender).amount - amount != 0 {
                    assert(after.allowances[(from, spender)].amount == self.grant(
                        from,
                        spender,
                    ).amount - amount);
                }
            },
        }
    }

    /// A transfer writes the balance of `from` and that of `to`, and no other.
    proof fn lemma_transfer_balances(self, from: AccountId, to: AccountId, amount: int)
        ensures
            self.transfer(from, to, amount).balances == if from == to {
                self.balances.insert(from, self.balance(from))
            } else {
                self.balances.insert(from, self.balance(from) - amount).insert(
                    to,
                    self.balance(to) + amount,
                )
            },
            self.transfer(from, to, amount).allowances == self.allowances,
    {
        let after = self.transfer(from, to, amount);
        if from == to {
            assert(after.balances =~= self.balances.insert(from, self.balance(from)));
        }
    }

    /// Spending writes or drops the record of the pair, and touches no other.
    proof fn lemma_spend_allowances(self, owner: AccountId, spender: AccountId, amount: int)
        ensures
            self.spend(owner, spender, amount).balances == self.balances,
            self.spend(owner, spender, amount).allowances == if self.grant(owner, spender).amount
                - amount == 0 {
                self.allowances.remove((owner, spender))
            } else {
                self.allowances.insert(
                    (owner, spender),
                    Grant {
                        amount: self.grant(owner, spender).amount - amount,
                        expiry: self.grant(owner, spender).expiry,
                    },
                )
            },
    {
    }

    /// The verdict on `call` in `context`: `Ok` where it goes through, else the
    /// error it is aborted with. Authorization is asked first, then the funds,
    /// and last whether the records that would result can be stored.
    pub open spec fn verdict(self, context: Context, call: Call) -> Result<(), LedgerError> {
        if !context.signers.contains(call.caller()) {
            Err(LedgerError::Unauthorized)
        } else if self.funds(context.height, call) is Err {
            self.funds(context.height, call)
        } else if !self.effect(call).in_range() {
            Err(LedgerError::Overflow)
        } else {
            Ok(())
        }
    }

    /// The ledger after `call` was attempted in `context`: its effect where
    /// the call goes through, and the ledger as it was where it is aborted.
    pub open spec fn step(self, context: Context, call: Call) -> Ledger {
        if self.verdict(context, call) is Ok {
            self.effect(call)
        } else {
            self
        }
    }

    /// The ledger after the invocations of `trace` were attempted in order.
    pub open spec fn run(self, trace: Seq<Invocation>) -> Ledger
        decreases trace.len(),
    {
        if trace.len() == 0 {
            self
        } else {
            self.run(trace.drop_last()).step(trace.last().context, trace.last().call)
        }
    }
}

} // verus!
