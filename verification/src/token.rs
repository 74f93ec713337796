//! The token ledger: the queries, the five mutating operations and the
//! metadata, each specified against the model.

use crate::host::Host;
use crate::model::{fits_i128, AccountId, Call, LedgerError};
use crate::storage::{Allowance, Storage};
use vstd::prelude::*;

verus! {

/// The operations of a token ledger.
///
/// A mutating operation returns the verdict that the model gives on the call,
/// and leaves the host as the model's `step` says: changed by the call's
/// effect where the verdict is `Ok`, and untouched where it is an error. No
/// operation changes who authorized the invocation or the height.
pub trait TokenInterface {
    /// The amount that `spender` can still use of `owner`'s account: the
    /// stored amount while it is positive and not expired, else zero.
    fn allowance(env: &Host, owner: AccountId, spender: AccountId) -> (amount: i128)
        ensures
            amount == env.ledger().allowance(owner, spender, env.sequence as int),
            amount >= 0,
    ;

    /// Replaces the allowance of `spender` on `owner`'s account by `amount`,
    /// usable while the height is below `expiry`. The owner has to authorize
    /// the call. Nothing is added to an earlier allowance, and the owner's
    /// balance is not looked at. A negative amount is stored as it is and
    /// reads as no allowance.
    fn approve(
        env: &mut Host,
        owner: AccountId,
        spender: AccountId,
        amount: i128,
        expiry: u32,
    ) -> (verdict: Result<(), LedgerError>)
        ensures
            verdict == old(env).ledger().verdict(
                old(env).context(),
                (Call::Approve { owner, spender, amount: amount as int, expiry: expiry as int }),
            ),
            final(env).ledger() == old(env).ledger().step(
                old(env).context(),
                (Call::Approve { owner, spender, amount: amount as int, expiry: expiry as int }),
            ),
            final(env).context() == old(env).context(),
    ;

    /// The balance of `id`: zero where the account has no record.
    fn balance(env: &Host, id: AccountId) -> (amount: i128)
        ensures
            amount == env.ledger().balance(id),
            env.ledger().nonnegative() ==> amount >= 0,
    ;

    /// Moves `amount` from `from` to `to`. The sender has to authorize the call
    /// and to hold `amount`, also where it is its own recipient or the amount
    /// is zero; in both cases no balance changes. A negative amount is
    /// refused.
    fn transfer(env: &mut Host, from: AccountId, to: AccountId, amount: i128) -> (verdict: Result<
        (),
        LedgerError,
    >)
        ensures
            verdict == old(env).ledger().verdict(
                old(env).context(),
                (Call::Transfer { from, to, amount: amount as int }),
            ),
            final(env).ledger() == old(env).ledger().step(
                old(env).context(),
                (Call::Transfer { from, to, amount: amount as int }),
            ),
            final(env).context() == old(env).context(),
    ;

    /// Moves `amount` from `from` to `to` on behalf of `spender`, and lowers
    /// the allowance of `spender` on `from`'s account by `amount`. The spender
    /// has to authorize the call, `amount` must not be negative, the allowance
    /// that is usable at the current height has to cover it, and so has the
    /// balance of `from`. What is left of the allowance keeps its expiry;
    /// where nothing is left, the record is dropped.
    fn transfer_from(
        env: &mut Host,
        spender: AccountId,
        from: AccountId,
        to: AccountId,
        amount: i128,
    ) -> (verdict: Result<(), LedgerError>)
        ensures
            verdict == old(env).ledger().verdict(
                old(env).context(),
                (Call::TransferFrom { spender, from, to, amount: amount as int }),
            ),
            final(env).ledger() == old(env).ledger().step(
                old(env).context(),
                (Call::TransferFrom { spender, from, to, amount: amount as int }),
            ),
            final(env).context() == old(env).context(),
    ;

    /// Destroys `amount` out of the balance of `from`, which has to authorize
    /// the call and to hold `amount`. Nobody is credited. A negative amount
    /// is refused.
    fn burn(env: &mut Host, from: AccountId, amount: i128) -> (verdict: Result<(), LedgerError>)
        ensures
            verdict == old(env).ledger().verdict(
                old(env).context(),
                (Call::Burn { from, amount: amount as int }),
            ),
            final(env).ledger() == old(env).ledger().step(
                old(env).context(),
                (Call::Burn { from, amount: amount as int }),
            ),
            final(env).context() == old(env).context(),
    ;

    /// Destroys `amount` out of the balance of `from` on behalf of `spender`,
    /// and lowers the allowance of `spender` on `from`'s account by `amount`,
    /// under the rules of a delegated transfer.
    fn burn_from(env: &mut Host, spender: AccountId, from: AccountId, amount: i128) -> (verdict:
        Result<(), LedgerError>)
        ensures
            verdict == old(env).ledger().verdict(
                old(env).context(),
                (Call::BurnFrom { spender, from, amount: amount as int }),
            ),
            final(env).ledger() == old(env).ledger().step(
                old(env).context(),
                (Call::BurnFrom { spender, from, amount: amount as int }),
            ),
            final(env).context() == old(env).context(),
    ;

    /// The number of decimal places that amounts are shown with: the same on
    /// every host.
    fn decimals(env: &Host) -> (places: u32)
        ensures
            places == 18,
    ;

    /// The name of the token: the same on every host.
    fn name(env: &Host) -> (name: String)
        ensures
            name@ == "Age Devs"@,
    ;

    /// The symbol of the token: the same on every host.
    fn symbol(env: &Host) -> (symbol: String)
        ensures
            symbol@ == "AGEDEVS"@,
    ;
}

/// The ledger of the token "Age Devs".
pub struct Sep41;

/// What `from` and `to` hold after `amount` went from the one to the other,
/// or `None` where one of the two cannot be held.
fn moved_balances(storage: &Storage, from: AccountId, to: AccountId, amount: i128) -> (moved:
    Option<(i128, i128)>)
    ensures
        match moved {
            Some((from_balance, to_balance)) => {
                &&& from_balance == storage@.transfer(from, to, amount as int).balance(from)
                &&& to_balance == storage@.transfer(from, to, amount as int).balance(to)
            },
            None => from != to && !(fits_i128(storage@.balance(from) - amount) && fits_i128(
                storage@.balance(to) + amount,
            )),
        },
{
    let from_balance = storage.balance_or_zero(from);
    if from == to {
        return Some((from_balance, from_balance));
    }
    let to_balance = storage.balance_or_zero(to);
    match (from_balance.checked_sub(amount), to_balance.checked_add(amount)) {
        (Some(debited), Some(credited)) => Some((debited, credited)),
        _ => None,
    }
}

/// Writes the two balances that a movement from `from` to `to` ends in.
fn store_moved(
    storage: &mut Storage,
    from: AccountId,
    to: AccountId,
    amount: Ghost<int>,
    from_balance: i128,
    to_balance: i128,
)
    requires
        from_balance == old(storage)@.transfer(from, to, amount@).balance(from),
        to_balance == old(storage)@.transfer(from, to, amount@).balance(to),
    ensures
        final(storage)@ == old(storage)@.transfer(from, to, amount@),
{
    storage.set_balance(from, from_balance);
    storage.set_balance(to, to_balance);
    assert(storage@.balances =~= old(storage)@.transfer(from, to, amount@).balances);
}

/// Writes what is left of an allowance after `amount` was spent of it: the
/// record with `remaining` in place of its amount, or no record where nothing
/// remains.
fn store_remaining(
    storage: &mut Storage,
    owner: AccountId,
    spender: AccountId,
    record: Allowance,
    amount: Ghost<int>,
    remaining: i128,
)
    requires
        record@ == old(storage)@.grant(owner, spender),
        remaining == record.amount - amount@,
    ensures
        final(storage)@ == old(storage)@.spend(owner, spender, amount@),
{
    if remaining == 0 {
        storage.remove_allowance(owner, spender);
    } else {
        storage.set_allowance(owner, spender, Allowance { amount: remaining, expiry: record.expiry });
    }
}

impl TokenInterface for Sep41 {
    fn allowance(env: &Host, owner: AccountId, spender: AccountId) -> (amount: i128) {
        env.storage.allowance_or_default(owner, spender).effective(env.sequence)
    }

    fn approve(
        env: &mut Host,
        owner: AccountId,
        spender: AccountId,
        amount: i128,
        expiry: u32,
    ) -> (verdict: Result<(), LedgerError>) {
        let ghost call = Call::Approve {
            owner,
            spender,
            amount: amount as int,
            expiry: expiry as int,
        };
        if !env.auth.permits(owner) {
            return Err(LedgerError::Unauthorized);
        }
        proof {
            env.storage.lemma_in_range();
            env.ledger().lemma_effect_in_range(call);
        }
        env.storage.set_allowance(owner, spender, Allowance { amount, expiry });
        Ok(())
    }

    fn balance(env: &Host, id: AccountId) -> (amount: i128) {
        env.storage.balance_or_zero(id)
    }

    fn transfer(env: &mut Host, from: AccountId, to: AccountId, amount: i128) -> (verdict: Result<
        (),
        LedgerError,
    >) {
        let ghost call = Call::Transfer { from, to, amount: amount as int };
        if !env.auth.permits(from) {
            return Err(LedgerError::Unauthorized);
        }
        if amount < 0 {
            return Err(LedgerError::NegativeAmount);
        }
        if env.storage.balance_or_zero(from) < amount {
            return Err(LedgerError::InsufficientBalance);
        }
        proof {
            env.storage.lemma_in_range();
            env.ledger().lemma_effect_in_range(call);
        }
        match moved_balances(&env.storage, from, to, amount) {
            Some((from_balance, to_balance)) => {
                store_moved(
                    &mut env.storage,
                    from,
                    to,
                    Ghost(amount as int),
                    from_balance,
                    to_balance,
                );
                Ok(())
            },
            None => Err(LedgerError::Overflow),
        }
    }

    fn transfer_from(
        env: &mut Host,
        spender: AccountId,
        from: AccountId,
        to: AccountId,
        amount: i128,
    ) -> (verdict: Result<(), LedgerError>) {
        let ghost call = Call::TransferFrom { spender, from, to, amount: amount as int };
        if !env.auth.permits(spender) {
            return Err(LedgerError::Unauthorized);
        }
        if amount < 0 {
            return Err(LedgerError::NegativeAmount);
        }
        let record = env.storage.allowance_or_default(from, spender);
        if record.effective(env.sequence) < amount {
            return Err(LedgerError::InsufficientAllowance);
        }
        if env.storage.balance_or_zero(from) < amount {
            return Err(LedgerError::InsufficientBalance);
        }
        proof {
            env.storage.lemma_in_range();
            env.ledger().lemma_effect_in_range(call);
        }
        match moved_balances(&env.storage, from, to, amount) {
            Some((from_balance, to_balance)) => {
                store_moved(
                    &mut env.storage,
                    from,
                    to,
                    Ghost(amount as int),
                    from_balance,
                    to_balance,
                );
                store_remaining(
                    &mut env.storage,
                    from,
                    spender,
                    record,
                    Ghost(amount as int),
                    record.amount - amount,
                );
                Ok(())
            },
            None => Err(LedgerError::Overflow),
        }
    }

    fn burn(env: &mut Host, from: AccountId, amount: i128) -> (verdict: Result<(), LedgerError>) {
        let ghost call = Call::Burn { from, amount: amount as int };
        if !env.auth.permits(from) {
            return Err(LedgerError::Unauthorized);
        }
        if amount < 0 {
            return Err(LedgerError::NegativeAmount);
        }
        let from_balance = env.storage.balance_or_zero(from);
        if from_balance < amount {
            return Err(LedgerError::InsufficientBalance);
        }
        proof {
            env.storage.lemma_in_range();
            env.ledger().lemma_effect_in_range(call);
        }
        env.storage.set_balance(from, from_balance - amount);
        Ok(())
    }

    fn burn_from(env: &mut Host, spender: AccountId, from: AccountId, amount: i128) -> (verdict:
        Result<(), LedgerError>) {
        let ghost call = Call::BurnFrom { spender, from, amount: amount as int };
        if !env.auth.permits(spender) {
            return Err(LedgerError::Unauthorized);
        }
        if amount < 0 {
            return Err(LedgerError::NegativeAmount);
        }
        let record = env.storage.allowance_or_default(from, spender);
        if record.effective(env.sequence) < amount {
            return Err(LedgerError::InsufficientAllowance);
        }
        let from_balance = env.storage.balance_or_zero(from);
        if from_balance < amount {
            return Err(LedgerError::InsufficientBalance);
        }
        proof {
            env.storage.lemma_in_range();
            env.ledger().lemma_effect_in_range(call);
        }
        env.storage.set_balance(from, from_balance - amount);
        store_remaining(
            &mut env.storage,
            from,
            spender,
            record,
            Ghost(amount as int),
            record.amount - amount,
        );
        Ok(())
    }

    fn decimals(_env: &Host) -> (places: u32) {
        18
    }

    fn name(_env: &Host) -> (name: String) {
        "Age Devs".to_owned()
    }

    fn symbol(_env: &Host) -> (symbol: String) {
        "AGEDEVS".to_owned()
    }
}

} // verus!
