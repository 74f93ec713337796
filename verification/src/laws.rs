//! What holds of the ledger whatever the records, the caller and the
//! arguments are. Each law is stated over the model that the operations are
//! specified against, so it holds of every run of the executable ledger.

use crate::model::{fits_i128, AccountId, Call, Context, Grant, Invocation, Ledger, LedgerError};
use vstd::prelude::*;

verus! {

/// An attempted call never leaves a negative balance behind on a ledger that
/// had none.
pub proof fn law_balances_stay_nonnegative(ledger: Ledger, context: Context, call: Call)
    requires
        ledger.nonnegative(),
    ensures
        ledger.step(context, call).nonnegative(),
{
    let after = ledger.step(context, call);
    assert forall|id: AccountId| after.balance(id) >= 0 by {
        assert(ledger.balance(id) >= 0);
        match call {
            Call::Transfer { from, to, amount } | Call::TransferFrom { from, to, amount, .. } => {
                assert(ledger.balance(from) >= 0);
                assert(ledger.balance(to) >= 0);
            },
            Call::Burn { from, amount } | Call::BurnFrom { from, amount, .. } => {
                assert(ledger.balance(from) >= 0);
            },
            Call::Approve { .. } => {},
        }
    }
}

/// No sequence of attempted calls leaves a negative balance behind on a
/// ledger that had none.
pub proof fn law_balances_stay_nonnegative_throughout(ledger: Ledger, trace: Seq<Invocation>)
    requires
        ledger.nonnegative(),
    ensures
        ledger.run(trace).nonnegative(),
    decreases trace.len(),
{
    if trace.len() > 0 {
        let earlier = trace.drop_last();
        law_balances_stay_nonnegative_throughout(ledger, earlier);
        law_balances_stay_nonnegative(ledger.run(earlier), trace.last().context, trace.last().call);
    }
}

/// A call that would move or destroy a negative amount is aborted, and the
/// ledger is left as it was.
pub proof fn law_negative_amount_aborts(ledger: Ledger, context: Context, call: Call)
    requires
        call matches Call::Transfer { amount, .. } ==> amount < 0,
        call matches Call::TransferFrom { amount, .. } ==> amount < 0,
        call matches Call::Burn { amount, .. } ==> amount < 0,
        call matches Call::BurnFrom { amount, .. } ==> amount < 0,
        !(call is Approve),
    ensures
        ledger.verdict(context, call) == if context.signers.contains(call.caller()) {
            Err::<(), LedgerError>(LedgerError::NegativeAmount)
        } else {
            Err(LedgerError::Unauthorized)
        },
        ledger.step(context, call) == ledger,
{
}

/// No attempted call raises a balance but a transfer, which raises that of
/// its recipient by what it takes from the sender: nothing is created.
pub proof fn law_only_a_transfer_credits(
    ledger: Ledger,
    context: Context,
    call: Call,
    id: AccountId,
)
    requires
        call matches Call::Transfer { to, .. } ==> id != to,
        call matches Call::TransferFrom { to, .. } ==> id != to,
    ensures
        ledger.step(context, call).balance(id) <= ledger.balance(id),
{
}

/// No delegated call raises the stored allowance that it spends.
pub proof fn law_delegated_call_never_raises_allowance(
    ledger: Ledger,
    context: Context,
    call: Call,
    owner: AccountId,
    spender: AccountId,
)
    requires
        call is TransferFrom || call is BurnFrom,
    ensures
        ledger.step(context, call).grant(owner, spender).amount <= ledger.grant(
            owner,
            spender,
        ).amount,
{
}

/// On a ledger that can be stored, the one call that is aborted for want of
/// room is a transfer that would lift its recipient's balance beyond what a
/// signed 128-bit integer holds (or an approval whose record cannot be held,
/// which no executable call can ask for).
pub proof fn law_only_a_credit_overflows(ledger: Ledger, context: Context, call: Call)
    requires
        ledger.in_range(),
        ledger.verdict(context, call) == Err::<(), LedgerError>(LedgerError::Overflow),
    ensures
        match call {
            Call::Approve { amount, expiry, .. } => !(Grant { amount, expiry }).in_range(),
            Call::Transfer { from, to, amount } | Call::TransferFrom { from, to, amount, .. } => {
                from != to && ledger.balance(to) + amount > i128::MAX
            },
            Call::Burn { .. } | Call::BurnFrom { .. } => false,
        },
{
    ledger.lemma_effect_in_range(call);
    match call {
        Call::Transfer { from, to, .. } | Call::TransferFrom { from, to, .. } => {
            if ledger.balances.contains_key(to) {
                assert(fits_i128(ledger.balances[to]));
            }
            if ledger.balances.contains_key(from) {
                assert(fits_i128(ledger.balances[from]));
            }
        },
        Call::Burn { from, .. } | Call::BurnFrom { from, .. } => {
            if ledger.balances.contains_key(from) {
                assert(fits_i128(ledger.balances[from]));
            }
        },
        _ => {},
    }
    match call {
        Call::TransferFrom { spender, from, .. } | Call::BurnFrom { spender, from, .. } => {
            if ledger.allowances.contains_key((from, spender)) {
                assert(ledger.allowances[(from, spender)].in_range());
            }
        },
        _ => {},
    }
}

/// A transfer that goes through takes exactly `amount` from `from` and gives
/// exactly `amount` to `to`; where the two are one account, its balance is
/// what it was. No other balance and no allowance changes.
pub proof fn law_transfer_moves_exactly(
    ledger: Ledger,
    context: Context,
    from: AccountId,
    to: AccountId,
    amount: int,
)
    requires
        ledger.verdict(context, (Call::Transfer { from, to, amount })) is Ok,
    ensures
        ({
            let after = ledger.step(context, (Call::Transfer { from, to, amount }));
            &&& from != to ==> after.balance(from) == ledger.balance(from) - amount
            &&& from != to ==> after.balance(to) == ledger.balance(to) + amount
            &&& from == to ==> after.balance(from) == ledger.balance(from)
            &&& forall|other: AccountId|
                other != from && other != to ==> after.balance(other) == ledger.balance(other)
            &&& after.allowances == ledger.allowances
        }),
{
}

/// After an approval that goes through, the stored record is exactly what was
/// approved, whatever was stored before. The allowance reads as the approved
/// amount while that is not negative and the height is below the expiry, and
/// as zero from the expiry on, though the amount is still stored.
pub proof fn law_approval_replaces_and_expires(
    ledger: Ledger,
    context: Context,
    owner: AccountId,
    spender: AccountId,
    amount: int,
    expiry: int,
    height: int,
)
    requires
        ledger.verdict(context, (Call::Approve { owner, spender, amount, expiry })) is Ok,
    ensures
        ({
            let after = ledger.step(context, (Call::Approve { owner, spender, amount, expiry }));
            &&& after.allowances.contains_key((owner, spender))
            &&& after.grant(owner, spender) == Grant { amount, expiry }
            &&& after.allowance(owner, spender, height) == if amount > 0 && height < expiry {
                amount
            } else {
                0
            }
            &&& amount >= 0 && height < expiry ==> after.allowance(owner, spender, height) == amount
            &&& height >= expiry ==> after.allowance(owner, spender, height) == 0
            &&& after.balances == ledger.balances
        }),
{
}

/// An approval for (owner, spender) leaves the record of every other pair as
/// it was, that of (spender, owner) included.
pub proof fn law_approval_touches_one_pair(
    ledger: Ledger,
    context: Context,
    owner: AccountId,
    spender: AccountId,
    amount: int,
    expiry: int,
    other_owner: AccountId,
    other_spender: AccountId,
)
    requires
        (other_owner, other_spender) != (owner, spender),
    ensures
        ledger.step(context, (Call::Approve { owner, spender, amount, expiry })).grant(
            other_owner,
            other_spender,
        ) == ledger.grant(other_owner, other_spender),
{
}

/// A delegated transfer that goes through lowers the stored allowance by
/// exactly the amount moved and keeps its expiry. Where the stored amount was
/// not negative, what remains is not negative either. Where nothing remains,
/// the record is gone, and the allowance reads as zero at every height.
pub proof fn law_transfer_from_spends_allowance(
    ledger: Ledger,
    context: Context,
    spender: AccountId,
    from: AccountId,
    to: AccountId,
    amount: int,
)
    requires
        ledger.verdict(context, (Call::TransferFrom { spender, from, to, amount })) is Ok,
    ensures
        ({
            let before = ledger.grant(from, spender);
            let after = ledger.step(context, (Call::TransferFrom { spender, from, to, amount }));
            &&& after.grant(from, spender).amount == before.amount - amount
            &&& before.amount >= 0 ==> after.grant(from, spender).amount >= 0
            &&& before.amount - amount != 0 ==> after.grant(from, spender).expiry == before.expiry
            &&& before.amount - amount == 0 ==> !after.allowances.contains_key((from, spender))
            &&& before.amount - amount == 0 ==> forall|height: int|
                after.allowance(from, spender, height) == 0
            &&& after.balances == ledger.transfer(from, to, amount).balances
        }),
{
}

/// A delegated burn that goes through spends the allowance as a delegated
/// transfer does.
pub proof fn law_burn_from_spends_allowance(
    ledger: Ledger,
    context: Context,
    spender: AccountId,
    from: AccountId,
    amount: int,
)
    requires
        ledger.verdict(context, (Call::BurnFrom { spender, from, amount })) is Ok,
    ensures
        ({
            let before = ledger.grant(from, spender);
            let after = ledger.step(context, (Call::BurnFrom { spender, from, amount }));
            &&& after.grant(from, spender).amount == before.amount - amount
            &&& before.amount >= 0 ==> after.grant(from, spender).amount >= 0
            &&& before.amount - amount != 0 ==> after.grant(from, spender).expiry == before.expiry
            &&& before.amount - amount == 0 ==> !after.allowances.contains_key((from, spender))
            &&& before.amount - amount == 0 ==> forall|height: int|
                after.allowance(from, spender, height) == 0
            &&& after.balance(from) == ledger.balance(from) - amount
        }),
{
}

/// A transfer or a burn of more than the account holds is aborted, and the
/// ledger is left as it was.
pub proof fn law_overdrawn_account_aborts(ledger: Ledger, context: Context, call: Call)
    requires
        call matches Call::Transfer { from, amount, .. } ==> amount > ledger.balance(from),
        call matches Call::Burn { from, amount } ==> amount > ledger.balance(from),
        call is Transfer || call is Burn,
    ensures
        ledger.verdict(context, call) is Err,
        ledger.nonnegative() ==> ledger.verdict(context, call) == if context.signers.contains(
            call.caller(),
        ) {
            Err::<(), LedgerError>(LedgerError::InsufficientBalance)
        } else {
            Err(LedgerError::Unauthorized)
        },
        ledger.step(context, call) == ledger,
{
    match call {
        Call::Transfer { from, .. } | Call::Burn { from, .. } => {
            if ledger.nonnegative() {
                assert(ledger.balance(from) >= 0);
            }
        },
        _ => {},
    }
}

/// A delegated transfer or burn of more than the allowance that is usable at
/// the current height is aborted, and the ledger is left as it was: no
/// balance and no allowance changes.
pub proof fn law_overspent_allowance_aborts(ledger: Ledger, context: Context, call: Call)
    requires
        call matches Call::TransferFrom { spender, from, amount, .. } ==> amount > ledger.allowance(
            from,
            spender,
            context.height,
        ),
        call matches Call::BurnFrom { spender, from, amount } ==> amount > ledger.allowance(
            from,
            spender,
            context.height,
        ),
        call is TransferFrom || call is BurnFrom,
    ensures
        ledger.verdict(context, call) == if context.signers.contains(call.caller()) {
            Err::<(), LedgerError>(LedgerError::InsufficientAllowance)
        } else {
            Err(LedgerError::Unauthorized)
        },
        ledger.step(context, call) == ledger,
{
}

/// From its expiry on an allowance covers no positive amount, however much
/// is stored: the delegated call is aborted and nothing changes.
pub proof fn law_expired_allowance_covers_nothing(ledger: Ledger, context: Context, call: Call)
    requires
        call matches Call::TransferFrom { spender, from, amount, .. } ==> amount > 0
            && context.height >= ledger.grant(from, spender).expiry,
        call matches Call::BurnFrom { spender, from, amount } ==> amount > 0 && context.height
            >= ledger.grant(from, spender).expiry,
        call is TransferFrom || call is BurnFrom,
    ensures
        ledger.verdict(context, call) is Err,
        ledger.step(context, call) == ledger,
{
    law_overspent_allowance_aborts(ledger, context, call);
}

/// A call that is aborted, for whatever reason, leaves the ledger as it was.
pub proof fn law_aborted_call_changes_nothing(ledger: Ledger, context: Context, call: Call)
    requires
        ledger.verdict(context, call) is Err,
    ensures
        ledger.step(context, call) == ledger,
{
}

} // verus!
