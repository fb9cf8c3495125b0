//! Laws of the accounting model: statements that span more than one
//! operation, proved over the same spec functions the operations' own
//! contracts use.

use vstd::prelude::*;

use crate::account::Identity;
use crate::account::PaymentAccount;
use crate::service::WINDOW_SECONDS;
use crate::service::payment_accepted;
use crate::service::payment_step;
use crate::service::spec_reset;
use crate::service::update_limit_step;
use crate::service::window_expired;

verus! {

/// One call of the service, reduced to what it does to the account: a limit
/// update by some caller, or a payment (with whether the value transfer went
/// through, since a port failure still commits the window reset).
pub enum AccountOp {
    UpdateLimit { caller: Identity, new_limit: u64 },
    Payment { amount: u64, now: i64, transferred: bool },
}

/// The account after one call, as the operations' contracts describe it.
pub open spec fn account_after(account: PaymentAccount, op: AccountOp) -> PaymentAccount {
    match op {
        AccountOp::UpdateLimit { caller, new_limit } => update_limit_step(
            account,
            caller,
            new_limit,
        ),
        AccountOp::Payment { amount, now, transferred } => payment_step(
            account,
            amount,
            now,
            transferred,
        ),
    }
}

/// The account after a sequence of calls, applied in order.
pub open spec fn account_after_all(account: PaymentAccount, ops: Seq<AccountOp>) -> PaymentAccount
    decreases ops.len(),
{
    if ops.len() == 0 {
        account
    } else {
        account_after_all(account_after(account, ops[0]), ops.subrange(1, ops.len() as int))
    }
}

/// One call never decreases the lifetime counters and never changes the
/// authority.
pub proof fn lemma_counters_monotonic_step(account: PaymentAccount, op: AccountOp)
    ensures
        account_after(account, op).total_transfers >= account.total_transfers,
        account_after(account, op).total_amount >= account.total_amount,
        account_after(account, op).authority == account.authority,
{
}

/// Across any sequence of calls, `total_transfers` and `total_amount` never
/// decrease, and the authority fixed at creation never changes.
pub proof fn lemma_counters_monotonic(account: PaymentAccount, ops: Seq<AccountOp>)
    ensures
        account_after_all(account, ops).total_transfers >= account.total_transfers,
        account_after_all(account, ops).total_amount >= account.total_amount,
        account_after_all(account, ops).authority == account.authority,
    decreases ops.len(),
{
    if ops.len() > 0 {
        lemma_counters_monotonic_step(account, ops[0]);
        lemma_counters_monotonic(account_after(account, ops[0]), ops.subrange(1, ops.len() as int));
    }
}

/// The window-reset boundary is strict: with the window opened at
/// `last_reset`, a call exactly `WINDOW_SECONDS` later does not reset the
/// running total, and a call one second past that does.
pub proof fn lemma_window_reset_boundary(
    account: PaymentAccount,
    at_boundary: i64,
    past_boundary: i64,
)
    requires
        at_boundary == account.last_reset + WINDOW_SECONDS,
        past_boundary == account.last_reset + WINDOW_SECONDS + 1,
    ensures
        !window_expired(account, at_boundary),
        spec_reset(account, at_boundary) == account,
        window_expired(account, past_boundary),
        spec_reset(account, past_boundary).daily_amount == 0,
        spec_reset(account, past_boundary).last_reset == past_boundary,
{
}

/// Within a still-open daily window, a positive payment whose bookkeeping
/// stays in the numeric range is accepted exactly when the window's running
/// total plus the amount fits the daily limit.
pub proof fn lemma_acceptance_within_open_window(account: PaymentAccount, amount: u64, now: i64)
    requires
        amount > 0,
        now - account.last_reset <= WINDOW_SECONDS,
        account.daily_amount + amount <= u64::MAX,
        account.total_transfers + 1 <= u64::MAX,
        account.total_amount + amount <= u64::MAX,
    ensures
        payment_accepted(account, amount, now) <==> account.daily_amount + amount
            <= account.daily_limit,
{
}

} // verus!
