//! The payment operations: changing the daily limit and sending a payment
//! against the rolling-window accounting of a `PaymentAccount`.

use vstd::prelude::*;

use crate::account::Identity;
use crate::account::PaymentAccount;

verus! {

/// Length of the rolling accounting window, in seconds.
pub const WINDOW_SECONDS: i64 = 86400;

/// Storage budget for a transfer record's memo, in characters.
pub const MEMO_MAX_LEN: usize = 100;

/// Why the service itself refused an operation.
///
/// `Overflow` is the fatal case: a counter addition would exceed the numeric
/// range. It is surfaced, never clamped or wrapped.
#[derive(Clone, Copy, PartialEq, Eq, Structural, Debug)]
pub enum PaymentError {
    InvalidAmount,
    DailyLimitExceeded,
    Unauthorized,
    Overflow,
}

/// Everything `send_payment` can fail with: a refusal of the service's own,
/// or the value-transfer port's error, passed through verbatim.
#[derive(Clone, Copy, PartialEq, Eq, Debug)]
pub enum PaymentFailure<E> {
    Payment(PaymentError),
    Transfer(E),
}

/// Immutable receipt of one completed transfer.
#[derive(Clone, PartialEq, Eq, Debug)]
pub struct PaymentHistory {
    pub sender: Identity,
    pub receiver: Identity,
    pub amount: u64,
    pub memo: String,
    pub timestamp: i64,
}

impl PaymentHistory {
    /// A receipt records a positive amount and a memo within the fixed
    /// storage budget.
    pub open spec fn wf(self) -> bool {
        self.amount > 0 && self.memo@.len() <= MEMO_MAX_LEN
    }
}

/// Notification of one completed transfer, handed to an event sink
/// best-effort; it carries the same fields as the receipt.
#[derive(Clone, PartialEq, Eq, Debug)]
pub struct PaymentEvent {
    pub sender: Identity,
    pub receiver: Identity,
    pub amount: u64,
    pub memo: String,
    pub timestamp: i64,
}

impl PaymentEvent {
    /// The notification for a committed transfer: the receipt's five fields,
    /// verbatim.
    pub fn of_record(record: &PaymentHistory) -> (event: PaymentEvent)
        ensures
            event.sender == record.sender,
            event.receiver == record.receiver,
            event.amount == record.amount,
            event.memo == record.memo,
            event.timestamp == record.timestamp,
    {
        PaymentEvent {
            sender: record.sender,
            receiver: record.receiver,
            amount: record.amount,
            memo: record.memo.clone(),
            timestamp: record.timestamp,
        }
    }
}

/// The accounting window has expired: strictly more than a day has passed
/// since it was opened (exactly `WINDOW_SECONDS` elapsed does not count).
pub open spec fn window_expired(account: PaymentAccount, now: i64) -> bool {
    now - account.last_reset > WINDOW_SECONDS
}

/// The account as the rolling-window step of a payment at `now` leaves it:
/// a fresh window if the old one has expired, unchanged otherwise.
pub open spec fn spec_reset(account: PaymentAccount, now: i64) -> PaymentAccount {
    if window_expired(account, now) {
        PaymentAccount { daily_amount: 0, last_reset: now, ..account }
    } else {
        account
    }
}

/// Adding `amount` to the window's running total stays in the numeric range.
pub open spec fn daily_fits(account: PaymentAccount, amount: u64) -> bool {
    account.daily_amount + amount <= u64::MAX
}

/// The payment keeps the window's running total within the daily limit.
pub open spec fn within_limit(account: PaymentAccount, amount: u64) -> bool {
    account.daily_amount + amount <= account.daily_limit
}

/// Committing the payment keeps both lifetime counters in the numeric range.
pub open spec fn totals_fit(account: PaymentAccount, amount: u64) -> bool {
    account.total_transfers + 1 <= u64::MAX && account.total_amount + amount <= u64::MAX
}

/// The account with one successful payment of `amount` committed.
pub open spec fn spec_commit(account: PaymentAccount, amount: u64) -> PaymentAccount
    recommends
        daily_fits(account, amount),
        totals_fit(account, amount),
{
    PaymentAccount {
        total_transfers: (account.total_transfers + 1) as u64,
        total_amount: (account.total_amount + amount) as u64,
        daily_amount: (account.daily_amount + amount) as u64,
        ..account
    }
}

/// The value-transfer port, called on `amount`, reported success: some
/// `Ok` result is among what its contract allows it to have returned.
pub open spec fn port_succeeded<E, F: FnOnce(u64) -> Result<(), E>>(port: F, amount: u64) -> bool {
    exists|res: Result<(), E>| #[trigger] call_ensures(port, (amount,), res) && res is Ok
}

/// The service's own acceptance condition for a payment: every check it
/// makes itself. When this holds, the payment goes through unless the
/// value-transfer port fails.
pub open spec fn payment_accepted(account: PaymentAccount, amount: u64, now: i64) -> bool {
    let reset = spec_reset(account, now);
    amount > 0 && daily_fits(reset, amount) && within_limit(reset, amount) && totals_fit(
        reset,
        amount,
    )
}

/// What one `send_payment` call does to the account, as a function of whether
/// the value transfer went through: the window-reset side effect always
/// commits (for a non-zero amount), the counters only on full success.
pub open spec fn payment_step(
    account: PaymentAccount,
    amount: u64,
    now: i64,
    transferred: bool,
) -> PaymentAccount {
    if amount == 0 {
        account
    } else {
        let reset = spec_reset(account, now);
        if daily_fits(reset, amount) && within_limit(reset, amount) && transferred && totals_fit(
            reset,
            amount,
        ) {
            spec_commit(reset, amount)
        } else {
            reset
        }
    }
}

/// What `update_daily_limit` does to the account: the new limit if the caller
/// is the authority, no change otherwise.
pub open spec fn update_limit_step(
    account: PaymentAccount,
    caller: Identity,
    new_limit: u64,
) -> PaymentAccount {
    if caller == account.authority {
        PaymentAccount { daily_limit: new_limit, ..account }
    } else {
        account
    }
}

/// Replaces the daily limit, if and only if the caller is the account's
/// authority; any other caller is refused with `Unauthorized` and changes
/// nothing. The new limit is not checked against the window's running total:
/// a lowered limit may leave the account over limit until the next reset.
pub fn update_daily_limit(account: &mut PaymentAccount, caller: &Identity, new_limit: u64) -> (r:
    Result<(), PaymentError>)
    ensures
        *final(account) == update_limit_step(*old(account), *caller, new_limit),
        (r is Ok) <==> *caller == old(account).authority,
        r matches Err(e) ==> e == PaymentError::Unauthorized && *final(account) == *old(account),
        final(account).authority == old(account).authority,
        final(account).total_transfers == old(account).total_transfers,
        final(account).total_amount == old(account).total_amount,
        final(account).daily_amount == old(account).daily_amount,
        final(account).last_reset == old(account).last_reset,
{
    if !(*caller == account.authority) {
        return Err(PaymentError::Unauthorized);
    }
    account.daily_limit = new_limit;
    Ok(())
}

/// Validates and accounts for one payment, delegating the actual movement of
/// value to `port` (called with the amount; at most once).
///
/// In order: a zero amount is refused; an expired window is reset (a side
/// effect that stays committed whatever follows); the payment must fit the
/// daily limit; the port moves the value; only then are the counters
/// committed and the receipt built. Any counter addition that would leave the
/// numeric range fails with `Overflow` and commits nothing beyond the reset.
pub fn send_payment<E, F: FnOnce(u64) -> Result<(), E>>(
    account: &mut PaymentAccount,
    sender: &Identity,
    receiver: &Identity,
    amount: u64,
    memo: String,
    now: i64,
    port: F,
) -> (r: Result<PaymentHistory, PaymentFailure<E>>)
    requires
        old(account).wf(),
        now >= 0,
        memo@.len() <= MEMO_MAX_LEN,
        call_requires(port, (amount,)),
    ensures
        final(account).wf(),
        // What the account becomes, tied to the outcome:
        (r matches Ok(_)) ==> *final(account) == payment_step(*old(account), amount, now, true),
        (r matches Err(_)) ==> *final(account) == payment_step(*old(account), amount, now, false),
        // Each refusal of the service's own, if and only if its cause:
        (r matches Err(PaymentFailure::Payment(PaymentError::InvalidAmount))) <==> amount == 0,
        amount == 0 ==> *final(account) == *old(account),
        (r matches Err(PaymentFailure::Payment(PaymentError::DailyLimitExceeded))) <==> (amount > 0
            && daily_fits(spec_reset(*old(account), now), amount) && !within_limit(
            spec_reset(*old(account), now),
            amount,
        )),
        amount > 0 && !daily_fits(spec_reset(*old(account), now), amount) ==> r == Err::<
            PaymentHistory,
            PaymentFailure<E>,
        >(PaymentFailure::Payment(PaymentError::Overflow)),
        (r matches Err(PaymentFailure::Payment(PaymentError::Overflow))) ==> amount > 0 && (
        !daily_fits(spec_reset(*old(account), now), amount) || (within_limit(
            spec_reset(*old(account), now),
            amount,
        ) && !totals_fit(spec_reset(*old(account), now), amount) && port_succeeded(port, amount))),
        // A port failure is passed through verbatim, and only the port's own:
        r matches Err(PaymentFailure::Transfer(e)) ==> amount > 0 && daily_fits(
            spec_reset(*old(account), now),
            amount,
        ) && within_limit(spec_reset(*old(account), now), amount) && call_ensures(
            port,
            (amount,),
            Err::<(), E>(e),
        ),
        // Success: owed whenever the service accepts, unless the port fails;
        // and on success the receipt is exact and the port did report success.
        payment_accepted(*old(account), amount, now) ==> ((r matches Ok(_)) || (r matches Err(
            PaymentFailure::Transfer(_),
        ))),
        r matches Ok(rec) ==> payment_accepted(*old(account), amount, now) && rec.sender
            == *sender && rec.receiver == *receiver && rec.amount == amount && rec.memo == memo
            && rec.timestamp == now && rec.wf() && port_succeeded(port, amount),
        // A failed payment leaves every counter as it was, except that an
        // expired window's running total has been reset:
        (r matches Err(_)) ==> final(account).total_transfers == old(account).total_transfers
            && final(account).total_amount == old(account).total_amount && (
        final(account).daily_amount == old(account).daily_amount || (window_expired(
            *old(account),
            now,
        ) && final(account).daily_amount == 0)),
        // Lifetime counters never decrease; authority and limit never change:
        final(account).total_transfers >= old(account).total_transfers,
        final(account).total_amount >= old(account).total_amount,
        final(account).authority == old(account).authority,
        final(account).daily_limit == old(account).daily_limit,
        // After a successful payment the window total is within the limit:
        (r matches Ok(_)) ==> final(account).daily_amount <= final(account).daily_limit,
{
    if amount == 0 {
        return Err(PaymentFailure::Payment(PaymentError::InvalidAmount));
    }
    if now - account.last_reset > WINDOW_SECONDS {
        account.daily_amount = 0;
        account.last_reset = now;
    }
    let new_daily = match account.daily_amount.checked_add(amount) {
        Some(v) => v,
        None => {
            return Err(PaymentFailure::Payment(PaymentError::Overflow));
        },
    };
    if new_daily > account.daily_limit {
        return Err(PaymentFailure::Payment(PaymentError::DailyLimitExceeded));
    }
    let ported = port(amount);
    match ported {
        Ok(()) => {
            proof {
                // `ported` is the witness that the port reported success.
                assert(call_ensures(port, (amount,), ported) && ported is Ok);
            }
        },
        Err(e) => {
            return Err(PaymentFailure::Transfer(e));
        },
    }
    let new_transfers = match account.total_transfers.checked_add(1) {
        Some(v) => v,
        None => {
            return Err(PaymentFailure::Payment(PaymentError::Overflow));
        },
    };
    let new_total = match account.total_amount.checked_add(amount) {
        Some(v) => v,
        None => {
            return Err(PaymentFailure::Payment(PaymentError::Overflow));
        },
    };
    account.total_transfers = new_transfers;
    account.total_amount = new_total;
    account.daily_amount = new_daily;
    Ok(
        PaymentHistory {
            sender: *sender,
            receiver: *receiver,
            amount,
            memo,
            timestamp: now,
        },
    )
}

} // verus!
