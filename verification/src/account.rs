//! The per-subject account: authority, lifetime counters, and the state of
//! the rolling daily spending window.

use vstd::prelude::*;

verus! {

/// Number of base (smallest indivisible) units in one whole unit of the asset.
pub const BASE_UNITS_PER_WHOLE: u64 = 1_000_000_000;

/// Daily limit a fresh account starts with: 1000 whole units, in base units.
pub const DEFAULT_DAILY_LIMIT: u64 = 1000 * BASE_UNITS_PER_WHOLE;

/// An authenticated principal, as an opaque 256-bit value. The accounting
/// logic only ever compares identities for equality.
#[derive(Clone, Copy, PartialEq, Eq, Structural, Debug)]
pub struct Identity {
    pub w0: u64,
    pub w1: u64,
    pub w2: u64,
    pub w3: u64,
}

/// Rate-limit state and lifetime statistics for one subject.
///
/// `authority` is fixed at creation; only it may change `daily_limit`.
/// `daily_amount` is the value transferred since `last_reset`, the start of
/// the current 24-hour accounting window.
#[derive(Clone, Copy, PartialEq, Eq, Structural, Debug)]
pub struct PaymentAccount {
    pub authority: Identity,
    pub total_transfers: u64,
    pub total_amount: u64,
    pub daily_limit: u64,
    pub daily_amount: u64,
    pub last_reset: i64,
}

impl PaymentAccount {
    /// Timestamps never run backwards past the epoch: `last_reset` is zero at
    /// creation and afterwards always a (non-negative) time of a call.
    pub open spec fn wf(self) -> bool {
        self.last_reset >= 0
    }
}

/// Creates the account for `authority`: counters zeroed, the default daily
/// limit, and no accounting window opened yet (the first payment opens it).
pub fn initialize(authority: Identity) -> (account: PaymentAccount)
    ensures
        account == (PaymentAccount {
            authority,
            total_transfers: 0,
            total_amount: 0,
            daily_limit: DEFAULT_DAILY_LIMIT,
            daily_amount: 0,
            last_reset: 0,
        }),
        account.wf(),
{
    PaymentAccount {
        authority,
        total_transfers: 0,
        total_amount: 0,
        daily_limit: DEFAULT_DAILY_LIMIT,
        daily_amount: 0,
        last_reset: 0,
    }
}

} // verus!
