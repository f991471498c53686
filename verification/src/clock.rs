//! The time budget of a crawl.

use vstd::prelude::*;

verus! {

/// A number of milliseconds brought into 64 bits: itself where it fits,
/// else the largest number that does.
pub open spec fn clamp_millis(ms: u128) -> u64 {
    if ms > u64::MAX {
        u64::MAX
    } else {
        ms as u64
    }
}

/// Brings a number of milliseconds into 64 bits, saturating.
pub fn millis_u64(ms: u128) -> (r: u64)
    ensures
        r == clamp_millis(ms),
{
    if ms > u64::MAX as u128 {
        u64::MAX
    } else {
        ms as u64
    }
}

/// Whether a budget of `limit_ms` milliseconds is spent once `elapsed_ms`
/// have gone by.
pub open spec fn is_spent(elapsed_ms: u64, limit_ms: u64) -> bool {
    elapsed_ms >= limit_ms
}

/// Tells whether a budget of `limit_ms` milliseconds is spent once
/// `elapsed_ms` have gone by.
pub fn budget_spent(elapsed_ms: u64, limit_ms: u64) -> (b: bool)
    ensures
        b == is_spent(elapsed_ms, limit_ms),
{
    elapsed_ms >= limit_ms
}

/// A budget of time that began to run when it was made.
#[derive(Debug, Clone, Copy)]
pub struct Deadline {
    started: std::time::Instant,
    limit_ms: u64,
}

impl Deadline {
    /// The milliseconds that the budget allows.
    pub closed spec fn limit(&self) -> u64 {
        self.limit_ms
    }

    /// A budget of `limit_ms` milliseconds that runs from now.
    pub fn starting_now(limit_ms: u64) -> (d: Deadline)
        ensures
            d.limit() == limit_ms,
    {
        Deadline { started: std::time::Instant::now(), limit_ms }
    }

    /// The milliseconds that the budget allows.
    pub fn limit_ms(&self) -> (ms: u64)
        ensures
            ms == self.limit(),
    {
        self.limit_ms
    }

    /// The milliseconds gone by since the budget began to run, as the clock
    /// has them now.
    pub fn elapsed_ms(&self) -> u64 {
        let gone = self.started.elapsed();
        millis_u64(gone.as_millis())
    }

    /// Whether the budget is spent, as the clock has it now. A budget of
    /// nothing is spent from the start.
    pub fn expired(&self) -> (b: bool)
        ensures
            self.limit() == 0 ==> b,
    {
        budget_spent(self.elapsed_ms(), self.limit_ms)
    }
}

} // verus!
