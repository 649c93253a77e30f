//! The pause between two requests to the model.

use vstd::prelude::*;

verus! {

/// The shortest time, in milliseconds, between the end of one request to the
/// model and the start of the next.
pub const PACING_INTERVAL_MS: u64 = 1500;

/// When the last request to the model ended, and how long the next one has to
/// wait after that. Times are milliseconds on a clock that the caller chooses.
#[derive(Clone, Copy, Debug, PartialEq, Eq, Structural)]
pub struct RateGate {
    pub last_completed_ms: u64,
    pub interval_ms: u64,
}

impl RateGate {
    /// Whether a request may start at `now_ms`: the interval has passed since
    /// the last request ended.
    pub open spec fn open_at(self, now_ms: u64) -> bool {
        now_ms >= self.last_completed_ms + self.interval_ms
    }

    /// A gate that counts its interval from `now_ms`.
    pub fn new(now_ms: u64, interval_ms: u64) -> (gate: Self)
        ensures
            gate == (RateGate { last_completed_ms: now_ms, interval_ms }),
    {
        RateGate { last_completed_ms: now_ms, interval_ms }
    }

    /// Whether a request may start at `now_ms`.
    pub fn is_open(&self, now_ms: u64) -> (open: bool)
        ensures
            open == self.open_at(now_ms),
    {
        now_ms >= self.last_completed_ms && now_ms - self.last_completed_ms >= self.interval_ms
    }

    /// Notes that a request ended at `now_ms`.
    pub fn record_completion(&mut self, now_ms: u64)
        ensures
            *final(self) == (RateGate {
                last_completed_ms: now_ms,
                interval_ms: old(self).interval_ms,
            }),
    {
        self.last_completed_ms = now_ms;
    }
}

} // verus!
