use std::time::Instant;
use vstd::prelude::*;

verus! {

/// `std::time::Instant`, carried through as a value of which nothing is known.
#[verifier::external_type_specification]
#[verifier::external_body]
pub struct ExInstant(Instant);

/// A span of time: whole seconds, and the nanoseconds beyond them.
#[derive(Debug, Clone, Copy, PartialEq, Eq, Structural)]
pub struct Elapsed {
    pub secs: u64,
    pub nanos: u32,
}

impl Elapsed {
    /// Tells whether the span is longer than the given number of seconds
    pub open spec fn exceeds(self, timeout_seconds: u64) -> bool {
        self.secs > timeout_seconds || (self.secs == timeout_seconds && self.nanos > 0)
    }

    /// Tells whether the span is longer than the given number of seconds
    pub fn is_longer_than(&self, timeout_seconds: u64) -> (result: bool)
        ensures
            result == self.exceeds(timeout_seconds),
    {
        self.secs > timeout_seconds || (self.secs == timeout_seconds && self.nanos > 0)
    }
}

/// Reads the clock with `std::time::Instant::now`.
/// Trusted, and nothing is claimed of the instant.
#[verifier::external_body]
pub(crate) fn start_clock() -> Instant {
    Instant::now()
}

/// Measures the time since the instant with `std::time::Instant::elapsed`, and keeps its whole
/// seconds and the nanoseconds beyond them.
/// Trusted, and nothing is claimed of the span.
#[verifier::external_body]
pub(crate) fn elapsed_since(start: &Instant) -> Elapsed {
    let elapsed = start.elapsed();
    Elapsed { secs: elapsed.as_secs(), nanos: elapsed.subsec_nanos() }
}

} // verus!
