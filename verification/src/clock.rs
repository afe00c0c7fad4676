//! What the clock is asked, and what it answers.
use vstd::prelude::*;

verus! {

/// The clock's readings.
#[verifier::external_type_specification]
#[verifier::external_body]
pub struct ExInstant(std::time::Instant);

/// `Instant::now`: a reading of the clock, of which nothing is promised.
pub assume_specification[ std::time::Instant::now ]() -> std::time::Instant
;

/// An answer of the clock: whether it can represent the time that many seconds after a reading.
/// Only asking the clock makes one.
#[derive(Clone, Copy, Debug)]
pub struct ClockAnswer {
    since: std::time::Instant,
    seconds: u64,
    reached: bool,
}

impl ClockAnswer {
    /// The reading that the clock was asked about.
    pub closed spec fn since(self) -> std::time::Instant {
        self.since
    }

    /// The seconds that the clock was asked about.
    pub closed spec fn asked(self) -> u64 {
        self.seconds
    }

    /// The clock can represent that time.
    pub closed spec fn reached(self) -> bool {
        self.reached
    }

    /// Whether the clock can represent that time.
    pub fn is_reached(&self) -> (r: bool)
        ensures
            r == self.reached(),
    {
        self.reached
    }
}

/// `Instant::checked_add`: asks the clock whether it can represent the time that many seconds
/// after `now`. The answer carries the question. The clock can for no seconds at all, since `now`
/// is such a time; otherwise that depends on the machine and on the reading, so nothing more is
/// promised.
#[verifier::external_body]
pub(crate) fn clock_reaches(now: &std::time::Instant, seconds: u64) -> (r: ClockAnswer)
    ensures
        r.since() == *now,
        r.asked() == seconds,
        seconds == 0 ==> r.reached(),
{
    let later = now.checked_add(std::time::Duration::from_secs(seconds));
    ClockAnswer { since: *now, seconds, reached: later.is_some() }
}

} // verus!
