use vstd::prelude::*;
use std::time::{Duration, SystemTime};

verus! {

#[verifier::external_type_specification]
#[verifier::external_body]
pub struct ExSystemTime(SystemTime);

/// Relies on `SystemTime::duration_since`: how long after `earlier` the time
/// `later` lies. Where the clock was set back and `later` comes first, the
/// error it returns is read as no time at all. Nothing is stated of the value:
/// it depends on the clock.
#[verifier::external_body]
fn duration_between(later: &SystemTime, earlier: &SystemTime) -> Duration {
    later.duration_since(*earlier).unwrap_or_default()
}

/// A stopwatch: measures the wall time since it was made.
pub struct Timer {
    start_time: SystemTime,
}

impl Timer {
    /// A timer that starts now.
    pub fn new() -> Timer {
        Timer { start_time: Timer::now() }
    }

    /// Relies on `SystemTime::now`: the current wall-clock time, of which
    /// nothing is known in advance.
    #[verifier::external_body]
    fn now() -> SystemTime {
        SystemTime::now()
    }

    /// The wall time since the timer was made; never negative, and zero if
    /// the clock was set back in between.
    pub fn ellapsed(&self) -> Duration {
        let current_time = Timer::now();
        duration_between(&current_time, &self.start_time)
    }
}

} // verus!
