use vstd::prelude::*;

use std::time::Instant;

verus! {

/// `std::time::Instant`, a point of the monotonic clock, carried as an opaque
/// value.
#[verifier::external_type_specification]
#[verifier::external_body]
pub struct ExInstant(std::time::Instant);

/// Relies on `std::time::Instant::now` to read the monotonic clock; nothing is
/// promised of the value, which depends on when it is called.
pub assume_specification[ std::time::Instant::now ]() -> std::time::Instant;

/// Relies on `std::time::Instant::elapsed`: the microseconds gone by since
/// `since`. Nothing is promised of the value, which depends on when it is
/// called.
#[verifier::external_body]
fn elapsed_micros(since: &Instant) -> (r: u128) {
    since.elapsed().as_micros()
}

/// Whether an interval timer is still waiting or has run out
#[derive(Clone, Copy, Debug, PartialEq, Eq, Structural)]
pub enum ClockState {
    Finish,
    Progress,
}

/// The state of an interval of `cooldown` microseconds after `elapsed` of them.
pub open spec fn state_after(cooldown: u64, elapsed: u128) -> ClockState {
    if elapsed >= cooldown {
        ClockState::Finish
    } else {
        ClockState::Progress
    }
}

/// An interval timer: it fires once `cooldown` microseconds have gone by since
/// the last time it was rebased.
#[derive(Clone, Copy)]
pub struct Clock {
    /// Length of the interval, in microseconds
    pub cooldown: u64,
    /// When the current interval started
    pub instant: Instant,
}

impl Clock {
    /// An interval timer of `micros` microseconds, starting now.
    pub fn new(micros: u64) -> (r: Self)
        ensures
            r.cooldown == micros,
    {
        Self { cooldown: micros, instant: Instant::now() }
    }

    /// Rebase the interval on the present instant
    pub fn reset(&mut self) -> (r: &mut Self)
        ensures
            r.cooldown == old(self).cooldown,
            *final(self) == *final(r),
    {
        self.instant = Instant::now();
        self
    }

    /// The state of this timer once `elapsed` microseconds have gone by
    pub fn state_at(&self, elapsed: u128) -> (r: ClockState)
        ensures
            r == state_after(self.cooldown, elapsed),
    {
        if elapsed >= self.cooldown as u128 {
            ClockState::Finish
        } else {
            ClockState::Progress
        }
    }

    /// The state of this timer now
    pub fn state(&self) -> (r: ClockState) {
        self.state_at(elapsed_micros(&self.instant))
    }

    /// Fire if `elapsed` microseconds complete the interval: then rebase it and
    /// return true. Otherwise leave the timer as it is and return false.
    pub fn try_reset_at(&mut self, elapsed: u128) -> (r: bool)
        ensures
            r == (state_after(old(self).cooldown, elapsed) == ClockState::Finish),
            final(self).cooldown == old(self).cooldown,
            !r ==> *final(self) == *old(self),
    {
        if self.state_at(elapsed) == ClockState::Finish {
            self.reset();
            true
        } else {
            false
        }
    }

    /// Fire if the interval has run out: then rebase it and return true.
    /// Otherwise leave the timer as it is and return false.
    pub fn try_reset(&mut self) -> (r: bool)
        ensures
            final(self).cooldown == old(self).cooldown,
            !r ==> *final(self) == *old(self),
    {
        let elapsed = elapsed_micros(&self.instant);
        self.try_reset_at(elapsed)
    }
}

} // verus!
