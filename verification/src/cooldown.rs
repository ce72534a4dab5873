//! Cooldowns: how the library waits.
//!
//! Nothing in the game sleeps. Every repeated action owns a stopwatch of the
//! engine and compares its reading with a fixed waiting time on each frame.
//! The reading depends on the clock, so nothing is known about it here; the
//! decisions that follow a reading are functions of the reading and are stated
//! exactly where they are made.

use thomas::Timer;
use vstd::prelude::*;

verus! {

/// The engine's stopwatch. Its inside is the clock's business.
#[verifier::external_type_specification]
#[verifier::external_body]
pub struct ExTimer(Timer);

/// `Timer::new` makes a stopwatch that is not running yet. Nothing is claimed
/// of it.
pub assume_specification[ Timer::new ]() -> (timer: Timer)
;

/// `Timer::start_new` makes a stopwatch and starts it. Nothing is claimed of
/// it.
pub assume_specification[ Timer::start_new ]() -> (timer: Timer)
;

/// `Timer::start` sets the stopwatch running from now. Nothing is claimed of
/// it.
pub assume_specification[ Timer::start ](timer: &mut Timer)
;

/// `Timer::restart` sets the stopwatch back to zero and leaves it running.
/// Nothing is claimed of it.
pub assume_specification[ Timer::restart ](timer: &mut Timer)
;

/// `Timer::elapsed_millis` reads the milliseconds since the last start. The
/// reading depends on the clock: nothing is claimed of it.
pub assume_specification[ Timer::elapsed_millis ](timer: &Timer) -> (millis: u128)
;

/// `Timer::is_running` tells whether the stopwatch was started. Nothing is
/// claimed of it.
pub assume_specification[ Timer::is_running ](timer: &Timer) -> (running: bool)
;

/// A cooldown has expired once the reading has reached the waiting time.
pub open spec fn spec_has_elapsed(elapsed_millis: u128, wait_millis: u128) -> bool {
    elapsed_millis >= wait_millis
}

/// Whether a reading of `elapsed_millis` lets an action with the waiting time
/// `wait_millis` happen.
pub fn has_elapsed(elapsed_millis: u128, wait_millis: u128) -> (expired: bool)
    ensures
        expired == spec_has_elapsed(elapsed_millis, wait_millis),
{
    elapsed_millis >= wait_millis
}

} // verus!
