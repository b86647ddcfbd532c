//! The timeout watchdog's decision rule. The watchdog itself runs on an
//! independent schedule beside the foreground invocation; each round it
//! compares the elapsed time against the configured budget and either
//! signals the interrupt or sleeps a coarse interval: about a second, or
//! the remaining budget, whichever is smaller.

use vstd::prelude::*;

verus! {

/// What the watchdog does on one polling round.
#[derive(Debug, Clone, Copy, PartialEq, Eq, Structural)]
pub enum WatchdogAction {
    /// The budget has elapsed: interrupt the in-flight execution. Firing
    /// after natural completion is a harmless no-op.
    Interrupt,
    /// Sleep this many milliseconds and poll again.
    Sleep(u64),
}

/// The polling interval: a second, or what is left of the budget.
pub open spec fn spec_poll_interval(elapsed_ms: u64, timeout_ms: u64) -> u64
    recommends
        elapsed_ms < timeout_ms,
{
    if timeout_ms - elapsed_ms < 1000 {
        (timeout_ms - elapsed_ms) as u64
    } else {
        1000u64
    }
}

/// One watchdog round: interrupt exactly when the elapsed time has
/// reached the budget, otherwise wait out the next interval.
pub open spec fn spec_watchdog_step(elapsed_ms: u64, timeout_ms: u64) -> WatchdogAction {
    if elapsed_ms >= timeout_ms {
        WatchdogAction::Interrupt
    } else {
        WatchdogAction::Sleep(spec_poll_interval(elapsed_ms, timeout_ms))
    }
}

/// Decides one watchdog round from the stopwatch reading and the
/// configured budget, both in milliseconds.
pub fn watchdog_step(elapsed_ms: u64, timeout_ms: u64) -> (r: WatchdogAction)
    ensures
        r == spec_watchdog_step(elapsed_ms, timeout_ms),
        (r == WatchdogAction::Interrupt) == (elapsed_ms >= timeout_ms),
{
    if elapsed_ms >= timeout_ms {
        WatchdogAction::Interrupt
    } else {
        let remaining = timeout_ms - elapsed_ms;
        if remaining < 1000 {
            WatchdogAction::Sleep(remaining)
        } else {
            WatchdogAction::Sleep(1000)
        }
    }
}

} // verus!
