//! The shared hardware timer: a countdown peripheral touched from two
//! priority contexts. Its two observable operations are "start for a
//! duration" and "clear pending/overflow flags"; the exclusivity of access is
//! enforced by the priority ceiling in the orchestration layer, not here.

use vstd::prelude::*;

verus! {

/// Why starting the timer failed.
#[derive(Clone, Copy, Debug, PartialEq, Eq, Structural)]
pub enum TimerError {
    /// The peripheral's clock or prescaler was never configured: a
    /// design-time invariant violation, fatal for the configuration.
    NotConfigured,
}

/// The timer's observable register state.
#[derive(Clone, Copy, Debug, PartialEq, Eq, Structural)]
pub struct HwTimer {
    /// Clock and prescaler set up during peripheral bring-up.
    pub configured: bool,
    /// Counting towards the next overflow.
    pub running: bool,
    /// The programmed period, in microseconds.
    pub interval_us: u32,
    /// The overflow (update) flag, raised by hardware, cleared by software.
    pub overflow_pending: bool,
}

impl HwTimer {
    /// A timer fresh out of peripheral bring-up: not running, no flags.
    pub fn new(configured: bool) -> (t: HwTimer)
        ensures
            t == (HwTimer { configured, running: false, interval_us: 0, overflow_pending: false }),
    {
        HwTimer { configured, running: false, interval_us: 0, overflow_pending: false }
    }

    /// Program the timer to overflow after `interval_us` and start it; a
    /// start while already running reprograms the period. Fails exactly when
    /// the peripheral was never configured.
    pub fn start(&mut self, interval_us: u32) -> (r: Result<(), TimerError>)
        ensures
            if old(self).configured {
                &&& r is Ok
                &&& *final(self) == (HwTimer { running: true, interval_us, ..*old(self) })
            } else {
                &&& r == Err::<(), TimerError>(TimerError::NotConfigured)
                &&& *final(self) == *old(self)
            },
    {
        if self.configured {
            self.running = true;
            self.interval_us = interval_us;
            Ok(())
        } else {
            Err(TimerError::NotConfigured)
        }
    }

    /// Clear all status flags, as the overflow handler must before returning.
    pub fn clear_flags(&mut self)
        ensures
            *final(self) == (HwTimer { overflow_pending: false, ..*old(self) }),
    {
        self.overflow_pending = false;
    }

    /// The hardware raising the overflow flag when the period elapses; only a
    /// running timer overflows.
    pub fn overflow(&mut self)
        requires
            old(self).running,
        ensures
            *final(self) == (HwTimer { overflow_pending: true, ..*old(self) }),
    {
        self.overflow_pending = true;
    }
}

} // verus!
