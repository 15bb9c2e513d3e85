//! Firmware core for a button-and-timer LED counter.
//!
//! The device reacts to two hardware events, a button edge and a periodic
//! timer overflow. A fixed-priority dispatcher turns each interrupt into a
//! queued invocation of one of three handlers; the lowest-priority handler
//! owns a bounded counting state machine and drives four active-low LEDs
//! from its value, re-arming the shared timer while counting is active.

pub mod dispatcher;
pub mod firmware;
pub mod output;
pub mod state;
pub mod timer;
