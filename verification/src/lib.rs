//! Control logic of a Bluetooth-operated test bench: a handheld remote with
//! eight buttons and a joystick talks to a bench server that switches eight
//! relays and drives a stepper motor.

pub mod bench;
pub mod board;
pub mod client;
pub mod colors;
pub mod joystick;
pub mod protocol;
pub mod remote;
pub mod stepper;

pub use client::APP_ID;

use vstd::prelude::*;

verus! {

/// How long the remote may stay idle before it goes to sleep, in seconds.
pub const SLEEP_TIMEOUT_SECS: u64 = 5;

} // verus!
