//! Core runtime of a telemetry and fan-control daemon: a sensor registry with
//! bounded-history ring buffers, a broadcast event bus with per-subscriber
//! bounded queues, a persistence model for sensor configuration and PWM
//! set-points, the wire-frame codec and session state machine, and the
//! decision logic of script-driven virtual sensors.
//!
//! Floating-point samples and duty cycles are carried as their IEEE-754 bit
//! patterns (`u64` for samples, `u32` for duty cycles), so that the rules the
//! runtime applies to them (rejecting NaN and negative samples, clamping duty
//! cycles) are stated and proved over plain integers.
use vstd::prelude::*;

pub mod bus;
pub mod kv;
pub mod net;
pub mod pwm;
pub mod registry;
pub mod sample;
pub mod store;
pub mod virt;
pub mod sensor;

verus! {

/// Instance-wide settings: the name reported to clients and the per-sensor
/// history capacity.
pub struct Config {
    pub name: String,
    pub retention: usize,
}

} // verus!
