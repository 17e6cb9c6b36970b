//! Verified core of a fan controller: switch readings are turned into PWM pulse
//! codes, and a tiny HTTP handler exposes health and Prometheus metrics.

pub mod http;
pub mod maths;
pub mod metrics;
pub mod prom;
pub mod pwm;
pub mod switches;
pub mod wifi;

use vstd::prelude::*;

verus! {

/// The position of the rotary switches, as decoded from the ADC.
pub type SwitchValue = u16;

} // verus!
