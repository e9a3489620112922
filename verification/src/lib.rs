//! A modular sound-synthesis engine, verified with Verus.
//!
//! Audio samples, frequencies, durations and control values are carried as
//! fixed-point numbers: an `i64` counts millionths, so `fx::FX_ONE` stands
//! for 1.0.  Every arithmetic step saturates at the `i64` range instead of
//! overflowing, and every public operation states its result exactly over
//! that fixed-point model.

pub mod cmd;
pub mod delay;
pub mod env;
pub mod filt;
pub mod fx;
pub mod guide;
pub mod midi;
pub mod ops;
pub mod osc;
pub mod rack;
pub mod sig;
pub mod verb;
