//! Fixed-point time durations over generic integer storage: concrete unit
//! variants (seconds, milliseconds, microseconds), each bound to a rational
//! period, with exact truncating conversion between any two variants and no
//! floating-point arithmetic anywhere.

pub mod arith;
pub mod display;
pub mod duration;
pub mod integer;
pub mod period;
