//! Servo PWM configuration for 16-bit AVR timer/counters: which pins a
//! timer's compare outputs reach, the prescaler and TOP for a frequency,
//! and the compare value for an angle.
pub mod binding;
pub mod emitter;
pub mod registry;
mod sealed;
pub mod timing;
