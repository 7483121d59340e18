//! The calls into `embedded_hal`.
//!
//! Nothing is known here of what stands behind a pin or a delay, so nothing is
//! claimed of what these calls return.

use embedded_hal::blocking::delay::DelayMs;
use embedded_hal::digital::v2::{InputPin, OutputPin};
use vstd::prelude::*;

verus! {

/// Asks an input pin whether it is low, by `InputPin::is_low`.
///
/// `Some(true)` is a pin that reads low, `Some(false)` one that reads high and
/// `None` a read that failed. Which of them comes back is up to the pin.
#[verifier::external_body]
pub(crate) fn sample<P: InputPin>(pin: &P) -> (reading: Option<bool>) {
    pin.is_low().ok()
}

/// Drives an output pin low, by `OutputPin::set_low`.
///
/// Returns whether the pin took the level. Nothing is claimed of it.
#[verifier::external_body]
pub(crate) fn drive_low<P: OutputPin>(pin: &mut P) -> (taken: bool) {
    pin.set_low().is_ok()
}

/// Drives an output pin high, by `OutputPin::set_high`.
///
/// Returns whether the pin took the level. Nothing is claimed of it.
#[verifier::external_body]
pub(crate) fn drive_high<P: OutputPin>(pin: &mut P) -> (taken: bool) {
    pin.set_high().is_ok()
}

/// Waits for `ms` milliseconds, by `DelayMs::delay_ms`.
///
/// Nothing is claimed of how long the delay takes.
#[verifier::external_body]
pub(crate) fn pause<D: DelayMs<u16> + ?Sized>(delay: &mut D, ms: u16) {
    delay.delay_ms(ms)
}

} // verus!
