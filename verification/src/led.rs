//! A light behind a digital output.

use vstd::prelude::*;

use embedded_hal::digital::v2::PinState;

pub mod simple_led;

verus! {

/// `embedded_hal`'s two-valued pin level, read as the plain enum it is.
#[verifier::external_type_specification]
pub struct ExPinState(PinState);

/// A light that can be switched. Each method decides the level its output
/// pin is to be driven to and returns it; the caller drives the pin.
pub trait Led {
    /// What the light remembers of its own state for `toggle`.
    spec fn remembered_high(&self) -> bool;

    fn on(&mut self) -> (level: PinState)
        ensures
            level == PinState::High,
    ;

    fn off(&mut self) -> (level: PinState)
        ensures
            level == PinState::Low,
    ;

    fn toggle(&mut self) -> (level: PinState)
        ensures
            level == if old(self).remembered_high() {
                PinState::Low
            } else {
                PinState::High
            },
            final(self).remembered_high() == !old(self).remembered_high(),
    ;
}

} // verus!
