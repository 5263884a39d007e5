use vstd::prelude::*;

use crate::led::Led;
use embedded_hal::digital::v2::PinState;

verus! {

/// A light on one output pin.
///
/// Only `toggle` updates the remembered state: after `on` or `off` the next
/// `toggle` still goes by what the last `toggle` left.
pub struct SimpleLed<Pin> {
    pin: Pin,
    is_state_high: bool,
}

impl<Pin> SimpleLed<Pin> {
    /// The output pin the light was built with.
    pub closed spec fn pin_view(&self) -> Pin {
        self.pin
    }

    /// Creates a light that remembers its pin as low.
    pub fn new(pin: Pin) -> (led: Self)
        ensures
            !led.remembered_high(),
            led.pin_view() == pin,
    {
        Self { pin, is_state_high: false }
    }

    /// The output pin, for the caller to drive.
    pub fn pin_mut(&mut self) -> (pin: &mut Pin)
        ensures
            *pin == old(self).pin_view(),
            final(self).pin_view() == *final(pin),
            final(self).remembered_high() == old(self).remembered_high(),
    {
        &mut self.pin
    }
}

impl<Pin> Led for SimpleLed<Pin> {
    closed spec fn remembered_high(&self) -> bool {
        self.is_state_high
    }

    fn on(&mut self) -> (level: PinState)
        ensures
            final(self).remembered_high() == old(self).remembered_high(),
            final(self).pin_view() == old(self).pin_view(),
    {
        PinState::High
    }

    fn off(&mut self) -> (level: PinState)
        ensures
            final(self).remembered_high() == old(self).remembered_high(),
            final(self).pin_view() == old(self).pin_view(),
    {
        PinState::Low
    }

    fn toggle(&mut self) -> (level: PinState)
        ensures
            final(self).pin_view() == old(self).pin_view(),
    {
        if self.is_state_high {
            self.is_state_high = false;
            PinState::Low
        } else {
            self.is_state_high = true;
            PinState::High
        }
    }
}

} // verus!
