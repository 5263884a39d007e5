use vstd::prelude::*;

verus! {

/// Which electrical level of the input means that the switch is actuated.
#[derive(PartialEq, Eq, PartialOrd, Clone, Copy, Debug, Structural)]
pub enum Polarity {
    /// A high level means pressed.
    ActiveHigh,
    /// A low level means pressed.
    ActiveLow,
}

/// Whether a sampled level counts as pressed under a polarity.
pub open spec fn level_is_pressed(polarity: Polarity, is_low: bool) -> bool {
    match polarity {
        Polarity::ActiveLow => is_low,
        Polarity::ActiveHigh => !is_low,
    }
}

/// Anything that can say whether it is currently pressed.
pub trait IsButton {
    fn is_pressed(&self) -> bool;
}

/// A button: an input pin together with the polarity of its switch.
///
/// The button owns the pin so that the two travel together, but never reads
/// it: the caller samples the pin and passes the level in.
pub struct SimpleButton<T> {
    button_pin: T,
    polarity: Polarity,
}

impl<T> SimpleButton<T> {
    /// The polarity the button was built with.
    pub closed spec fn polarity(&self) -> Polarity {
        self.polarity
    }

    /// The pin the button was built with.
    pub closed spec fn pin_view(&self) -> T {
        self.button_pin
    }

    /// Creates a button from its input pin and the polarity of the switch.
    pub fn new(pin: T, polarity: Polarity) -> (button: Self)
        ensures
            button.polarity() == polarity,
            button.pin_view() == pin,
    {
        Self { button_pin: pin, polarity }
    }

    pub fn get_polarity(&self) -> (polarity: Polarity)
        ensures
            polarity == self.polarity(),
    {
        self.polarity
    }

    /// The input pin, for the caller to sample.
    pub fn pin(&self) -> (pin: &T)
        ensures
            *pin == self.pin_view(),
    {
        &self.button_pin
    }

    /// Whether the button is pressed, given that its pin was just sampled as
    /// low (`is_low`) or high.
    pub fn is_pressed(&self, is_low: bool) -> (pressed: bool)
        ensures
            pressed == level_is_pressed(self.polarity(), is_low),
    {
        match self.polarity {
            Polarity::ActiveLow => is_low,
            Polarity::ActiveHigh => !is_low,
        }
    }
}

} // verus!
