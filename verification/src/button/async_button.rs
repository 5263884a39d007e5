use vstd::prelude::*;

use super::simple_button::{level_is_pressed, SimpleButton};
use crate::step::Step;

verus! {

/// The edge a wait on a button resolves at.
#[derive(PartialEq, Eq, Clone, Copy, Debug, Structural)]
pub enum ButtonAction {
    WaitForRelease,
    WaitForPress,
}

/// Whether a wait for `action` resolves when the button is (not) pressed.
pub open spec fn wait_is_over(action: ButtonAction, pressed: bool) -> bool {
    match action {
        ButtonAction::WaitForPress => pressed,
        ButtonAction::WaitForRelease => !pressed,
    }
}

/// A suspendable wait for a button to be pressed or released.
///
/// The wait keeps nothing between polls, so it may be abandoned at any time.
pub struct AsyncButton<'a, T> {
    button_action: ButtonAction,
    but: &'a SimpleButton<T>,
}

impl<'a, T> AsyncButton<'a, T> {
    /// The edge this wait resolves at.
    pub closed spec fn action(&self) -> ButtonAction {
        self.button_action
    }

    /// The button this wait watches.
    pub closed spec fn button(&self) -> SimpleButton<T> {
        *self.but
    }

    pub fn new(but: &'a SimpleButton<T>, button_action: ButtonAction) -> (wait: Self)
        ensures
            wait.action() == button_action,
            wait.button() == *but,
    {
        Self { button_action, but }
    }

    /// One poll, given that the pin was just sampled as low (`is_low`) or
    /// high. Resolves as soon as the button is in the awaited position and
    /// stays suspended otherwise.
    pub fn poll(&self, is_low: bool) -> (step: Step<()>)
        ensures
            step == if wait_is_over(
                self.action(),
                level_is_pressed(self.button().polarity(), is_low),
            ) {
                Step::Completed(())
            } else {
                Step::Suspended
            },
    {
        let pressed = self.but.is_pressed(is_low);
        match self.button_action {
            ButtonAction::WaitForPress => {
                if pressed {
                    Step::Completed(())
                } else {
                    Step::Suspended
                }
            },
            ButtonAction::WaitForRelease => {
                if !pressed {
                    Step::Completed(())
                } else {
                    Step::Suspended
                }
            },
        }
    }
}

impl<T> SimpleButton<T> {
    /// A wait that resolves once the button is pressed.
    pub fn wait_for_press(&self) -> (wait: AsyncButton<'_, T>)
        ensures
            wait.action() == ButtonAction::WaitForPress,
            wait.button() == *self,
    {
        AsyncButton::new(self, ButtonAction::WaitForPress)
    }

    /// A wait that resolves once the button is released.
    pub fn wait_for_release(&self) -> (wait: AsyncButton<'_, T>)
        ensures
            wait.action() == ButtonAction::WaitForRelease,
            wait.button() == *self,
    {
        AsyncButton::new(self, ButtonAction::WaitForRelease)
    }
}

} // verus!
