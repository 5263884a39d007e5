//! A press detector that tells a sustained press from a spurious one.

use vstd::prelude::*;

use crate::button::async_button::{wait_is_over, ButtonAction};
use crate::button::simple_button::{level_is_pressed, SimpleButton};
use crate::step::Step;

verus! {

/// Where a debounce stands.
#[derive(PartialEq, Eq, Clone, Copy, Debug, Structural)]
pub enum DebounceState {
    /// The button has not been seen pressed yet.
    WaitingForPress,
    /// The button was seen pressed: its release races the timeout.
    Racing,
    /// The debounce has resolved.
    Resolved,
}

/// What a poll answers in `state` when the button is (not) pressed and the
/// timeout has (not) elapsed. In the race the timeout is looked at first,
/// so when both happen in one poll the press counts as valid.
pub open spec fn debounce_step(state: DebounceState, pressed: bool, timed_out: bool) -> Step<
    bool,
> {
    if state is Racing && timed_out {
        Step::Completed(true)
    } else if state is Racing && wait_is_over(ButtonAction::WaitForRelease, pressed) {
        Step::Completed(false)
    } else {
        Step::Suspended
    }
}

/// The state after that poll.
pub open spec fn debounce_next(state: DebounceState, pressed: bool, timed_out: bool)
    -> DebounceState {
    match state {
        DebounceState::WaitingForPress => if wait_is_over(ButtonAction::WaitForPress, pressed) {
            DebounceState::Racing
        } else {
            DebounceState::WaitingForPress
        },
        DebounceState::Racing => if debounce_step(state, pressed, timed_out) is Completed {
            DebounceState::Resolved
        } else {
            DebounceState::Racing
        },
        DebounceState::Resolved => DebounceState::Resolved,
    }
}

/// One debounced press of a button, from the first sight of the press to
/// the verdict. It is made for one press and thrown away after.
pub struct DebouncedPress<'a, T> {
    but: &'a SimpleButton<T>,
    timeout_ms: u64,
    state: DebounceState,
}

impl<'a, T> DebouncedPress<'a, T> {
    pub closed spec fn button(&self) -> SimpleButton<T> {
        *self.but
    }

    /// For how long the button has to stay pressed, in milliseconds.
    pub closed spec fn timeout(&self) -> u64 {
        self.timeout_ms
    }

    pub closed spec fn state(&self) -> DebounceState {
        self.state
    }

    /// The length of the race, in milliseconds.
    pub fn timeout_ms(&self) -> (ms: u64)
        ensures
            ms == self.timeout(),
    {
        self.timeout_ms
    }

    /// Whether the release races the timeout. The caller starts the timeout
    /// when a poll turns this to true.
    pub fn is_racing(&self) -> (racing: bool)
        ensures
            racing == (self.state() is Racing),
    {
        match self.state {
            DebounceState::Racing => true,
            _ => false,
        }
    }

    /// One poll, given that the pin was just sampled as low (`is_low`) or
    /// high, and whether the timeout has elapsed (`timed_out`, which counts
    /// only once the race is on).
    ///
    /// Until the button is seen pressed the debounce stays suspended. The
    /// poll that sees the press starts the race and suspends. In the race,
    /// a poll that finds the timeout elapsed resolves to `true`: a valid
    /// press, also when the button was released in that same poll. A poll
    /// that finds the button released before that resolves to `false`: the
    /// press was too short.
    pub fn poll(&mut self, is_low: bool, timed_out: bool) -> (step: Step<bool>)
        requires
            !(old(self).state() is Resolved),
        ensures
            step == debounce_step(
                old(self).state(),
                level_is_pressed(old(self).button().polarity(), is_low),
                timed_out,
            ),
            final(self).state() == debounce_next(
                old(self).state(),
                level_is_pressed(old(self).button().polarity(), is_low),
                timed_out,
            ),
            final(self).button() == old(self).button(),
            final(self).timeout() == old(self).timeout(),
    {
        match self.state {
            DebounceState::WaitingForPress => {
                if self.but.wait_for_press().poll(is_low).is_completed() {
                    self.state = DebounceState::Racing;
                }
                Step::Suspended
            },
            _ => {
                if timed_out {
                    self.state = DebounceState::Resolved;
                    Step::Completed(true)
                } else if self.but.wait_for_release().poll(is_low).is_completed() {
                    self.state = DebounceState::Resolved;
                    Step::Completed(false)
                } else {
                    Step::Suspended
                }
            },
        }
    }
}

/// Begins the debounce of one press of `but`: a press counts as valid when
/// the button is still pressed `timeout_ms` milliseconds after it was first
/// seen pressed.
pub fn debounced_press<T>(but: &SimpleButton<T>, timeout_ms: u64) -> (debounce: DebouncedPress<
    '_,
    T,
>)
    ensures
        debounce.button() == *but,
        debounce.timeout() == timeout_ms,
        debounce.state() == DebounceState::WaitingForPress,
{
    DebouncedPress { but, timeout_ms, state: DebounceState::WaitingForPress }
}

/// The verdict of a debounce goes by which side of the race was seen first:
/// a release seen in a poll before the timeout gives `false`, the timeout
/// seen in a poll with or before the release gives `true`, and no poll
/// before the press was seen can resolve anything.
pub proof fn lemma_debounce_verdict(pressed: bool, timed_out: bool)
    ensures
        debounce_step(DebounceState::WaitingForPress, pressed, timed_out) is Suspended,
        debounce_step(DebounceState::Racing, pressed, true) == Step::Completed(true),
        debounce_step(DebounceState::Racing, false, false) == Step::Completed(false),
        debounce_step(DebounceState::Racing, true, false) is Suspended,
        debounce_next(DebounceState::WaitingForPress, true, timed_out) == DebounceState::Racing,
        debounce_next(DebounceState::WaitingForPress, false, timed_out)
            == DebounceState::WaitingForPress,
{
}

} // verus!
