use wonderos::button::simple_button::{Polarity, SimpleButton};
use wonderos::debounced_press;
use wonderos::step::Step;

/// A button that is pressed from `pressed_at` until `released_at`, in
/// milliseconds, polled once per millisecond. The timeout runs from the
/// poll that first sees the press. Returns the verdict and when it came.
fn debounce(polarity: Polarity, timeout_ms: u64, pressed_at: u64, released_at: u64) -> (bool, u64) {
    let button = SimpleButton::new((), polarity);
    let mut debounce = debounced_press(&button, timeout_ms);
    assert_eq!(debounce.timeout_ms(), timeout_ms);
    let mut deadline = None;
    for now in 0..10_000u64 {
        let pressed = pressed_at <= now && now < released_at;
        let is_low = match polarity {
            Polarity::ActiveLow => pressed,
            Polarity::ActiveHigh => !pressed,
        };
        let timed_out = deadline.map_or(false, |deadline| now >= deadline);
        match debounce.poll(is_low, timed_out) {
            Step::Completed(verdict) => return (verdict, now),
            Step::Suspended => {
                if debounce.is_racing() && deadline.is_none() {
                    deadline = Some(now + debounce.timeout_ms());
                }
            }
        }
    }
    panic!("the debounce did not resolve");
}

#[test]
fn a_release_after_50_ms_of_100_is_no_press() {
    assert_eq!(debounce(Polarity::ActiveHigh, 100, 0, 50), (false, 50));
}

#[test]
fn a_release_after_150_ms_of_100_is_a_press() {
    assert_eq!(debounce(Polarity::ActiveHigh, 100, 0, 150), (true, 100));
}

#[test]
fn the_race_starts_when_the_press_is_seen() {
    assert_eq!(debounce(Polarity::ActiveLow, 100, 300, 350), (false, 350));
    assert_eq!(debounce(Polarity::ActiveLow, 100, 300, 450), (true, 400));
    assert_eq!(debounce(Polarity::ActiveLow, 200, 300, 450), (false, 450));
}

#[test]
fn a_release_in_the_poll_of_the_timeout_is_a_press() {
    assert_eq!(debounce(Polarity::ActiveHigh, 100, 0, 100), (true, 100));
    assert_eq!(debounce(Polarity::ActiveHigh, 100, 0, 99), (false, 99));
}

#[test]
fn nothing_resolves_before_the_press() {
    let button = SimpleButton::new((), Polarity::ActiveHigh);
    let mut debounce = debounced_press(&button, 100);
    for timed_out in [false, true, true] {
        assert_eq!(debounce.poll(true, timed_out), Step::Suspended);
        assert!(!debounce.is_racing());
    }
    assert_eq!(debounce.poll(false, true), Step::Suspended);
    assert!(debounce.is_racing());
    assert_eq!(debounce.poll(false, false), Step::Suspended);
    assert_eq!(debounce.poll(true, false), Step::Completed(false));
    assert!(!debounce.is_racing());
}
