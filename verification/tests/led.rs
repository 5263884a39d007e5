use core::cell::RefCell;
use std::rc::Rc;

use embedded_hal::digital::v2::{OutputPin, PinState};
use wonderos::led::simple_led::SimpleLed;
use wonderos::led::Led;

pub struct MockOutputPin {
    shared: Rc<RefCell<Shared>>,
}

pub struct SpyOutputPin {
    shared: Rc<RefCell<Shared>>,
}

#[derive(Debug, Default)]
struct Shared {
    low_cnt: usize,
    high_cnt: usize,
}

impl MockOutputPin {
    pub fn new() -> (Self, SpyOutputPin) {
        let spy = SpyOutputPin {
            shared: Rc::new(RefCell::new(Shared::default())),
        };
        (
            MockOutputPin {
                shared: spy.shared.clone(),
            },
            spy,
        )
    }
}

impl OutputPin for MockOutputPin {
    type Error = ();

    fn set_low(&mut self) -> Result<(), Self::Error> {
        self.shared.borrow_mut().low_cnt += 1;
        Ok(())
    }

    fn set_high(&mut self) -> Result<(), Self::Error> {
        self.shared.borrow_mut().high_cnt += 1;
        Ok(())
    }
}

impl SpyOutputPin {
    pub fn get_high_cnt(&self) -> usize {
        self.shared.borrow().high_cnt
    }

    pub fn get_low_cnt(&self) -> usize {
        self.shared.borrow().low_cnt
    }
}

/// Drives the light's pin to the level the light decided on.
fn drive(led: &mut SimpleLed<MockOutputPin>, level: PinState) {
    led.pin_mut().set_state(level).unwrap();
}

#[test]
fn simple_led_basic_usage() {
    let (pin_mock, pin_spy) = MockOutputPin::new();
    assert_eq!(pin_spy.get_low_cnt(), 0);
    assert_eq!(pin_spy.get_high_cnt(), 0);
    let mut led = SimpleLed::new(pin_mock);
    let level = led.on();
    drive(&mut led, level);
    assert_eq!(pin_spy.get_high_cnt(), 1);
    let level = led.off();
    drive(&mut led, level);
    assert_eq!(pin_spy.get_low_cnt(), 1);
}

#[test]
fn with_toggle() {
    let (pin_mock, pin_spy) = MockOutputPin::new();
    assert_eq!(pin_spy.get_low_cnt(), 0);
    assert_eq!(pin_spy.get_high_cnt(), 0);
    let mut led = SimpleLed::new(pin_mock);
    let level = led.toggle();
    drive(&mut led, level);
    assert_eq!(pin_spy.get_high_cnt(), 1);
    let level = led.toggle();
    drive(&mut led, level);
    assert_eq!(pin_spy.get_low_cnt(), 1);
}

#[test]
fn toggle_goes_by_its_own_memory_not_by_on_and_off() {
    let (pin_mock, _pin_spy) = MockOutputPin::new();
    let mut led = SimpleLed::new(pin_mock);
    assert_eq!(led.on(), PinState::High);
    assert_eq!(led.toggle(), PinState::High);
    assert_eq!(led.off(), PinState::Low);
    assert_eq!(led.toggle(), PinState::Low);
    assert_eq!(led.toggle(), PinState::High);
}
