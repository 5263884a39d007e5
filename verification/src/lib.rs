//! Non-blocking peripheral I/O and synchronisation for a cooperative,
//! interrupt-free task scheduler.
//!
//! Every operation is a resumable object. The task that owns it performs one
//! hardware access per poll, hands what it observed to the operation, and is
//! told whether to yield or what the operation resolved to. The library never
//! touches a peripheral itself: it decides, the caller acts.

pub mod async_spi;
pub mod button;
pub mod debounce;
pub mod handoff;
pub mod l3gd20;
pub mod led;
pub mod lsm303dlhc;
pub mod step;
pub mod word;

pub use debounce::debounced_press;
