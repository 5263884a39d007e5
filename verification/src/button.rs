//! A push button behind a digital input: level interpretation and the two
//! suspendable waits built on it.

pub mod async_button;
pub mod simple_button;
