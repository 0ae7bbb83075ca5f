//! Driver for a 16-line I/O expander that sits behind a two-wire register bus.
//!
//! Every line of the device is handed out as a pin of its own; all of them
//! share a single driver, which turns an operation on a set of lines into at
//! most one register operation per 8-line bank.

pub mod bus;
pub mod common;
pub mod dev;
pub mod mock;
pub mod mode;
pub mod mutex;
pub mod pin;

pub use bus::I2cBus;
pub use common::{Direction, PortDriver};
pub use dev::pca9555::{Driver, Parts, Pca9555};
pub use pin::Pin;
