//! Driver logic for the AHT10 capacitive humidity and temperature sensor.
//!
//! The sensor sits on a two-wire bus. It is reset and calibrated once, and
//! then asked for readings: a trigger message, a wait until its status byte
//! no longer says busy, and a six-byte frame that holds twenty bits of
//! humidity and twenty bits of temperature.
//!
//! This crate holds what the driver decides, and leaves what it does to its
//! caller. [`Aht10`] is a state machine: it names the next thing to do on the
//! bus or the clock as an [`Action`], and takes the outcome as an [`Event`]
//! or as the error of the bus. A caller that owns a bus runs the loop:
//!
//! ```text
//! let mut action = driver.pending();
//! loop {
//!     let outcome = /* carry out `action` */;
//!     action = driver.advance(outcome)?;
//!     /* stop at `Ready` or `Report` */
//! }
//! ```
//!
//! The modules, from the wire upwards:
//!
//! - [`address`], [`command`], [`status`]: the bytes that go over the bus;
//! - [`reading`]: raw readings and the layout of the response frame;
//! - [`timing`]: how long the driver waits, in clock cycles;
//! - [`protocol`]: the conversation with the sensor, step by step;
//! - [`driver`]: the executable driver, which follows the protocol;
//! - [`trace`]: what the driver issues over a whole handshake or measurement.

pub mod address;
pub mod command;
pub mod driver;
pub mod protocol;
pub mod reading;
pub mod status;
pub mod timing;
pub mod trace;

pub use address::Address;
pub use command::Command;
pub use driver::Aht10;
pub use protocol::{Action, Event, Phase, Stage};
pub use reading::{Humidity, Temperature};
pub use status::StatusFlags;
