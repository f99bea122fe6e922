//! Register-access driver for the ICM-20948 motion sensor.
//!
//! The sensor exposes four banks of 8-bit registers behind one 7-bit address
//! space; the register at `0x7F` chooses the bank.  The driver is built in
//! layers, leaves first:
//!
//! * [`transport`] names what the driver needs from its surroundings: a
//!   serial bus, a chip-select line and a source of delays.
//! * [`registers`], [`bank`] and [`error`] hold the register map, the banks
//!   and the failures.
//! * [`frame`] is the wire format of one register access.
//! * [`interfaces`] turns register accesses into chip-select framed bus
//!   transactions; [`interfaces::wire`] says what a transaction is.
//! * [`reset`] is the protocol of a device reset.
//! * [`device`] is the handle: the bank selector and the named operations.
//!   [`journal`] says what the handle asks of its interface.
//!
//! The bus is outside the program, so nothing can be proved about what it
//! answers.  What is proved is what the driver asks of it, in which order,
//! and what the driver makes of every possible answer.  Each layer keeps a
//! ghost history ([`history`]) of its dealings with the layer below, and the
//! contracts are stated over those histories.
pub mod bank;
pub mod device;
pub mod error;
pub mod frame;
pub mod history;
pub mod interfaces;
pub mod journal;
pub mod registers;
pub mod reset;
pub mod transport;

pub use bank::Bank;

pub use device::new_spi;
pub use device::ICM20948;
pub use error::Error;
pub use interfaces::spi::SpiInterface;
pub use interfaces::SensorInterface;
