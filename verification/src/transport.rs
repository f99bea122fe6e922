//! What the driver needs from its surroundings.
//!
//! These traits are the whole of the driver's dependence on hardware.  They
//! carry no contract: an implementation may answer anything, and the driver
//! is verified for every answer.
use vstd::prelude::*;

verus! {

/// A full-duplex, byte-oriented serial bus.
pub trait SpiBus {
    /// What the bus reports when a transfer fails.
    type Error;

    /// Sends `words` and overwrites them with the bytes received meanwhile.
    fn transfer(&mut self, words: &mut [u8]) -> Result<(), Self::Error>;

    /// Sends `words` and discards what is received.
    fn write(&mut self, words: &[u8]) -> Result<(), Self::Error>;
}

/// The chip-select line.  Low marks a transaction in progress, high an idle
/// bus.
pub trait ChipSelect {
    /// What the line reports when it cannot be driven.
    type Error;

    /// Drives the line low.
    fn set_low(&mut self) -> Result<(), Self::Error>;

    /// Drives the line high.
    fn set_high(&mut self) -> Result<(), Self::Error>;
}

/// A source of blocking delays.
pub trait DelayMs {
    /// Returns after `ms` milliseconds.
    fn delay_ms(&mut self, ms: u8);
}

} // verus!
