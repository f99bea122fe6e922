//! Sensor interfaces: register access over some transport.
use vstd::prelude::*;

pub mod spi;
pub mod wire;

verus! {

/// Register-level access to the sensor, whatever the transport.
///
/// The trait carries no contract.  The device handle is verified for every
/// answer an implementation may give.
pub trait SensorInterface {
    /// What a failed access reports.
    type InterfaceError;

    /// Reads the register at `addr`.
    fn register_read(&mut self, addr: u8) -> Result<u8, Self::InterfaceError>;

    /// Stores `val` in the register at `addr`.
    fn register_write(&mut self, addr: u8, val: u8) -> Result<(), Self::InterfaceError>;

    /// Reads the six registers from `reg` on in one transaction, as three
    /// signed 16-bit values.
    fn read_vec3_i16(&mut self, reg: u8) -> Result<[i16; 3], Self::InterfaceError>;
}

} // verus!
