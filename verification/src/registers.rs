//! The register map: addresses, bit masks and fixed values.
use vstd::prelude::*;

verus! {

/// Bank selector.  Reachable from every bank.
pub const REG_BANK_SEL: u8 = 0x7F;

/// Identity register (bank 0).
pub const REG_WHO_AM_I: u8 = 0x00;

/// Low-power configuration (bank 0).
pub const REG_LP_CONFIG: u8 = 0x05;

/// Power management 1 (bank 0).
pub const REG_PWR_MGMT_1: u8 = 0x06;

/// Interrupt enable (bank 0).
pub const REG_INT_ENABLE: u8 = 0x10;

/// Interrupt enable 1 (bank 0).
pub const REG_INT_ENABLE_1: u8 = 0x11;

/// Interrupt enable 2 (bank 0).
pub const REG_INT_ENABLE_2: u8 = 0x12;

/// Interrupt enable 3 (bank 0).
pub const REG_INT_ENABLE_3: u8 = 0x13;

/// First of the six accelerometer output registers (bank 0).
pub const REG_ACCEL: u8 = 0x2D;

/// First of the six gyroscope output registers (bank 0).
pub const REG_GYRO: u8 = 0x33;

/// Temperature output, high byte (bank 0).
pub const REG_TEMP_OUT_H: u8 = 0x39;

/// Temperature output, low byte (bank 0).
pub const REG_TEMP_OUT_L: u8 = 0x3A;

/// FIFO enable 2 (bank 0).
pub const REG_FIFO_EN_2: u8 = 0x67;

/// The value the identity register holds on a genuine part.
pub const WHO_AM_I: u8 = 0xEA;

/// Direction flag of the address byte: set for a read, clear for a write.
pub const DIR_READ: u8 = 0x80;

/// Highest register address; the bit above it is the direction flag.
pub const ADDR_MAX: u8 = 0x7F;

/// Power management 1: device reset.  The device clears the bit when the
/// reset is done.
pub const PWR_RESET: u8 = 0x80;

/// Power management 1: low-power enable.
pub const PWR_LOW_POWER: u8 = 0x40;

/// Power management 1: clock source chosen automatically.
pub const PWR_CLK_AUTO: u8 = 0x01;

/// Power management 1 as `setup` leaves it: low power, automatic clock.
pub const PWR_LOW_POWER_CLK_AUTO: u8 = 0x41;

/// Low-power configuration: accelerometer and gyroscope in duty-cycled mode.
pub const LP_DUTY_CYCLED: u8 = 0x30;

/// FIFO enable 2: accelerometer, gyroscope axes and temperature.
pub const FIFO_ALL: u8 = 0x1F;

/// How often the reset bit is read before the device counts as unresponsive.
pub const RESET_ATTEMPTS: usize = 10;

/// Pause after each reading that still shows the reset bit, in milliseconds.
pub const RESET_PAUSE_MS: u8 = 10;

} // verus!
