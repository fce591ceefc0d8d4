//! Drivers for three SAMD21 peripherals, written without any hardware
//! access: the analog-to-digital converter, a serial block wired as an I2C
//! slave, and the watchdog timer.
//!
//! A driver here never touches a register. It says which register access
//! comes next and is told what the hardware answered; the caller owns the
//! peripheral and makes the access. Everything a driver decides is a total
//! function of what it was told, and is proved against a model.

pub mod adc;
pub mod i2c_slave;
pub mod sequencer;
pub mod watchdog;

pub use adc::Adc;
pub use i2c_slave::{I2CSlave, I2CSlaveError};
pub use watchdog::WatchdogTimer;
