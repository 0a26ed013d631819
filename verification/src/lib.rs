//! Driver for the TMP1075 I2C temperature sensor.
//!
//! The crate is split into a register map ([`registers`]), the typed values
//! of the configuration register's bit fields ([`register_settings`]), and
//! the device driver itself ([`tmp1075`]), which sequences bus transactions
//! through a transport supplied by the application.

pub mod register_settings;
pub mod registers;
pub mod tmp1075;

pub use register_settings::{AlertFunction, AlertPolarity, ConsecutiveFaults, ConversionRate,
    PowerMode};
pub use registers::Register;
pub use tmp1075::{convert_temperature_msb, convert_temperature_q4, BusOp, I2cBus, Tmp1075,
    DEFAULT_I2C_ADDRESS};
