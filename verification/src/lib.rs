//! A driver for Senseair Sunrise CO2 sensors on an I2C bus.
pub mod registers;
pub mod bounded;
pub mod codec;
pub mod types;
pub mod program;
pub mod senseair;
pub mod device;
