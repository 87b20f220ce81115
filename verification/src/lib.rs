//! Hardware abstraction layer for MSPM0 microcontrollers.
//!
//! Each driver is a value. A method that writes registers appends the writes it wants, in order, to a
//! [`bus::Bus`]; a method that depends on what a register holds takes that reading as an argument. The
//! program around the library performs the accesses and supplies the readings.

pub mod adc;
pub mod bits;
pub mod bus;
pub mod comp;
pub mod crc;
pub mod dac;
pub mod debugss;
pub mod dma;
pub mod executor;
pub mod flash;
pub mod gpio;
pub mod i2c;
pub mod mode;
pub mod sysctl;
