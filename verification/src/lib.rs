//! Verified core of a HAL for the Renesas RA4M1 (Arduino Uno R4).
//!
//! Each module holds the decisions and register arithmetic of one driver: divider
//! solvers, register words, and the sequencing of polled transfers. Performing the
//! register accesses they describe is left to the caller.
pub mod adc;
pub mod clock;
pub mod delay;
pub mod i2c;
pub mod mstp;
pub mod pwm;
pub mod serial;
pub mod spi;
pub mod timer;
pub mod gpio;
