//! Control firmware logic for a peripheral-controller board: a binary command
//! protocol for digital I/O, analog sensing and an I2C bus master, and the
//! decisions of a serial bridge that forwards bytes between a host channel and
//! a downstream UART.
pub mod bounded;
pub mod bridge;
pub mod control;
pub mod identity;
