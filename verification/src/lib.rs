//! Hash-board controller core for boards that carry a chain of BM1387 chips.
//!
//! The crate holds the decisions of the driver and none of its I/O: every
//! procedure returns the hardware operations to perform, as plain data, and
//! every value that was read from the hardware comes in as an argument.

pub mod error;
pub mod hal;
