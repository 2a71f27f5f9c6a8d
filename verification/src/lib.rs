//! Verified core of a HAL for the QEMU RISC-V virt machine with socket-backed peripherals.
//!
//! Each driver's decisions are functions of the register values its caller read: they
//! say which values to write back, what to report and whether to keep waiting. The
//! register accesses, the interrupt plumbing and the waiting are the caller's.
pub mod espi;
pub mod gpio;
pub mod i2c;
pub mod pac;
pub mod uart;
