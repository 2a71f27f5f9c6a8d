//! I2C drivers: the controller and the target side.
pub mod controller;
pub mod target;
