//! I2C target peripheral register values.
pub mod addr;
pub mod ctrl;
pub mod data;
pub mod status;
