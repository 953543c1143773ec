pub mod i2c;
pub mod serial_operations;
pub mod uart;
