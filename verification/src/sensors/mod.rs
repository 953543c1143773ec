pub mod bme280;
pub mod ds3231;
