//! A framework of abstractions for IoT applications on the ESP32: the register
//! codecs, schedulers, state machines and bookkeeping that sit between a user's
//! program and the microcontroller's drivers, each with a verified contract.

pub mod ble;
pub mod esp_test_runner;
pub mod gpio;
pub mod microcontroller_src;
pub mod sensors;
pub mod serial;
pub mod utils;
pub mod wifi;

pub use utils::timer_driver;
