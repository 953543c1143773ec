pub mod microcontroller;
pub mod peripherals;
