pub mod ble_client;
pub mod ble_connectionless;
pub mod utils;
