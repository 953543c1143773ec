pub mod advertised_device;
pub mod ble_error;
pub mod ble_id;
pub mod ble_server_modes;
pub mod connection_information;
pub mod security;
pub mod service;
