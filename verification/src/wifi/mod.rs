pub mod http;
pub mod wifi_driver;
