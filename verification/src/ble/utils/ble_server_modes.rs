use vstd::prelude::*;

verus! {

/// The discoverable modes:
/// - `NonDiscoverable`: the device does not advertise itself.
/// - `GeneralDiscoverable(min_interval, max_interval)`: the device advertises
///   continuously, every 20 ms to 10240 ms in 0.625 ms units.
#[derive(Debug, PartialEq, Eq, Structural, Clone, Copy)]
pub enum DiscoverableMode {
    GeneralDiscoverable(u16, u16),
    NonDiscoverable,
}

impl DiscoverableMode {
    /// The discoverable mode code of the BLE stack.
    pub fn get_code(&self) -> (code: u8)
        ensures
            code == match self {
                DiscoverableMode::NonDiscoverable => 0u8,
                DiscoverableMode::GeneralDiscoverable(_, _) => 2u8,
            },
    {
        match self {
            DiscoverableMode::NonDiscoverable => 0,
            DiscoverableMode::GeneralDiscoverable(_, _) => 2,
        }
    }
}

/// The connection modes:
/// - `NonConnectable`: the device does not allow connections.
/// - `UndirectedConnectable`: the device allows connections from any device.
#[derive(Debug, PartialEq, Eq, Structural, Clone, Copy)]
pub enum ConnectionMode {
    NonConnectable,
    UndirectedConnectable,
}

impl ConnectionMode {
    /// The connection mode code of the BLE stack.
    pub fn get_code(&self) -> (code: u8)
        ensures
            code == match self {
                ConnectionMode::NonConnectable => 0u8,
                ConnectionMode::UndirectedConnectable => 2u8,
            },
    {
        match self {
            ConnectionMode::NonConnectable => 0,
            ConnectionMode::UndirectedConnectable => 2,
        }
    }
}

} // verus!
