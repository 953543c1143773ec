use vstd::prelude::*;

verus! {

/// A Bluetooth device address: its six bytes, least significant first (the
/// order the BLE stack keeps them in), and the code of its kind (public,
/// random, public identity or random identity).
#[derive(Debug, Clone, Copy)]
pub struct BleAddress {
    pub le_bytes: [u8; 6],
    pub addr_type: u8,
}

/// What the BLE stack describes of a connection, as plain values.
#[derive(Debug, Clone, Copy)]
pub struct ConnectionDescription {
    pub address: BleAddress,
    pub id_address: BleAddress,
    pub conn_handle: u16,
    pub interval: u16,
    pub timeout: u16,
    pub latency: u16,
    pub mtu: u16,
    pub bonded: bool,
    pub encrypted: bool,
    pub authenticated: bool,
    pub sec_key_size: u32,
    /// The signal strength in dBm, or the error code of reading it.
    pub rssi: Result<i8, u32>,
}

/// What the server reports of a connection: the connection's description,
/// and for a disconnection the error code of the disconnection, if any.
#[derive(Debug, Clone, Copy)]
pub struct ConnectionInformation {
    pub address: BleAddress,
    pub id_address: BleAddress,
    pub conn_handle: u16,
    pub interval: u16,
    pub timeout: u16,
    pub latency: u16,
    pub mtu: u16,
    pub bonded: bool,
    pub encrypted: bool,
    pub authenticated: bool,
    pub sec_key_size: u32,
    pub rssi: Result<i8, u32>,
    pub disconnection_result: Option<u32>,
}

/// The disconnection result that a report carries: for a device that is no
/// longer connected, the error code of the disconnection (if it failed);
/// nothing for a connected device.
pub open spec fn spec_disconnection_result(is_connected: bool, desc_res: Result<(), u32>) -> Option<u32> {
    if is_connected {
        None
    } else {
        match desc_res {
            Ok(_) => None,
            Err(code) => Some(code),
        }
    }
}

/// The result of a disconnection that a connection report carries.
pub fn disconnection_result(is_connected: bool, desc_res: Result<(), u32>) -> (res: Option<u32>)
    ensures
        res == spec_disconnection_result(is_connected, desc_res),
{
    if is_connected {
        return None;
    }
    match desc_res {
        Ok(_) => None,
        Err(code) => Some(code),
    }
}

impl ConnectionInformation {
    /// The report of a connection from its description. `is_connected` tells
    /// a connection from a disconnection, and `desc_res` is the outcome of the
    /// disconnection, as an error code.
    pub fn from_bleconn_desc(desc: &ConnectionDescription, is_connected: bool, desc_res: Result<
        (),
        u32,
    >) -> (res: Self)
        ensures
            res.address == desc.address,
            res.id_address == desc.id_address,
            res.conn_handle == desc.conn_handle,
            res.interval == desc.interval,
            res.timeout == desc.timeout,
            res.latency == desc.latency,
            res.mtu == desc.mtu,
            res.bonded == desc.bonded,
            res.encrypted == desc.encrypted,
            res.authenticated == desc.authenticated,
            res.sec_key_size == desc.sec_key_size,
            res.rssi == desc.rssi,
            res.disconnection_result == spec_disconnection_result(is_connected, desc_res),
    {
        ConnectionInformation {
            address: desc.address,
            id_address: desc.id_address,
            conn_handle: desc.conn_handle,
            interval: desc.interval,
            timeout: desc.timeout,
            latency: desc.latency,
            mtu: desc.mtu,
            bonded: desc.bonded,
            encrypted: desc.encrypted,
            authenticated: desc.authenticated,
            sec_key_size: desc.sec_key_size,
            rssi: desc.rssi,
            disconnection_result: disconnection_result(is_connected, desc_res),
        }
    }
}

} // verus!
