use vstd::prelude::*;

use crate::ble::utils::ble_error::BleError;

verus! {

/// The time between scans used when none is set, in milliseconds.
pub const MS_BETWEEN_SCANS: u16 = 100;

/// The scan interval and scan window for a time between scans: the interval
/// is at least 1, and the window is one less than the interval but at least 1.
pub fn scan_interval_and_window(ms_between_scans: u16) -> (res: (u16, u16))
    ensures
        res.0 == if ms_between_scans >= 1 {
            ms_between_scans
        } else {
            1
        },
        res.1 == if ms_between_scans >= 2 {
            ms_between_scans - 1
        } else {
            1
        },
        1 <= res.1 <= res.0,
{
    let interval = if ms_between_scans >= 1 {
        ms_between_scans
    } else {
        1
    };
    let window = if ms_between_scans >= 2 {
        ms_between_scans
    } else {
        2
    } - 1;
    (interval, window)
}

/// Whether a remote characteristic can be read: `CharacteristicNotReadable`
/// when it is not readable.
pub fn remote_read_check(readable: bool) -> (res: Result<(), BleError>)
    ensures
        readable ==> res is Ok,
        !readable ==> res matches Err(BleError::CharacteristicNotReadable),
{
    if readable {
        Ok(())
    } else {
        Err(BleError::CharacteristicNotReadable)
    }
}

/// How a remote characteristic is written: `Ok(true)` to wait for a
/// response, `Ok(false)` when it is written without response, and
/// `CharacteristicNotWritable` when it can be written neither way.
pub fn remote_write_mode(writable: bool, writable_no_resp: bool) -> (res: Result<bool, BleError>)
    ensures
        !writable && !writable_no_resp ==> res matches Err(BleError::CharacteristicNotWritable),
        writable || writable_no_resp ==> res == Ok::<bool, BleError>(!writable_no_resp),
{
    if !writable && !writable_no_resp {
        return Err(BleError::CharacteristicNotWritable);
    }
    Ok(!writable_no_resp)
}

/// Whether notifications of a remote characteristic can be subscribed to:
/// `CharacteristicNotNotifiable` when it does not notify.
pub fn remote_notify_check(notifiable: bool) -> (res: Result<(), BleError>)
    ensures
        notifiable ==> res is Ok,
        !notifiable ==> res matches Err(BleError::CharacteristicNotNotifiable),
{
    if notifiable {
        Ok(())
    } else {
        Err(BleError::CharacteristicNotNotifiable)
    }
}

/// The outcome of a scan for a device to connect to: the device that met the
/// condition, or `BleError::TimeOut` when none did before the scan ended.
pub fn scan_outcome<T>(found: Option<T>) -> (res: Result<T, BleError>)
    ensures
        match found {
            Some(d) => res == Ok::<T, BleError>(d),
            None => res == Err::<T, BleError>(BleError::TimeOut),
        },
{
    match found {
        Some(d) => Ok(d),
        None => Err(BleError::TimeOut),
    }
}

} // verus!
