use vstd::prelude::*;

use crate::microcontroller_src::peripherals::PeripheralError;
use crate::utils::timer_driver::TimerDriverError;

verus! {

/// ATT error: the attribute cannot be read.
pub const ATTRIBUTE_CANNOT_BE_READ: u32 = 258;
/// ATT error: the attribute cannot be written.
pub const ATTRIBUTE_CANNOT_BE_WRITTEN: u32 = 259;
/// NimBLE `BLE_HS_EALREADY`: the operation is already in progress or done.
pub const BLE_HS_EALREADY: u32 = 2;
/// NimBLE `BLE_HS_EINVAL`: one or more arguments are invalid.
pub const BLE_HS_EINVAL: u32 = 3;
/// NimBLE `BLE_HS_EMSGSIZE`: the provided buffer is too small.
pub const BLE_HS_EMSGSIZE: u32 = 4;
/// NimBLE `BLE_HS_ENOTCONN`: no open connection with the specified handle.
pub const BLE_HS_ENOTCONN: u32 = 7;
/// NimBLE `BLE_HS_ETIMEOUT`: operation timed out.
pub const BLE_HS_ETIMEOUT: u32 = 13;
/// NimBLE `BLE_HS_EDONE`: operation completed successfully (already done).
pub const BLE_HS_EDONE: u32 = 14;
/// NimBLE `BLE_HS_EBUSY`: the stack is busy with another operation.
pub const BLE_HS_EBUSY: u32 = 15;
/// NimBLE `BLE_HS_CONN_HANDLE_NONE`: no connection handle.
pub const BLE_HS_CONN_HANDLE_NONE: u32 = 0xffff;

/// Errors when working with BLE.
#[derive(Debug)]
pub enum BleError {
    AdvertisementError,
    AlreadyConnected,
    CanOnlyBeOneBleDriver,
    CharacteristicNotFound,
    CharacteristicNotNotifiable,
    CharacteristicNotReadable,
    CharacteristicNotWritable,
    Code(u32, String),
    ConnectionError,
    CouldNotConnectToDevice,
    DeviceNotConnectable,
    DescriptorNotFound,
    DescriptorNotReadable,
    DescriptorNotWritable,
    DeviceNotFound,
    Disconnected,
    IncorrectHandle,
    InvalidPasskey,
    InvalidParameters,
    NotFound,
    NotReadable,
    NotWritable,
    PeripheralError(PeripheralError),
    PropertiesError,
    ServiceDoesNotFit,
    ServiceNotFound,
    ServiceTooBig,
    ServiceUnknown,
    StartingAdvertisementError,
    StartingFailure,
    StoppingFailure,
    TimeOut,
    TimerDriverError(TimerDriverError),
}

/// The kind of error that a return code of the BLE stack stands for, or
/// `None` for a code kept as it is.
pub open spec fn code_kind(code: u32) -> Option<BleError> {
    if code == ATTRIBUTE_CANNOT_BE_READ {
        Some(BleError::NotReadable)
    } else if code == ATTRIBUTE_CANNOT_BE_WRITTEN {
        Some(BleError::NotWritable)
    } else if code == BLE_HS_CONN_HANDLE_NONE {
        Some(BleError::NotFound)
    } else if code == BLE_HS_EDONE {
        Some(BleError::AlreadyConnected)
    } else if code == BLE_HS_EINVAL {
        Some(BleError::InvalidParameters)
    } else if code == BLE_HS_EMSGSIZE {
        Some(BleError::ServiceDoesNotFit)
    } else if code == BLE_HS_ENOTCONN {
        Some(BleError::DeviceNotFound)
    } else if code == BLE_HS_ETIMEOUT {
        Some(BleError::TimeOut)
    } else {
        None
    }
}

/// The error for a return code of the BLE stack, `message` being the stack's
/// text for it: known codes get a variant of their own, others are kept.
pub open spec fn from_code_is(code: u32, message: String, res: BleError) -> bool {
    match code_kind(code) {
        Some(e) => res == e,
        None => res matches BleError::Code(c, m) && c == code && m == message,
    }
}

impl BleError {
    /// The error for a return code of the BLE stack.
    pub fn from_code(code: u32, message: String) -> (res: BleError)
        ensures
            from_code_is(code, message, res),
    {
        if code == ATTRIBUTE_CANNOT_BE_READ {
            BleError::NotReadable
        } else if code == ATTRIBUTE_CANNOT_BE_WRITTEN {
            BleError::NotWritable
        } else if code == BLE_HS_CONN_HANDLE_NONE {
            BleError::NotFound
        } else if code == BLE_HS_EDONE {
            BleError::AlreadyConnected
        } else if code == BLE_HS_EINVAL {
            BleError::InvalidParameters
        } else if code == BLE_HS_EMSGSIZE {
            BleError::ServiceDoesNotFit
        } else if code == BLE_HS_ENOTCONN {
            BleError::DeviceNotFound
        } else if code == BLE_HS_ETIMEOUT {
            BleError::TimeOut
        } else {
            BleError::Code(code, message)
        }
    }

    /// Wraps a timer driver error.
    pub fn from_timer_driver_error(value: TimerDriverError) -> (res: BleError)
        ensures
            res == BleError::TimerDriverError(value),
    {
        BleError::TimerDriverError(value)
    }

    /// The outcome of stopping an advertisement that the BLE stack answered
    /// with `code`: one that had already stopped is no failure.
    pub fn from_stop_code(code: u32) -> (res: Result<(), BleError>)
        ensures
            code == BLE_HS_EALREADY ==> res is Ok,
            code != BLE_HS_EALREADY ==> res matches Err(BleError::StoppingFailure),
    {
        if code == BLE_HS_EALREADY {
            Ok(())
        } else {
            Err(BleError::StoppingFailure)
        }
    }

    /// The outcome of disconnecting from a device that the BLE stack answered
    /// with `code`: a device that was not connected is no failure; any other
    /// code is the error it stands for.
    pub fn from_disconnect_code(code: u32, message: String) -> (res: Result<(), BleError>)
        ensures
            code == BLE_HS_ENOTCONN ==> res is Ok,
            code != BLE_HS_ENOTCONN ==> (res matches Err(e) && from_code_is(code, message, e)),
    {
        match Self::from_code(code, message) {
            BleError::DeviceNotFound => Ok(()),
            e => Err(e),
        }
    }

    /// Wraps a peripheral error.
    pub fn from_peripheral_error(value: PeripheralError) -> (res: BleError)
        ensures
            res == BleError::PeripheralError(value),
    {
        BleError::PeripheralError(value)
    }

    /// The error for a code met while working with a service.
    pub fn from_service_context(code: u32, message: String) -> (res: BleError)
        ensures
            code_kind(code) matches Some(e) ==> res == spec_service_context(e),
            code_kind(code) is None ==> from_code_is(code, message, res),
    {
        Self::from_code(code, message).service_context()
    }

    /// The error for a code met while working with a characteristic.
    pub fn from_characteristic_context(code: u32, message: String) -> (res: BleError)
        ensures
            code_kind(code) matches Some(e) ==> res == spec_characteristic_context(e),
            code_kind(code) is None ==> from_code_is(code, message, res),
    {
        Self::from_code(code, message).characteristic_context()
    }

    /// The error for a code met while connecting.
    pub fn from_connection_context(code: u32, message: String) -> (res: BleError)
        ensures
            code_kind(code) matches Some(e) ==> res == spec_connection_context(e),
            code_kind(code) is None ==> from_code_is(code, message, res),
    {
        Self::from_code(code, message).connection_context()
    }

    /// The error for a code met while setting connection parameters.
    pub fn from_connection_params_context(code: u32, message: String) -> (res: BleError)
        ensures
            code_kind(code) matches Some(e) ==> res == spec_connection_params_context(e),
            code_kind(code) is None ==> from_code_is(code, message, res),
    {
        Self::from_code(code, message).connection_params_context()
    }

    /// The error for a code met while working with a descriptor.
    pub fn from_descriptors_context(code: u32, message: String) -> (res: BleError)
        ensures
            code_kind(code) matches Some(e) ==> res == spec_descriptor_context(e),
            code_kind(code) is None ==> from_code_is(code, message, res),
    {
        Self::from_code(code, message).descriptor_context()
    }

    /// Reads an error in the context of a service.
    pub fn service_context(self) -> (res: BleError)
        ensures
            res == spec_service_context(self),
    {
        match self {
            BleError::DeviceNotFound => BleError::Disconnected,
            BleError::NotFound => BleError::ServiceNotFound,
            _ => self,
        }
    }

    /// Reads an error in the context of a characteristic.
    pub fn characteristic_context(self) -> (res: BleError)
        ensures
            res == spec_characteristic_context(self),
    {
        match self {
            BleError::DeviceNotFound => BleError::Disconnected,
            BleError::NotFound => BleError::CharacteristicNotFound,
            BleError::NotReadable => BleError::CharacteristicNotReadable,
            BleError::NotWritable => BleError::CharacteristicNotWritable,
            _ => self,
        }
    }

    /// Reads an error in the context of a descriptor.
    pub fn descriptor_context(self) -> (res: BleError)
        ensures
            res == spec_descriptor_context(self),
    {
        match self {
            BleError::DeviceNotFound => BleError::Disconnected,
            BleError::NotFound => BleError::DescriptorNotFound,
            BleError::NotReadable => BleError::DescriptorNotReadable,
            BleError::NotWritable => BleError::DescriptorNotWritable,
            _ => self,
        }
    }

    /// Reads an error in the context of a connection.
    pub fn connection_context(self) -> (res: BleError)
        ensures
            res == spec_connection_context(self),
    {
        match self {
            BleError::TimeOut => BleError::CouldNotConnectToDevice,
            BleError::DeviceNotFound => BleError::Disconnected,
            _ => self,
        }
    }

    /// Reads an error in the context of connection parameters.
    pub fn connection_params_context(self) -> (res: BleError)
        ensures
            res == spec_connection_params_context(self),
    {
        match self {
            BleError::DeviceNotFound => BleError::Disconnected,
            BleError::TimeOut => BleError::ConnectionError,
            _ => self,
        }
    }
}

pub open spec fn spec_service_context(e: BleError) -> BleError {
    match e {
        BleError::DeviceNotFound => BleError::Disconnected,
        BleError::NotFound => BleError::ServiceNotFound,
        _ => e,
    }
}

pub open spec fn spec_characteristic_context(e: BleError) -> BleError {
    match e {
        BleError::DeviceNotFound => BleError::Disconnected,
        BleError::NotFound => BleError::CharacteristicNotFound,
        BleError::NotReadable => BleError::CharacteristicNotReadable,
        BleError::NotWritable => BleError::CharacteristicNotWritable,
        _ => e,
    }
}

pub open spec fn spec_descriptor_context(e: BleError) -> BleError {
    match e {
        BleError::DeviceNotFound => BleError::Disconnected,
        BleError::NotFound => BleError::DescriptorNotFound,
        BleError::NotReadable => BleError::DescriptorNotReadable,
        BleError::NotWritable => BleError::DescriptorNotWritable,
        _ => e,
    }
}

pub open spec fn spec_connection_context(e: BleError) -> BleError {
    match e {
        BleError::TimeOut => BleError::CouldNotConnectToDevice,
        BleError::DeviceNotFound => BleError::Disconnected,
        _ => e,
    }
}

pub open spec fn spec_connection_params_context(e: BleError) -> BleError {
    match e {
        BleError::DeviceNotFound => BleError::Disconnected,
        BleError::TimeOut => BleError::ConnectionError,
        _ => e,
    }
}

} // verus!
