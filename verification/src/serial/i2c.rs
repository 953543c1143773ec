use vstd::prelude::*;

use crate::microcontroller_src::peripherals::{Peripheral, PeripheralError};
use crate::utils::esp32_framework_error::{ESP_ERR_INVALID_ARG, ESP_ERR_NO_MEM, ESP_ERR_TIMEOUT};

verus! {

/// The default I2C bus frequency, in kHz.
pub const DEFAULT_BAUDRATE_KHZ: u32 = 100;

/// Errors that can come up when working with the I2C drivers.
#[derive(Debug, PartialEq, Eq, Structural, Clone, Copy)]
pub enum I2CError {
    BufferTooSmall,
    DriverError,
    ErrorInReadValue,
    InvalidArg,
    InvalidPeripheral,
    InvalidPin,
    NoMoreHeapMemory,
    PeripheralError(PeripheralError),
    Temp,
    TimeoutError,
}

impl I2CError {
    /// The error for a failure to create the master driver.
    pub fn from_driver_creation_code(code: i32) -> (res: I2CError)
        ensures
            res == if code == ESP_ERR_INVALID_ARG {
                I2CError::InvalidArg
            } else {
                I2CError::DriverError
            },
    {
        if code == ESP_ERR_INVALID_ARG {
            I2CError::InvalidArg
        } else {
            I2CError::DriverError
        }
    }

    /// The error for a failed read or write of the master driver.
    pub fn from_master_transfer_code(code: i32) -> (res: I2CError)
        ensures
            res == if code == ESP_ERR_INVALID_ARG {
                I2CError::InvalidArg
            } else if code == ESP_ERR_NO_MEM {
                I2CError::BufferTooSmall
            } else {
                I2CError::NoMoreHeapMemory
            },
    {
        if code == ESP_ERR_INVALID_ARG {
            I2CError::InvalidArg
        } else if code == ESP_ERR_NO_MEM {
            I2CError::BufferTooSmall
        } else {
            I2CError::NoMoreHeapMemory
        }
    }

    /// The error for a failed read or write of the slave driver.
    pub fn from_slave_transfer_code(code: i32) -> (res: I2CError)
        ensures
            res == if code == ESP_ERR_TIMEOUT {
                I2CError::TimeoutError
            } else {
                I2CError::InvalidArg
            },
    {
        if code == ESP_ERR_TIMEOUT {
            I2CError::TimeoutError
        } else {
            I2CError::InvalidArg
        }
    }

    /// Wraps a peripheral error.
    pub fn from_peripheral_error(value: PeripheralError) -> (res: I2CError)
        ensures
            res == I2CError::PeripheralError(value),
    {
        I2CError::PeripheralError(value)
    }
}

/// The GPIO numbers of the SDA and SCL pins of an I2C bus, or
/// `I2CError::InvalidPin` when either peripheral cannot be turned into an IO
/// pin (the SDA pin is checked first).
pub fn i2c_io_pins(sda: Peripheral, scl: Peripheral) -> (res: Result<(u8, u8), I2CError>)
    ensures
        match (sda.spec_io_pin(), scl.spec_io_pin()) {
            (Some(d), Some(c)) => res == Ok::<(u8, u8), I2CError>((d, c)),
            _ => res == Err::<(u8, u8), I2CError>(I2CError::InvalidPin),
        },
{
    let d = match sda.io_pin_number() {
        Ok(n) => n,
        Err(_) => return Err(I2CError::InvalidPin),
    };
    let c = match scl.io_pin_number() {
        Ok(n) => n,
        Err(_) => return Err(I2CError::InvalidPin),
    };
    Ok((d, c))
}

} // verus!
