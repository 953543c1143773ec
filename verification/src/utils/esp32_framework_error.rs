use vstd::prelude::*;

use crate::ble::utils::ble_error::BleError;
use crate::gpio::analog::analog_in::AnalogInError;
use crate::gpio::analog::analog_in_pwm::AnalogInPwmError;
use crate::gpio::analog::analog_out::AnalogOutError;
use crate::gpio::digital::digital_in::DigitalInError;
use crate::gpio::digital::digital_out::DigitalOutError;
use crate::microcontroller_src::peripherals::PeripheralError;
use crate::serial::i2c::I2CError;
use crate::serial::uart::UARTError;
use crate::utils::timer_driver::TimerDriverError;
use crate::wifi::wifi_driver::WifiError;

verus! {

/// `ESP_FAIL`: generic failure.
pub const ESP_FAIL: i32 = -1;
/// `ESP_ERR_NO_MEM`: out of memory.
pub const ESP_ERR_NO_MEM: i32 = 0x101;
/// `ESP_ERR_INVALID_ARG`: invalid argument.
pub const ESP_ERR_INVALID_ARG: i32 = 0x102;
/// `ESP_ERR_INVALID_STATE`: invalid state.
pub const ESP_ERR_INVALID_STATE: i32 = 0x103;
/// `ESP_ERR_NOT_FOUND`: requested resource not found.
pub const ESP_ERR_NOT_FOUND: i32 = 0x105;
/// `ESP_ERR_TIMEOUT`: operation timed out.
pub const ESP_ERR_TIMEOUT: i32 = 0x107;

/// The errors of every driver of the framework.
#[derive(Debug)]
pub enum Esp32FrameworkError {
    AnalogIn(AnalogInError),
    AnalogInPwm(AnalogInPwmError),
    AnalogOut(AnalogOutError),
    Ble(BleError),
    CantHaveMoreThanOneMicrocontroller,
    DigitalIn(DigitalInError),
    DigitalOut(DigitalOutError),
    I2c(I2CError),
    TimerDriver(TimerDriverError),
    Uart(UARTError),
    Wifi(WifiError),
}

/// Errors of the ADC driver.
#[derive(Debug)]
pub enum AdcDriverError {
    AlreadyTaken,
    Code(i32, String),
    ClockError,
    InvalidArgs,
    NoMemory,
    PeripheralError(PeripheralError),
}

impl AdcDriverError {
    /// The ADC driver error for an ESP-IDF error code; `message` describes
    /// codes that have no variant of their own.
    pub fn from_code(code: i32, message: String) -> (res: AdcDriverError)
        ensures
            code == ESP_ERR_INVALID_ARG ==> res is InvalidArgs,
            code == ESP_ERR_NO_MEM ==> res is NoMemory,
            code == ESP_ERR_NOT_FOUND ==> res is AlreadyTaken,
            code == ESP_FAIL ==> res is ClockError,
            code != ESP_ERR_INVALID_ARG && code != ESP_ERR_NO_MEM && code != ESP_ERR_NOT_FOUND
                && code != ESP_FAIL ==> (res matches AdcDriverError::Code(c, m) && c == code && m
                == message),
    {
        if code == ESP_ERR_INVALID_ARG {
            AdcDriverError::InvalidArgs
        } else if code == ESP_ERR_NO_MEM {
            AdcDriverError::NoMemory
        } else if code == ESP_ERR_NOT_FOUND {
            AdcDriverError::AlreadyTaken
        } else if code == ESP_FAIL {
            AdcDriverError::ClockError
        } else {
            AdcDriverError::Code(code, message)
        }
    }

    /// Wraps a peripheral error.
    pub fn from_peripheral_error(value: PeripheralError) -> (res: AdcDriverError)
        ensures
            res == AdcDriverError::PeripheralError(value),
    {
        AdcDriverError::PeripheralError(value)
    }
}

} // verus!
