use vstd::prelude::*;

use crate::microcontroller_src::peripherals::{Peripheral, PeripheralError};

verus! {

/// The default baudrate of a UART.
pub const DEFAULT_BAUDRATE: u32 = 115_200;

/// Errors when working with a UART.
#[derive(Debug, PartialEq, Eq, Structural, Clone, Copy)]
pub enum UARTError {
    DriverError,
    InvalidBaudrate,
    InvalidPeripheral(PeripheralError),
    InvalidPin,
    InvalidUartNumber,
    ReadError,
    WriteError,
}

/// The stop bits of a UART frame.
#[derive(Debug, PartialEq, Eq, Structural, Clone, Copy)]
pub enum StopBit {
    One,
    OnePointFive,
    Two,
}

/// The parity of a UART frame.
#[derive(Debug, PartialEq, Eq, Structural, Clone, Copy)]
pub enum Parity {
    Even,
    Odd,
    NoParity,
}

/// The baudrates a UART accepts.
pub open spec fn is_supported_baudrate(b: u32) -> bool {
    b == 110 || b == 300 || b == 600 || b == 1200 || b == 2400 || b == 4800 || b == 9600 || b
        == 14400 || b == 19200 || b == 38400 || b == 57600 || b == 115200 || b == 128000 || b
        == 256000 || b == 460800 || b == 921600 || b == 1843200 || b == 3686400
}

/// The standard baudrates of a UART, from the slowest.
pub open spec fn standard_baudrates() -> Seq<u32> {
    seq![
        110u32,
        300,
        600,
        1200,
        2400,
        4800,
        9600,
        14400,
        19200,
        38400,
        57600,
        115200,
        128000,
        256000,
        460800,
        921600,
        1843200,
        3686400,
    ]
}

/// A UART accepts exactly the standard baudrates: each of 110, 300, 600,
/// 1200, 2400, 4800, 9600, 14400, 19200, 38400, 57600, 115200, 128000,
/// 256000, 460800, 921600, 1843200 and 3686400 is accepted (and converted to
/// itself in hertz), and no other rate is.
pub proof fn lemma_standard_baudrates_accepted(b: u32)
    ensures
        is_supported_baudrate(110),
        is_supported_baudrate(300),
        is_supported_baudrate(600),
        is_supported_baudrate(1200),
        is_supported_baudrate(2400),
        is_supported_baudrate(4800),
        is_supported_baudrate(9600),
        is_supported_baudrate(14400),
        is_supported_baudrate(19200),
        is_supported_baudrate(38400),
        is_supported_baudrate(57600),
        is_supported_baudrate(115200),
        is_supported_baudrate(128000),
        is_supported_baudrate(256000),
        is_supported_baudrate(460800),
        is_supported_baudrate(921600),
        is_supported_baudrate(1843200),
        is_supported_baudrate(3686400),
        is_supported_baudrate(b) <==> standard_baudrates().contains(b),
{
    let s = standard_baudrates();
    if is_supported_baudrate(b) {
        if b == 110 { assert(s[0] == b); }
        else if b == 300 { assert(s[1] == b); }
        else if b == 600 { assert(s[2] == b); }
        else if b == 1200 { assert(s[3] == b); }
        else if b == 2400 { assert(s[4] == b); }
        else if b == 4800 { assert(s[5] == b); }
        else if b == 9600 { assert(s[6] == b); }
        else if b == 14400 { assert(s[7] == b); }
        else if b == 19200 { assert(s[8] == b); }
        else if b == 38400 { assert(s[9] == b); }
        else if b == 57600 { assert(s[10] == b); }
        else if b == 115200 { assert(s[11] == b); }
        else if b == 128000 { assert(s[12] == b); }
        else if b == 256000 { assert(s[13] == b); }
        else if b == 460800 { assert(s[14] == b); }
        else if b == 921600 { assert(s[15] == b); }
        else if b == 1843200 { assert(s[16] == b); }
        else { assert(s[17] == b); }
    }
}

/// The frequency in hertz of a baudrate, or `InvalidBaudrate` for a baudrate
/// that is not supported.
pub fn baudrate_to_hertz(baudrate: u32) -> (res: Result<u32, UARTError>)
    ensures
        is_supported_baudrate(baudrate) ==> res == Ok::<u32, UARTError>(baudrate),
        !is_supported_baudrate(baudrate) ==> res == Err::<u32, UARTError>(
            UARTError::InvalidBaudrate,
        ),
{
    match baudrate {
        110 | 300 | 600 | 1200 | 2400 | 4800 | 9600 | 14400 | 19200 | 38400 | 57600 | 115200
        | 128000 | 256000 | 460800 | 921600 | 1843200 | 3686400 => Ok(baudrate),
        _ => Err(UARTError::InvalidBaudrate),
    }
}

/// The configuration of a UART: baudrate in hertz, parity and stop bits.
#[derive(Debug, PartialEq, Eq, Structural, Clone, Copy)]
pub struct UartConfig {
    pub baudrate_hz: u32,
    pub parity: Parity,
    pub stop_bits: StopBit,
}

/// The configuration for the given baudrate, parity and stop bits.
pub fn set_config(baudrate: u32, parity: Parity, stopbit: StopBit) -> (res: Result<
    UartConfig,
    UARTError,
>)
    ensures
        is_supported_baudrate(baudrate) ==> res == Ok::<UartConfig, UARTError>(
            UartConfig { baudrate_hz: baudrate, parity, stop_bits: stopbit },
        ),
        !is_supported_baudrate(baudrate) ==> res == Err::<UartConfig, UARTError>(
            UARTError::InvalidBaudrate,
        ),
{
    let bd = baudrate_to_hertz(baudrate)?;
    Ok(UartConfig { baudrate_hz: bd, parity, stop_bits: stopbit })
}

/// The default configuration: 115200 baud, no parity, one stop bit.
pub fn default_config() -> (res: UartConfig)
    ensures
        res == (UartConfig {
            baudrate_hz: DEFAULT_BAUDRATE,
            parity: Parity::NoParity,
            stop_bits: StopBit::One,
        }),
{
    UartConfig { baudrate_hz: DEFAULT_BAUDRATE, parity: Parity::NoParity, stop_bits: StopBit::One }
}

/// The number of the UART controller that a peripheral is: only UART 0 and
/// UART 1 exist.
pub fn uart_number(uart_peripheral: Peripheral) -> (res: Result<u8, UARTError>)
    ensures
        match uart_peripheral {
            Peripheral::Uart(n) => if n <= 1 {
                res == Ok::<u8, UARTError>(n)
            } else {
                res == Err::<u8, UARTError>(UARTError::InvalidUartNumber)
            },
            _ => res == Err::<u8, UARTError>(UARTError::InvalidUartNumber),
        },
{
    match uart_peripheral {
        Peripheral::Uart(n) => {
            if n <= 1 {
                Ok(n)
            } else {
                Err(UARTError::InvalidUartNumber)
            }
        },
        _ => Err(UARTError::InvalidUartNumber),
    }
}

/// The GPIO numbers of the TX and RX pins of a UART, or `UARTError::InvalidPin`
/// when either peripheral cannot be turned into an IO pin (the RX pin is
/// checked first).
pub fn uart_io_pins(tx: Peripheral, rx: Peripheral) -> (res: Result<(u8, u8), UARTError>)
    ensures
        match (tx.spec_io_pin(), rx.spec_io_pin()) {
            (Some(t), Some(r)) => res == Ok::<(u8, u8), UARTError>((t, r)),
            _ => res == Err::<(u8, u8), UARTError>(UARTError::InvalidPin),
        },
{
    let r = match rx.io_pin_number() {
        Ok(n) => n,
        Err(_) => return Err(UARTError::InvalidPin),
    };
    let t = match tx.io_pin_number() {
        Ok(n) => n,
        Err(_) => return Err(UARTError::InvalidPin),
    };
    Ok((t, r))
}

} // verus!
