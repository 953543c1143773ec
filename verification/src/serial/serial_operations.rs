use vstd::prelude::*;

use std::collections::HashMap;

verus! {

/// Errors of the serial helpers.
#[derive(Debug, PartialEq, Eq, Structural, Clone, Copy)]
pub enum SerialError {
    ErrorInReadValue,
}

/// A device whose data can be read and parsed into named values.
pub trait READER {
    fn read_and_parse(&mut self) -> HashMap<String, String>;
}

/// A device to which bytes can be written at an address.
pub trait WRITER {
    fn parse_and_write(&mut self, addr: u8, bytes_to_write: &[u8]) -> Result<(), SerialError>;
}

} // verus!
