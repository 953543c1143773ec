use vstd::prelude::*;

use crate::ble::utils::ble_error::BleError;

verus! {

/// The greatest passkey: six decimal digits.
pub const MAX_PASKEY: u32 = 999999;
/// Authorization requirement: allow bonding.
pub const AUTH_REQ_BOND: u8 = 0b001;
/// Authorization requirement: man-in-the-middle protection.
pub const AUTH_REQ_MITM: u8 = 0b010;
/// Authorization requirement: secure connection pairing.
pub const AUTH_REQ_SC: u8 = 0b100;

/// The input and output capabilities of the device, which decide the
/// pairing method:
/// - `DisplayOnly`: can display information but cannot receive input.
/// - `DisplayYesNo`: can display information and yes/no questions.
/// - `KeyboardOnly`: can receive input through a keyboard.
/// - `KeyboardDisplay`: can receive input through a keyboard and display.
/// - `NoInputNoOutput`: neither displays nor receives input.
#[derive(Debug, PartialEq, Eq, Structural, Clone, Copy)]
pub enum IOCapabilities {
    DisplayOnly,
    DisplayYesNo,
    KeyboardOnly,
    KeyboardDisplay,
    NoInputNoOutput,
}

impl IOCapabilities {
    /// The capability code of the BLE stack.
    pub open spec fn spec_code(self) -> u8 {
        match self {
            IOCapabilities::DisplayOnly => 0,
            IOCapabilities::DisplayYesNo => 1,
            IOCapabilities::KeyboardOnly => 2,
            IOCapabilities::NoInputNoOutput => 3,
            IOCapabilities::KeyboardDisplay => 4,
        }
    }

    /// The capability code of the BLE stack.
    pub fn get_code(&self) -> (code: u8)
        ensures
            code == self.spec_code(),
    {
        match self {
            IOCapabilities::DisplayOnly => 0,
            IOCapabilities::DisplayYesNo => 1,
            IOCapabilities::KeyboardOnly => 2,
            IOCapabilities::NoInputNoOutput => 3,
            IOCapabilities::KeyboardDisplay => 4,
        }
    }
}

/// What a secure BLE server needs:
/// - `passkey`: at most six decimal digits,
/// - `auth_mode`: the combination of authorization requirements,
/// - `io_capabilities`: the device's input and output capabilities.
#[derive(Debug)]
pub struct Security {
    pub passkey: u32,
    pub auth_mode: u8,
    pub io_capabilities: IOCapabilities,
}

/// The authorization mode with `flag` added (`value`) or removed.
pub open spec fn toggled(mode: u8, value: bool, flag: u8) -> u8 {
    if value {
        mode | flag
    } else {
        mode & !flag
    }
}

impl Security {
    /// A security configuration with no authorization requirements, or
    /// `InvalidPasskey` when the passkey has more than six digits.
    pub fn new(passkey: u32, io_capabilities: IOCapabilities) -> (res: Result<Self, BleError>)
        ensures
            passkey > MAX_PASKEY ==> res matches Err(BleError::InvalidPasskey),
            passkey <= MAX_PASKEY ==> (res matches Ok(s) && s.passkey == passkey && s.auth_mode == 0
                && s.io_capabilities == io_capabilities),
    {
        if passkey > MAX_PASKEY {
            return Err(BleError::InvalidPasskey);
        }
        Ok(Security { passkey, auth_mode: 0, io_capabilities })
    }

    /// Adds (`value`) or removes an authorization requirement.
    fn toggle(&mut self, value: bool, flag: u8) -> (res: &mut Self)
        ensures
            res.auth_mode == toggled(old(self).auth_mode, value, flag),
            res.passkey == old(self).passkey,
            res.io_capabilities == old(self).io_capabilities,
            *final(self) == *final(res),
    {
        if value {
            self.auth_mode = self.auth_mode | flag;
        } else {
            self.auth_mode = self.auth_mode & !flag;
        }
        self
    }

    /// Adds or removes bonding: paired devices remember each other.
    pub fn allow_bonding(&mut self, value: bool) -> (res: &mut Self)
        ensures
            res.auth_mode == toggled(old(self).auth_mode, value, AUTH_REQ_BOND),
            res.passkey == old(self).passkey,
            res.io_capabilities == old(self).io_capabilities,
            *final(self) == *final(res),
    {
        self.toggle(value, AUTH_REQ_BOND)
    }

    /// Adds or removes man-in-the-middle protection.
    pub fn man_in_the_middle(&mut self, value: bool) -> (res: &mut Self)
        ensures
            res.auth_mode == toggled(old(self).auth_mode, value, AUTH_REQ_MITM),
            res.passkey == old(self).passkey,
            res.io_capabilities == old(self).io_capabilities,
            *final(self) == *final(res),
    {
        self.toggle(value, AUTH_REQ_MITM)
    }

    /// Adds or removes secure connection pairing.
    pub fn secure_connection(&mut self, value: bool) -> (res: &mut Self)
        ensures
            res.auth_mode == toggled(old(self).auth_mode, value, AUTH_REQ_SC),
            res.passkey == old(self).passkey,
            res.io_capabilities == old(self).io_capabilities,
            *final(self) == *final(res),
    {
        self.toggle(value, AUTH_REQ_SC)
    }

    /// The authorization requirements to hand to the BLE stack, which knows
    /// only the three flags; any other bit is `InvalidParameters`.
    pub fn auth_requirements(&self) -> (res: Result<u8, BleError>)
        ensures
            self.auth_mode & !7u8 == 0 ==> (res matches Ok(m) && m == self.auth_mode),
            self.auth_mode & !7u8 != 0 ==> res matches Err(BleError::InvalidParameters),
    {
        if self.auth_mode & !7u8 == 0 {
            Ok(self.auth_mode)
        } else {
            Err(BleError::InvalidParameters)
        }
    }
}

/// Adding a requirement and then removing it leaves only the other
/// requirements; adding one twice is adding it once.
pub proof fn lemma_toggle_add_remove(mode: u8, flag: u8)
    ensures
        toggled(toggled(mode, true, flag), false, flag) == mode & !flag,
        toggled(toggled(mode, true, flag), true, flag) == toggled(mode, true, flag),
        toggled(mode, true, flag) & flag == flag,
        toggled(mode, false, flag) & flag == 0,
{
    assert((mode | flag) & !flag == mode & !flag) by (bit_vector);
    assert((mode | flag) | flag == mode | flag) by (bit_vector);
    assert((mode | flag) & flag == flag) by (bit_vector);
    assert((mode & !flag) & flag == 0) by (bit_vector);
}

} // verus!
