use vstd::prelude::*;

verus! {

pub const RESET_ADDR: u8 = 0xE0;
pub const CTRL_HUM_ADDR: u8 = 0xF2;
pub const CTRL_MEAS_ADDR: u8 = 0xF4;
pub const STATUS_ADDR: u8 = 0xF3;

pub const CRTL_MEAS_MODE_MASK: u8 = 0b11111100;
pub const CRTL_MEAS_PRESS_OVS_MASK: u8 = 0b11100011;
pub const CRTL_MEAS_TEMP_OVS_MASK: u8 = 0b00011111;
pub const STAUTS_MEASURING_MASK: u8 = 0b00001000;
pub const STAUTS_UPDATING_MASK: u8 = 0b00000001;

/// The first bit of the temperature oversampling field of the control register.
pub const TEMP_OVS_SHIFT: u8 = 5;
/// The first bit of the pressure oversampling field of the control register.
pub const PRESS_OVS_SHIFT: u8 = 2;

/// The word that, written to the reset register, resets the sensor.
pub const RESET_WORD: u8 = 0xB6;

/// The oversampling rates of a measurement.
#[derive(Debug, PartialEq, Eq, Structural, Clone, Copy)]
pub enum Oversampling {
    X1,
    X2,
    X4,
    X8,
    X16,
}

impl Oversampling {
    /// The register code of the rate.
    pub open spec fn spec_code(self) -> u8 {
        match self {
            Oversampling::X1 => 0x01,
            Oversampling::X2 => 0x02,
            Oversampling::X4 => 0x03,
            Oversampling::X8 => 0x04,
            Oversampling::X16 => 0x05,
        }
    }

    /// The register code of the rate.
    pub fn code(self) -> (res: u8)
        ensures
            res == self.spec_code(),
    {
        match self {
            Oversampling::X1 => 0x01,
            Oversampling::X2 => 0x02,
            Oversampling::X4 => 0x03,
            Oversampling::X8 => 0x04,
            Oversampling::X16 => 0x05,
        }
    }
}

/// The pin the sensor's SDO is wired to, which decides its I2C address.
#[derive(Debug, PartialEq, Eq, Structural, Clone, Copy)]
pub enum SdoConnection {
    GND,
    VDDIO,
}

impl SdoConnection {
    /// The I2C address of the sensor.
    pub fn addr(self) -> (res: u8)
        ensures
            res == match self {
                SdoConnection::GND => 0x76u8,
                SdoConnection::VDDIO => 0x77u8,
            },
    {
        match self {
            SdoConnection::GND => 0x76,
            SdoConnection::VDDIO => 0x77,
        }
    }
}

/// The power modes of the sensor.
#[derive(Debug, PartialEq, Eq, Structural, Clone, Copy)]
pub enum BMEMode {
    Sleep,
    Forced,
    Normal,
}

impl BMEMode {
    /// The register code of the mode.
    pub open spec fn spec_code(self) -> u8 {
        match self {
            BMEMode::Sleep => 0x00,
            BMEMode::Forced => 0x01,
            BMEMode::Normal => 0x03,
        }
    }

    /// The register code of the mode.
    pub fn code(self) -> (res: u8)
        ensures
            res == self.spec_code(),
    {
        match self {
            BMEMode::Sleep => 0x00,
            BMEMode::Forced => 0x01,
            BMEMode::Normal => 0x03,
        }
    }
}

/// The two bytes that reset the sensor.
pub fn reset_bytes() -> (res: [u8; 2])
    ensures
        res@ == seq![RESET_ADDR, RESET_WORD],
{
    let res = [RESET_ADDR, RESET_WORD];
    assert(res@ =~= seq![RESET_ADDR, RESET_WORD]);
    res
}

/// Whether every bit of `bitmask` is set in the status register.
pub fn check_status(register_val: u8, bitmask: u8) -> (res: bool)
    ensures
        res == (register_val & bitmask == bitmask),
{
    (register_val & bitmask) == bitmask
}

/// The control register with its mode bits replaced by `mode`.
pub fn mode_register(value: u8, mode: BMEMode) -> (res: u8)
    ensures
        res == (value & CRTL_MEAS_MODE_MASK) | mode.spec_code(),
{
    (value & CRTL_MEAS_MODE_MASK) | mode.code()
}

/// The control register kept under `mask`, with the oversampling code put in
/// the field that starts at bit `shift` (`TEMP_OVS_SHIFT` for the temperature,
/// `PRESS_OVS_SHIFT` for the pressure).
pub fn mask_and_shift(mask: u8, value: u8, oversampling: Oversampling, shift: u8) -> (res: u8)
    requires
        shift < 8,
    ensures
        res == (value & mask) | (oversampling.spec_code() << shift),
{
    (value & mask) | (oversampling.code() << shift)
}

/// Setting the temperature or the pressure oversampling puts its code in its
/// own field and leaves every other bit of the control register as it was:
/// the other oversampling field and the mode.
pub proof fn lemma_oversampling_keeps_other_fields(value: u8, oversampling: Oversampling)
    ensures
        ((value & CRTL_MEAS_TEMP_OVS_MASK) | (oversampling.spec_code() << TEMP_OVS_SHIFT))
            >> TEMP_OVS_SHIFT == oversampling.spec_code(),
        ((value & CRTL_MEAS_TEMP_OVS_MASK) | (oversampling.spec_code() << TEMP_OVS_SHIFT))
            & CRTL_MEAS_TEMP_OVS_MASK == value & CRTL_MEAS_TEMP_OVS_MASK,
        (((value & CRTL_MEAS_PRESS_OVS_MASK) | (oversampling.spec_code() << PRESS_OVS_SHIFT))
            >> PRESS_OVS_SHIFT) & 0b111 == oversampling.spec_code(),
        ((value & CRTL_MEAS_PRESS_OVS_MASK) | (oversampling.spec_code() << PRESS_OVS_SHIFT))
            & CRTL_MEAS_PRESS_OVS_MASK == value & CRTL_MEAS_PRESS_OVS_MASK,
{
    let c = oversampling.spec_code();
    assert(1 <= c <= 5);
    assert(c <= 5 ==> ((value & 0b00011111u8) | (c << 5u8)) >> 5u8 == c) by (bit_vector);
    assert(c <= 5 ==> ((value & 0b00011111u8) | (c << 5u8)) & 0b00011111u8 == value
        & 0b00011111u8) by (bit_vector);
    assert(c <= 5 ==> (((value & 0b11100011u8) | (c << 2u8)) >> 2u8) & 0b111u8 == c)
        by (bit_vector);
    assert(c <= 5 ==> ((value & 0b11100011u8) | (c << 2u8)) & 0b11100011u8 == value
        & 0b11100011u8) by (bit_vector);
}

/// Setting the mode leaves the oversampling bits as they were, and the mode
/// is read back from the low two bits.
pub proof fn lemma_mode_keeps_other_bits(value: u8, mode: BMEMode)
    ensures
        ((value & CRTL_MEAS_MODE_MASK) | mode.spec_code()) & 0b11 == mode.spec_code(),
        ((value & CRTL_MEAS_MODE_MASK) | mode.spec_code()) & CRTL_MEAS_MODE_MASK == value
            & CRTL_MEAS_MODE_MASK,
{
    let c = mode.spec_code();
    assert(c <= 3);
    assert(c <= 3 ==> ((value & 0b11111100u8) | c) & 0b11u8 == c) by (bit_vector);
    assert(c <= 3 ==> ((value & 0b11111100u8) | c) & 0b11111100u8 == value & 0b11111100u8)
        by (bit_vector);
}

} // verus!
