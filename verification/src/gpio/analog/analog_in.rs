use vstd::prelude::*;

use crate::microcontroller_src::peripherals::{Peripheral, PeripheralError};
use crate::utils::esp32_framework_error::AdcDriverError;

verus! {

/// The greatest value that a reading of the 12-bit ADC gives.
pub const MAX_DIGITAL_VAL: u16 = 4095;
/// The pins that have an ADC channel are 0 to this one.
pub const MAX_ADC_PIN: u8 = 6;

/// Errors when reading analog inputs.
#[derive(Debug)]
pub enum AnalogInError {
    AdcDriverError(AdcDriverError),
    ChannelCreationError,
    ErrorReading,
    InvalidPeripheral(PeripheralError),
    InvalidPin,
}

impl AnalogInError {
    /// Wraps an ADC driver error.
    pub fn from_adc_driver_error(value: AdcDriverError) -> (res: AnalogInError)
        ensures
            res == AnalogInError::AdcDriverError(value),
    {
        AnalogInError::AdcDriverError(value)
    }
}

/// The ADC channel of a pin peripheral: pins 0 to 6 have one.
pub fn adc_channel_for(pin: Peripheral) -> (res: Result<u8, AnalogInError>)
    ensures
        match pin {
            Peripheral::Pin(n) => if n <= MAX_ADC_PIN {
                res matches Ok(c) && c == n
            } else {
                res matches Err(AnalogInError::InvalidPin)
            },
            Peripheral::Unavailable => res matches Err(
                AnalogInError::InvalidPeripheral(PeripheralError::AlreadyTaken),
            ),
            _ => res matches Err(AnalogInError::InvalidPeripheral(PeripheralError::NotAPin)),
        },
{
    match pin {
        Peripheral::Pin(pin_num) => {
            if pin_num <= MAX_ADC_PIN {
                Ok(pin_num)
            } else {
                Err(AnalogInError::InvalidPin)
            }
        },
        Peripheral::Unavailable => Err(AnalogInError::InvalidPeripheral(PeripheralError::AlreadyTaken)),
        _ => Err(AnalogInError::InvalidPeripheral(PeripheralError::NotAPin)),
    }
}

/// A reading cut to the range of the 12-bit ADC.
pub open spec fn clamped(v: u16) -> u16 {
    if v > MAX_DIGITAL_VAL {
        MAX_DIGITAL_VAL
    } else {
        v
    }
}

/// Cuts a calibrated reading to the range of the 12-bit ADC.
pub fn clamp_reading(read_value: u16) -> (res: u16)
    ensures
        res == clamped(read_value),
{
    if read_value > MAX_DIGITAL_VAL {
        MAX_DIGITAL_VAL
    } else {
        read_value
    }
}

/// The sum of the first `n` readings, each cut to the ADC range.
pub open spec fn clamped_sum(reads: Seq<u16>, n: int) -> nat
    decreases n,
{
    if n <= 0 {
        0
    } else {
        clamped_sum(reads, n - 1) + clamped(reads[n - 1]) as nat
    }
}

proof fn lemma_clamped_sum_bounded(reads: Seq<u16>, n: int)
    requires
        0 <= n,
    ensures
        clamped_sum(reads, n) <= n * (MAX_DIGITAL_VAL as int),
    decreases n,
{
    if n > 0 {
        lemma_clamped_sum_bounded(reads, n - 1);
    }
}

/// The average of the readings, each cut to the ADC range, rounded down.
pub fn smooth_average(raw_reads: &Vec<u16>) -> (res: u16)
    requires
        0 < raw_reads@.len() <= u32::MAX,
    ensures
        res == clamped_sum(raw_reads@, raw_reads@.len() as int) / (raw_reads@.len() as nat),
        res <= MAX_DIGITAL_VAL,
{
    let mut smooth_val: u64 = 0;
    let mut i: usize = 0;
    while i < raw_reads.len()
        invariant
            i <= raw_reads@.len() <= u32::MAX,
            smooth_val == clamped_sum(raw_reads@, i as int),
        decreases raw_reads@.len() - i,
    {
        proof {
            lemma_clamped_sum_bounded(raw_reads@, i as int);
            assert(i * (MAX_DIGITAL_VAL as int) <= u32::MAX * 4095) by (nonlinear_arith)
                requires
                    i <= u32::MAX,
            ;
        }
        let read_val = clamp_reading(raw_reads[i]);
        smooth_val = smooth_val + read_val as u64;
        i = i + 1;
    }
    let n = raw_reads.len() as u64;
    proof {
        lemma_clamped_sum_bounded(raw_reads@, n as int);
        assert(smooth_val / n <= 4095) by (nonlinear_arith)
            requires
                smooth_val <= n * 4095,
                n > 0,
        ;
    }
    let result = smooth_val / n;
    result as u16
}

} // verus!
