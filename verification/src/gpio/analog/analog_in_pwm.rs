use vstd::prelude::*;

use crate::gpio::digital::digital_in::DigitalInError;
use crate::utils::timer_driver::TimerDriverError;

verus! {

/// How many samples per period of the signal are read.
pub const FREQUENCY_TO_SAMPLING_RATIO: u32 = 2;

/// Errors when reading an analog value from a PWM signal.
#[derive(Debug, PartialEq, Eq, Structural, Clone, Copy)]
pub enum AnalogInPwmError {
    DigitalDriverError(DigitalInError),
    TimerDriverError(TimerDriverError),
}

impl AnalogInPwmError {
    /// Wraps a timer driver error.
    pub fn from_timer_driver_error(value: TimerDriverError) -> (res: AnalogInPwmError)
        ensures
            res == AnalogInPwmError::TimerDriverError(value),
    {
        AnalogInPwmError::TimerDriverError(value)
    }
}

/// The number of samples read for a signal of `frequency_hz`.
pub fn sampling_for_frequency(frequency_hz: u32) -> (sampling: u32)
    requires
        FREQUENCY_TO_SAMPLING_RATIO * frequency_hz <= u32::MAX,
    ensures
        sampling == FREQUENCY_TO_SAMPLING_RATIO * frequency_hz,
{
    FREQUENCY_TO_SAMPLING_RATIO * frequency_hz
}

/// The number of `true` values among the first `n` samples.
pub open spec fn count_highs(samples: Seq<bool>, n: int) -> nat
    decreases n,
{
    if n <= 0 {
        0
    } else {
        count_highs(samples, n - 1) + if samples[n - 1] {
            1nat
        } else {
            0nat
        }
    }
}

proof fn lemma_count_highs_bounded(samples: Seq<bool>, n: int)
    requires
        0 <= n,
    ensures
        count_highs(samples, n) <= n,
    decreases n,
{
    if n > 0 {
        lemma_count_highs_bounded(samples, n - 1);
    }
}

/// Counts the samples in which the signal was high; the high ratio of the
/// signal is this count over the number of samples.
pub fn count_high_samples(samples: &Vec<bool>) -> (highs: u64)
    requires
        samples@.len() <= u64::MAX,
    ensures
        highs == count_highs(samples@, samples@.len() as int),
{
    let mut highs: u64 = 0;
    let mut i: usize = 0;
    while i < samples.len()
        invariant
            i <= samples@.len() <= u64::MAX,
            highs == count_highs(samples@, i as int),
        decreases samples@.len() - i,
    {
        proof {
            lemma_count_highs_bounded(samples@, i as int);
        }
        if samples[i] {
            highs = highs + 1;
        }
        i = i + 1;
    }
    highs
}

} // verus!
