use vstd::prelude::*;

use crate::gpio::digital::digital_in::Level;
use crate::microcontroller_src::peripherals::PeripheralError;
use crate::utils::timer_driver::TimerDriverError;

verus! {

/// Errors when working with a digital output.
#[derive(Debug, PartialEq, Eq, Structural, Clone, Copy)]
pub enum DigitalOutError {
    CannotSetPinAsOutput,
    InvalidPin,
    InvalidPeripheral(PeripheralError),
    TimerDriverError(TimerDriverError),
}

impl DigitalOutError {
    /// Wraps a timer driver error.
    pub fn from_timer_driver_error(value: TimerDriverError) -> (res: DigitalOutError)
        ensures
            res == DigitalOutError::TimerDriverError(value),
    {
        DigitalOutError::TimerDriverError(value)
    }
}

/// What the interrupt of a digital output leaves for the main loop to do.
#[derive(Debug, PartialEq, Eq, Structural, Clone, Copy)]
pub enum OutInterruptUpdate {
    Blink,
    NoUpdate,
}

impl OutInterruptUpdate {
    /// The code under which the update is stored.
    pub fn get_code(self) -> (code: u8)
        ensures
            code == match self {
                OutInterruptUpdate::Blink => 0u8,
                OutInterruptUpdate::NoUpdate => 1u8,
            },
    {
        match self {
            OutInterruptUpdate::Blink => 0,
            OutInterruptUpdate::NoUpdate => 1,
        }
    }

    /// The update stored under `code`; unknown codes mean no update.
    pub fn from_code(code: u8) -> (res: OutInterruptUpdate)
        ensures
            res == if code == 0 {
                OutInterruptUpdate::Blink
            } else {
                OutInterruptUpdate::NoUpdate
            },
    {
        if code == 0 {
            OutInterruptUpdate::Blink
        } else {
            OutInterruptUpdate::NoUpdate
        }
    }
}

/// The level a pin is set to when toggled: low when it is set high, high
/// otherwise.
pub fn toggle_level(is_set_high: bool) -> (res: Level)
    ensures
        res == if is_set_high {
            Level::Low
        } else {
            Level::High
        },
        res == toggled(if is_set_high { Level::High } else { Level::Low }),
{
    if is_set_high {
        Level::Low
    } else {
        Level::High
    }
}

/// The number of timer triggers that a blink of `n` blinks needs after its
/// first toggle: each blink is two toggles. `None` when there is nothing to
/// blink.
pub open spec fn spec_blink_triggers(n: u32) -> Option<u32> {
    if n == 0 {
        None
    } else {
        Some((n * 2 - 1) as u32)
    }
}

/// The number of timer triggers that a blink of `amount_of_blinks` blinks
/// needs after its first toggle.
pub fn blink_triggers(amount_of_blinks: u32) -> (res: Option<u32>)
    requires
        amount_of_blinks * 2 <= u32::MAX,
    ensures
        res == spec_blink_triggers(amount_of_blinks),
{
    let toggles = amount_of_blinks * 2;
    if toggles == 0 {
        return None;
    }
    Some(toggles - 1)
}

/// The level a pin takes when toggled from `level` (as `toggle_level` sets it).
pub open spec fn toggled(level: Level) -> Level {
    match level {
        Level::High => Level::Low,
        Level::Low => Level::High,
    }
}

/// The level of a pin that started at `start`, after `k` toggles.
pub open spec fn level_after_toggles(start: Level, k: nat) -> Level
    decreases k,
{
    if k == 0 {
        start
    } else {
        toggled(level_after_toggles(start, (k - 1) as nat))
    }
}

proof fn lemma_even_toggles(start: Level, m: nat)
    ensures
        level_after_toggles(start, 2 * m) == start,
    decreases m,
{
    if m > 0 {
        lemma_even_toggles(start, (m - 1) as nat);
        reveal_with_fuel(level_after_toggles, 3);
        assert(2 * m == 2 * ((m - 1) as nat) + 2);
    }
}

/// A blink of `n` blinks toggles the pin once at the start and once at each
/// of its timer triggers. With no blinks nothing toggles; otherwise the pin
/// toggles `2 * n` times and ends at the level it started at.
pub proof fn lemma_blink_ends_at_first_level(start: Level, n: u32)
    requires
        n * 2 <= u32::MAX,
    ensures
        n == 0 ==> spec_blink_triggers(n) is None,
        n > 0 ==> (spec_blink_triggers(n) matches Some(t) && t + 1 == 2 * n
            && level_after_toggles(start, (t + 1) as nat) == start),
{
    if n > 0 {
        lemma_even_toggles(start, n as nat);
    }
}

/// The handling of an update of a digital output: a blink toggles the pin.
/// Returns whether the pin must be toggled.
pub fn handle_update(update: OutInterruptUpdate) -> (toggle: bool)
    ensures
        toggle == (update == OutInterruptUpdate::Blink),
{
    match update {
        OutInterruptUpdate::Blink => true,
        OutInterruptUpdate::NoUpdate => false,
    }
}

} // verus!
