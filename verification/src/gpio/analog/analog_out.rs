use vstd::prelude::*;

use crate::microcontroller_src::peripherals::PeripheralError;
use crate::utils::esp32_framework_error::ESP_FAIL;
use crate::utils::timer_driver::TimerDriverError;

verus! {

/// Errors when working with an analog output.
#[derive(Debug, PartialEq, Eq, Structural, Clone, Copy)]
pub enum AnalogOutError {
    ErrorSettingOutput,
    InvalidArg,
    InvalidPeripheral(PeripheralError),
    InvalidFrequencyOrDuty,
    TimerDriverError(TimerDriverError),
    TooManyPWMOutputs,
}

impl AnalogOutError {
    /// Wraps a timer driver error.
    pub fn from_timer_driver_error(value: TimerDriverError) -> (res: AnalogOutError)
        ensures
            res == AnalogOutError::TimerDriverError(value),
    {
        AnalogOutError::TimerDriverError(value)
    }

    /// The error for a PWM timer configuration that the driver refused with
    /// `code`: `ESP_FAIL` means that the frequency and the duty resolution do
    /// not fit together; any other code is an invalid argument.
    pub fn from_timer_config_code(code: i32) -> (res: AnalogOutError)
        ensures
            res == if code == ESP_FAIL {
                AnalogOutError::InvalidFrequencyOrDuty
            } else {
                AnalogOutError::InvalidArg
            },
    {
        if code == ESP_FAIL {
            AnalogOutError::InvalidFrequencyOrDuty
        } else {
            AnalogOutError::InvalidArg
        }
    }
}

/// What an automatic change of duty does once it reaches an extreme.
#[derive(Clone, Copy, Debug, PartialEq, Eq, Structural)]
pub enum ExtremeDutyPolicy {
    BounceBack,
    NoPolicy,
    Reset,
}

/// The kind of automatic change of duty that is running.
#[derive(Clone, Copy, Debug, PartialEq, Eq, Structural)]
pub enum FixedChangeType {
    Decrease(ExtremeDutyPolicy),
    Increase(ExtremeDutyPolicy),
    NoChange,
}

impl FixedChangeType {
    /// Whether the change starts by increasing the duty.
    pub fn increasing_starting_direction(&self) -> (res: bool)
        ensures
            res == (*self is Increase),
    {
        match self {
            FixedChangeType::Increase(_policy) => true,
            _ => false,
        }
    }
}

/// The number of bits of PWM resolution used for a requested resolution:
/// 0 gives 1 bit and anything from 14 up gives 14 bits.
pub open spec fn spec_resolution_bits(resolution: u32) -> u32 {
    if resolution == 0 {
        1
    } else if resolution >= 14 {
        14
    } else {
        resolution
    }
}

/// The number of bits of resolution for a requested resolution.
pub fn create_resolution(resolution: u32) -> (bits: u32)
    ensures
        bits == spec_resolution_bits(resolution),
        1 <= bits <= 14,
{
    if resolution == 0 {
        1
    } else if resolution >= 14 {
        14
    } else {
        resolution
    }
}

/// The next duty of an automatic change: `step` up to at most `max_duty`
/// when increasing, `step` down to at least 0 when decreasing.
pub open spec fn next_duty(duty: u32, step: u32, max_duty: u32, increasing: bool) -> u32 {
    if increasing {
        if duty + step <= max_duty {
            (duty + step) as u32
        } else {
            max_duty
        }
    } else {
        if duty <= step {
            0
        } else {
            (duty - step) as u32
        }
    }
}

/// The duty that the output should be set to, and how an automatic change of
/// duty proceeds.
/// - `duty`: the duty that the next cycle sets.
/// - `max_duty`: the maximum duty of the output's resolution.
/// - `duty_step`: how much the duty changes each cycle.
/// - `increasing`: the current direction of the change.
/// - `fixed_change_type`: the kind of change running.
/// - `amount_of_cycles`: bounces or resets left (`None` for no limit).
/// - `change_pending`: set when a cycle has computed a new duty to apply.
pub struct DutyChanger {
    pub duty: u32,
    pub max_duty: u32,
    pub duty_step: u32,
    pub increasing: bool,
    pub fixed_change_type: FixedChangeType,
    pub amount_of_cycles: Option<u32>,
    pub change_pending: bool,
}

/// The result of applying a pending change of duty: the duty to set on the
/// output, and whether the automatic change is over (and its timer interrupt
/// must be removed).
pub struct DutyUpdate {
    pub set_duty: u32,
    pub unsubscribe: bool,
}

/// The changer after an attempt to turn around: with cycles left (or no
/// limit) the direction flips and a cycle is used up; otherwise it stops.
pub open spec fn spec_attempt_turn_around(c: DutyChanger) -> (DutyChanger, bool) {
    match c.amount_of_cycles {
        Some(n) => if n > 0 {
            (
                DutyChanger {
                    increasing: !c.increasing,
                    amount_of_cycles: Some((n - 1) as u32),
                    ..c
                },
                true,
            )
        } else {
            (c, false)
        },
        None => (DutyChanger { increasing: !c.increasing, ..c }, true),
    }
}

/// The duty that a reset goes back to: 0 when increasing, the maximum when
/// decreasing.
pub open spec fn reset_duty(c: DutyChanger) -> u32 {
    if c.increasing {
        0
    } else {
        c.max_duty
    }
}

/// The changer after an attempt to reset: with cycles left (or no limit) the
/// duty goes back to its starting extreme and a cycle is used up; otherwise
/// it stops.
pub open spec fn spec_attempt_reset(c: DutyChanger) -> (DutyChanger, bool) {
    match c.amount_of_cycles {
        Some(n) => if n > 0 {
            (
                DutyChanger { duty: reset_duty(c), amount_of_cycles: Some((n - 1) as u32), ..c },
                true,
            )
        } else {
            (c, false)
        },
        None => (DutyChanger { duty: reset_duty(c), ..c }, true),
    }
}

/// A change of duty applied when the output already holds the duty computed
/// (`prev_duty`): it has reached an extreme, and the policy decides whether
/// it continues. The duty set on the output is the one computed before.
pub open spec fn spec_change_duty_on_cycle(c: DutyChanger, prev_duty: u32) -> (DutyChanger, DutyUpdate) {
    let duty = c.duty;
    let (c2, stay) = if prev_duty == duty {
        match c.fixed_change_type {
            FixedChangeType::Increase(ExtremeDutyPolicy::BounceBack) => spec_attempt_turn_around(c),
            FixedChangeType::Decrease(ExtremeDutyPolicy::BounceBack) => spec_attempt_turn_around(c),
            FixedChangeType::Increase(ExtremeDutyPolicy::Reset) => spec_attempt_reset(c),
            FixedChangeType::Decrease(ExtremeDutyPolicy::Reset) => spec_attempt_reset(c),
            FixedChangeType::Increase(ExtremeDutyPolicy::NoPolicy) => (c, prev_duty < c.max_duty),
            FixedChangeType::Decrease(ExtremeDutyPolicy::NoPolicy) => (c, prev_duty > 0),
            FixedChangeType::NoChange => (c, false),
        }
    } else {
        (c, true)
    };
    let c3 = if stay {
        c2
    } else {
        DutyChanger { fixed_change_type: FixedChangeType::NoChange, ..c2 }
    };
    (c3, DutyUpdate { set_duty: duty, unsubscribe: !stay })
}

impl DutyChanger {
    /// No change running, duty 0.
    pub fn new(max_duty: u32) -> (res: DutyChanger)
        ensures
            res == (DutyChanger {
                duty: 0,
                max_duty,
                duty_step: 1,
                increasing: false,
                fixed_change_type: FixedChangeType::NoChange,
                amount_of_cycles: None,
                change_pending: false,
            }),
    {
        DutyChanger {
            duty: 0,
            max_duty,
            duty_step: 1,
            increasing: false,
            fixed_change_type: FixedChangeType::NoChange,
            amount_of_cycles: None,
            change_pending: false,
        }
    }

    /// Sets a fixed duty: any automatic change stops. Returns the duty to set
    /// on the output; the timer interrupt of the change must be removed.
    pub fn set_high_level_output_duty(&mut self, duty: u32) -> (set_duty: u32)
        ensures
            set_duty == duty,
            *final(self) == (DutyChanger {
                duty,
                fixed_change_type: FixedChangeType::NoChange,
                ..*old(self)
            }),
    {
        self.fixed_change_type = FixedChangeType::NoChange;
        self.duty = duty;
        duty
    }

    /// Starts an automatic change of duty from `starting_duty`, by `duty_step`
    /// each cycle (at least 1), in the direction of `fixed_change_type`.
    pub fn start_changing_by_fixed_amount(
        &mut self,
        fixed_change_type: FixedChangeType,
        starting_duty: u32,
        duty_step: u32,
    )
        ensures
            *final(self) == (DutyChanger {
                duty: starting_duty,
                duty_step: if duty_step >= 1 {
                    duty_step
                } else {
                    1
                },
                increasing: fixed_change_type is Increase,
                fixed_change_type,
                ..*old(self)
            }),
    {
        self.increasing = fixed_change_type.increasing_starting_direction();
        self.duty = starting_duty;
        self.duty_step = if duty_step >= 1 {
            duty_step
        } else {
            1
        };
        self.fixed_change_type = fixed_change_type;
    }

    /// Starts increasing, stopping at the maximum.
    pub fn start_increasing(&mut self, starting_duty: u32, duty_step: u32)
        ensures
            *final(self) == (DutyChanger {
                duty: starting_duty,
                duty_step: if duty_step >= 1 {
                    duty_step
                } else {
                    1
                },
                increasing: true,
                fixed_change_type: FixedChangeType::Increase(ExtremeDutyPolicy::NoPolicy),
                ..*old(self)
            }),
    {
        self.start_changing_by_fixed_amount(
            FixedChangeType::Increase(ExtremeDutyPolicy::NoPolicy),
            starting_duty,
            duty_step,
        )
    }

    /// Starts decreasing, stopping at 0.
    pub fn start_decreasing(&mut self, starting_duty: u32, duty_step: u32)
        ensures
            *final(self) == (DutyChanger {
                duty: starting_duty,
                duty_step: if duty_step >= 1 {
                    duty_step
                } else {
                    1
                },
                increasing: false,
                fixed_change_type: FixedChangeType::Decrease(ExtremeDutyPolicy::NoPolicy),
                ..*old(self)
            }),
    {
        self.start_changing_by_fixed_amount(
            FixedChangeType::Decrease(ExtremeDutyPolicy::NoPolicy),
            starting_duty,
            duty_step,
        )
    }

    /// Starts increasing, turning around at each extreme `amount_of_bounces`
    /// times (without limit when `None`).
    pub fn start_increasing_bounce_back(
        &mut self,
        starting_duty: u32,
        duty_step: u32,
        amount_of_bounces: Option<u32>,
    )
        ensures
            *final(self) == (DutyChanger {
                duty: starting_duty,
                duty_step: if duty_step >= 1 {
                    duty_step
                } else {
                    1
                },
                increasing: true,
                fixed_change_type: FixedChangeType::Increase(ExtremeDutyPolicy::BounceBack),
                amount_of_cycles: amount_of_bounces,
                ..*old(self)
            }),
    {
        self.amount_of_cycles = amount_of_bounces;
        self.start_changing_by_fixed_amount(
            FixedChangeType::Increase(ExtremeDutyPolicy::BounceBack),
            starting_duty,
            duty_step,
        )
    }

    /// Starts decreasing, turning around at each extreme `amount_of_bounces`
    /// times (without limit when `None`).
    pub fn start_decreasing_bounce_back(
        &mut self,
        starting_duty: u32,
        duty_step: u32,
        amount_of_bounces: Option<u32>,
    )
        ensures
            *final(self) == (DutyChanger {
                duty: starting_duty,
                duty_step: if duty_step >= 1 {
                    duty_step
                } else {
                    1
                },
                increasing: false,
                fixed_change_type: FixedChangeType::Decrease(ExtremeDutyPolicy::BounceBack),
                amount_of_cycles: amount_of_bounces,
                ..*old(self)
            }),
    {
        self.amount_of_cycles = amount_of_bounces;
        self.start_changing_by_fixed_amount(
            FixedChangeType::Decrease(ExtremeDutyPolicy::BounceBack),
            starting_duty,
            duty_step,
        )
    }

    /// Starts increasing, going back to the start at the maximum
    /// `amount_of_resets` times (without limit when `None`).
    pub fn start_increasing_reset(
        &mut self,
        starting_duty: u32,
        duty_step: u32,
        amount_of_resets: Option<u32>,
    )
        ensures
            *final(self) == (DutyChanger {
                duty: starting_duty,
                duty_step: if duty_step >= 1 {
                    duty_step
                } else {
                    1
                },
                increasing: true,
                fixed_change_type: FixedChangeType::Increase(ExtremeDutyPolicy::Reset),
                amount_of_cycles: amount_of_resets,
                ..*old(self)
            }),
    {
        self.amount_of_cycles = amount_of_resets;
        self.start_changing_by_fixed_amount(
            FixedChangeType::Increase(ExtremeDutyPolicy::Reset),
            starting_duty,
            duty_step,
        )
    }

    /// Starts decreasing, going back to the start at 0 `amount_of_resets`
    /// times (without limit when `None`).
    pub fn start_decreasing_reset(
        &mut self,
        starting_duty: u32,
        duty_step: u32,
        amount_of_resets: Option<u32>,
    )
        ensures
            *final(self) == (DutyChanger {
                duty: starting_duty,
                duty_step: if duty_step >= 1 {
                    duty_step
                } else {
                    1
                },
                increasing: false,
                fixed_change_type: FixedChangeType::Decrease(ExtremeDutyPolicy::Reset),
                amount_of_cycles: amount_of_resets,
                ..*old(self)
            }),
    {
        self.amount_of_cycles = amount_of_resets;
        self.start_changing_by_fixed_amount(
            FixedChangeType::Decrease(ExtremeDutyPolicy::Reset),
            starting_duty,
            duty_step,
        )
    }

    /// One cycle of the automatic change, run by the timer interrupt: the
    /// duty moves one step in the current direction, within `[0, max_duty]`,
    /// and a change is marked pending.
    pub fn step(&mut self)
        requires
            old(self).duty + old(self).duty_step <= u32::MAX,
        ensures
            *final(self) == (DutyChanger {
                duty: next_duty(
                    old(self).duty,
                    old(self).duty_step,
                    old(self).max_duty,
                    old(self).increasing,
                ),
                change_pending: true,
                ..*old(self)
            }),
    {
        let new_duty = if self.increasing {
            let up = self.duty + self.duty_step;
            if up <= self.max_duty {
                up
            } else {
                self.max_duty
            }
        } else {
            let down = if self.duty <= self.duty_step {
                self.duty
            } else {
                self.duty_step
            };
            self.duty - down
        };
        self.duty = new_duty;
        self.change_pending = true;
    }

    /// Flips the direction of the change.
    pub fn turn_around(&mut self)
        ensures
            *final(self) == (DutyChanger { increasing: !old(self).increasing, ..*old(self) }),
    {
        self.increasing = !self.increasing;
    }

    /// Turns around if cycles remain. Returns whether the change continues.
    pub fn attempt_turn_around(&mut self) -> (stay: bool)
        ensures
            (*final(self), stay) == spec_attempt_turn_around(*old(self)),
    {
        match self.amount_of_cycles {
            Some(bounces) => {
                if bounces > 0 {
                    self.turn_around();
                    self.amount_of_cycles = Some(bounces - 1);
                } else {
                    return false;
                }
            },
            None => self.turn_around(),
        }
        true
    }

    /// Sends the duty back to its starting extreme.
    pub fn reset(&mut self)
        ensures
            *final(self) == (DutyChanger { duty: reset_duty(*old(self)), ..*old(self) }),
    {
        if self.increasing {
            self.duty = 0;
        } else {
            self.duty = self.max_duty;
        }
    }

    /// Resets if cycles remain. Returns whether the change continues.
    pub fn attempt_reset(&mut self) -> (stay: bool)
        ensures
            (*final(self), stay) == spec_attempt_reset(*old(self)),
    {
        match self.amount_of_cycles {
            Some(resets) => {
                if resets > 0 {
                    self.reset();
                    self.amount_of_cycles = Some(resets - 1);
                } else {
                    return false;
                }
            },
            None => self.reset(),
        }
        true
    }

    /// Applies the duty computed by the last cycle, given the duty the output
    /// holds now (`prev_duty`).
    pub fn change_duty_on_cycle(&mut self, prev_duty: u32) -> (update: DutyUpdate)
        ensures
            (*final(self), update) == spec_change_duty_on_cycle(*old(self), prev_duty),
    {
        let duty = self.duty;
        let mut stay_subscribed = true;
        if prev_duty == duty {
            stay_subscribed =
            match self.fixed_change_type {
                FixedChangeType::Increase(ExtremeDutyPolicy::BounceBack) => self.attempt_turn_around(),
                FixedChangeType::Decrease(ExtremeDutyPolicy::BounceBack) => self.attempt_turn_around(),
                FixedChangeType::Increase(ExtremeDutyPolicy::Reset) => self.attempt_reset(),
                FixedChangeType::Decrease(ExtremeDutyPolicy::Reset) => self.attempt_reset(),
                FixedChangeType::Increase(ExtremeDutyPolicy::NoPolicy) => prev_duty < self.max_duty,
                FixedChangeType::Decrease(ExtremeDutyPolicy::NoPolicy) => prev_duty > 0,
                FixedChangeType::NoChange => false,
            };
        }
        if !stay_subscribed {
            self.fixed_change_type = FixedChangeType::NoChange;
        }
        DutyUpdate { set_duty: duty, unsubscribe: !stay_subscribed }
    }

    /// Applies a pending change, if one was marked, and clears the mark.
    pub fn update_interrupt(&mut self, prev_duty: u32) -> (update: Option<DutyUpdate>)
        ensures
            !old(self).change_pending ==> update is None && *final(self) == *old(self),
            old(self).change_pending ==> {
                let (c, u) = spec_change_duty_on_cycle(
                    DutyChanger { change_pending: false, ..*old(self) },
                    prev_duty,
                );
                &&& *final(self) == c
                &&& update == Some(u)
            },
    {
        if self.change_pending {
            self.change_pending = false;
            Some(self.change_duty_on_cycle(prev_duty))
        } else {
            None
        }
    }
}

/// An automatic change never drives the duty out of `[0, max_duty]`: from a
/// duty within the range, a cycle stays within it.
pub proof fn lemma_step_stays_in_range(duty: u32, step: u32, max_duty: u32, increasing: bool)
    requires
        duty <= max_duty,
    ensures
        next_duty(duty, step, max_duty, increasing) <= max_duty,
{
}

/// Setting a fixed duty stops any automatic change, and the next pending
/// change ends it for good.
pub proof fn lemma_fixed_duty_stops_change(c: DutyChanger, duty: u32, prev_duty: u32)
    ensures
        ({
            let fixed = DutyChanger { duty, fixed_change_type: FixedChangeType::NoChange, ..c };
            let (after, u) = spec_change_duty_on_cycle(fixed, prev_duty);
            prev_duty == duty ==> u.unsubscribe && after.fixed_change_type == FixedChangeType::NoChange
        }),
{
}

/// A bounce-back change limited to `n` bounces turns around at most `n`
/// times: each turn uses one, and with none left the change stops.
pub proof fn lemma_bounces_are_limited(c: DutyChanger)
    ensures
        c.amount_of_cycles == Some(0u32) ==> !spec_attempt_turn_around(c).1
            && spec_attempt_turn_around(c).0 == c,
        (c.amount_of_cycles matches Some(n) && n > 0 && spec_attempt_turn_around(c).0.amount_of_cycles
            == Some((n - 1) as u32)) || !(c.amount_of_cycles matches Some(n) && n > 0),
{
}

/// A reset change limited to `n` resets resets at most `n` times: each reset
/// sends the duty back to 0 when increasing (to the maximum when decreasing)
/// and uses one up, a change without a limit resets every time, and with no
/// resets left the change stops: the changer is left as it was. At the
/// extreme, a reset change with no resets left is unsubscribed, its kind of
/// change becomes `NoChange` and the duty it set stays.
pub proof fn lemma_resets_are_limited(c: DutyChanger)
    ensures
        c.amount_of_cycles == Some(0u32) ==> !spec_attempt_reset(c).1 && spec_attempt_reset(c).0
            == c,
        (c.amount_of_cycles is Some && c.amount_of_cycles->0 > 0) ==> {
            &&& spec_attempt_reset(c).1
            &&& spec_attempt_reset(c).0.amount_of_cycles == Some((c.amount_of_cycles->0 - 1) as u32)
        },
        c.amount_of_cycles is None ==> spec_attempt_reset(c).1 && spec_attempt_reset(c).0.amount_of_cycles
            is None,
        spec_attempt_reset(c).1 ==> {
            &&& spec_attempt_reset(c).0.duty == (if c.increasing {
                0
            } else {
                c.max_duty
            })
            &&& spec_attempt_reset(c).0.increasing == c.increasing
            &&& spec_attempt_reset(c).0.max_duty == c.max_duty
            &&& spec_attempt_reset(c).0.fixed_change_type == c.fixed_change_type
        },
        (c.amount_of_cycles == Some(0u32) && (c.fixed_change_type == FixedChangeType::Increase(
            ExtremeDutyPolicy::Reset,
        ) || c.fixed_change_type == FixedChangeType::Decrease(ExtremeDutyPolicy::Reset))) ==> {
            &&& spec_change_duty_on_cycle(c, c.duty).1.unsubscribe
            &&& spec_change_duty_on_cycle(c, c.duty).1.set_duty == c.duty
            &&& spec_change_duty_on_cycle(c, c.duty).0.fixed_change_type == FixedChangeType::NoChange
            &&& spec_change_duty_on_cycle(c, c.duty).0.duty == c.duty
            &&& spec_change_duty_on_cycle(c, c.duty).0.amount_of_cycles == Some(0u32)
        },
{
}

} // verus!
