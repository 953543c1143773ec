use vstd::prelude::*;

use crate::microcontroller_src::peripherals::PeripheralError;
use crate::utils::esp32_framework_error::ESP_ERR_INVALID_STATE;
use crate::utils::timer_driver::TimerDriverError;

verus! {

/// Errors when working with a digital input.
#[derive(Debug, PartialEq, Eq, Structural, Clone, Copy)]
pub enum DigitalInError {
    CannotSetDebounceOnAnyEdgeInterruptType,
    CannotSetPinAsInput,
    CannotSetPullForPin,
    InvalidPeripheral(PeripheralError),
    InvalidPin,
    NoInterruptTypeSet,
    StateAlreadySet,
    TimerDriverError(TimerDriverError),
}

impl DigitalInError {
    /// The error for a failure to enable, disable or subscribe a pin interrupt,
    /// from its ESP-IDF error code.
    pub fn from_enable_disable_errors(code: i32) -> (res: DigitalInError)
        ensures
            res == if code == ESP_ERR_INVALID_STATE {
                DigitalInError::StateAlreadySet
            } else {
                DigitalInError::InvalidPin
            },
    {
        if code == ESP_ERR_INVALID_STATE {
            DigitalInError::StateAlreadySet
        } else {
            DigitalInError::InvalidPin
        }
    }

    /// Wraps a timer driver error.
    pub fn from_timer_driver_error(value: TimerDriverError) -> (res: DigitalInError)
        ensures
            res == DigitalInError::TimerDriverError(value),
    {
        DigitalInError::TimerDriverError(value)
    }
}

/// A logic level of a pin.
#[derive(Debug, PartialEq, Eq, Structural, Clone, Copy)]
pub enum Level {
    Low,
    High,
}

impl Level {
    /// The other level.
    pub fn toggled(self) -> (res: Level)
        ensures
            res != self,
    {
        match self {
            Level::Low => Level::High,
            Level::High => Level::Low,
        }
    }
}

/// The interrupt types of a digital input. The two any-edge types trigger on
/// one edge and then switch to the other.
#[derive(Debug, PartialEq, Eq, Structural, Clone, Copy)]
pub enum InterruptType {
    PosEdge,
    NegEdge,
    AnyEdgeNextEdgeIsPos,
    AnyEdgeNextEdgeIsNeg,
    LowLevel,
    HighLevel,
}

/// The interrupt types that the GPIO hardware is set to.
#[derive(Debug, PartialEq, Eq, Structural, Clone, Copy)]
pub enum HardwareInterruptType {
    PosEdge,
    NegEdge,
    LowLevel,
    HighLevel,
}

impl InterruptType {
    /// The level of the pin right after this interrupt triggers.
    pub open spec fn spec_level(self) -> Level {
        match self {
            InterruptType::PosEdge => Level::High,
            InterruptType::NegEdge => Level::Low,
            InterruptType::AnyEdgeNextEdgeIsPos => Level::High,
            InterruptType::AnyEdgeNextEdgeIsNeg => Level::Low,
            InterruptType::LowLevel => Level::Low,
            InterruptType::HighLevel => Level::High,
        }
    }

    /// The hardware interrupt type for this one: an any-edge type waits for
    /// its next edge.
    pub open spec fn spec_to_svc(self) -> HardwareInterruptType {
        match self {
            InterruptType::PosEdge => HardwareInterruptType::PosEdge,
            InterruptType::NegEdge => HardwareInterruptType::NegEdge,
            InterruptType::AnyEdgeNextEdgeIsPos => HardwareInterruptType::PosEdge,
            InterruptType::AnyEdgeNextEdgeIsNeg => HardwareInterruptType::NegEdge,
            InterruptType::LowLevel => HardwareInterruptType::LowLevel,
            InterruptType::HighLevel => HardwareInterruptType::HighLevel,
        }
    }

    /// The hardware interrupt type for this one.
    pub fn to_svc(self) -> (res: HardwareInterruptType)
        ensures
            res == self.spec_to_svc(),
            res == match self {
                InterruptType::PosEdge => HardwareInterruptType::PosEdge,
                InterruptType::NegEdge => HardwareInterruptType::NegEdge,
                InterruptType::AnyEdgeNextEdgeIsPos => HardwareInterruptType::PosEdge,
                InterruptType::AnyEdgeNextEdgeIsNeg => HardwareInterruptType::NegEdge,
                InterruptType::LowLevel => HardwareInterruptType::LowLevel,
                InterruptType::HighLevel => HardwareInterruptType::HighLevel,
            },
    {
        match self {
            InterruptType::PosEdge => HardwareInterruptType::PosEdge,
            InterruptType::NegEdge => HardwareInterruptType::NegEdge,
            InterruptType::AnyEdgeNextEdgeIsPos => HardwareInterruptType::PosEdge,
            InterruptType::AnyEdgeNextEdgeIsNeg => HardwareInterruptType::NegEdge,
            InterruptType::LowLevel => HardwareInterruptType::LowLevel,
            InterruptType::HighLevel => HardwareInterruptType::HighLevel,
        }
    }

    /// The level of the pin right after this interrupt triggers.
    pub fn get_level(&self) -> (res: Level)
        ensures
            res == self.spec_level(),
    {
        match self {
            InterruptType::PosEdge => Level::High,
            InterruptType::NegEdge => Level::Low,
            InterruptType::AnyEdgeNextEdgeIsPos => Level::High,
            InterruptType::AnyEdgeNextEdgeIsNeg => Level::Low,
            InterruptType::LowLevel => Level::Low,
            InterruptType::HighLevel => Level::High,
        }
    }

    /// The interrupt type after this one triggers: the any-edge types swap.
    pub open spec fn spec_after_swap(self) -> InterruptType {
        match self {
            InterruptType::AnyEdgeNextEdgeIsPos => InterruptType::AnyEdgeNextEdgeIsNeg,
            InterruptType::AnyEdgeNextEdgeIsNeg => InterruptType::AnyEdgeNextEdgeIsPos,
            _ => self,
        }
    }

    /// The interrupt type after this one triggers.
    pub fn after_swap(self) -> (res: InterruptType)
        ensures
            res == self.spec_after_swap(),
    {
        match self {
            InterruptType::AnyEdgeNextEdgeIsPos => InterruptType::AnyEdgeNextEdgeIsNeg,
            InterruptType::AnyEdgeNextEdgeIsNeg => InterruptType::AnyEdgeNextEdgeIsPos,
            _ => self,
        }
    }
}

/// What the interrupt service routine of a digital input leaves for the main
/// loop to do.
#[derive(Debug, PartialEq, Eq, Structural, Clone, Copy)]
pub enum InterruptUpdate {
    EnableTimerDriver,
    ExecAndEnablePin,
    ExecAndUnsubscribePin,
    NoUpdate,
    TimerReached,
}

impl InterruptUpdate {
    /// The code under which the update is stored.
    pub open spec fn spec_code(self) -> u8 {
        match self {
            InterruptUpdate::EnableTimerDriver => 0,
            InterruptUpdate::ExecAndEnablePin => 1,
            InterruptUpdate::ExecAndUnsubscribePin => 2,
            InterruptUpdate::NoUpdate => 3,
            InterruptUpdate::TimerReached => 4,
        }
    }

    /// The code under which the update is stored.
    pub fn get_code(self) -> (code: u8)
        ensures
            code == self.spec_code(),
    {
        match self {
            InterruptUpdate::EnableTimerDriver => 0,
            InterruptUpdate::ExecAndEnablePin => 1,
            InterruptUpdate::ExecAndUnsubscribePin => 2,
            InterruptUpdate::NoUpdate => 3,
            InterruptUpdate::TimerReached => 4,
        }
    }

    /// The update stored under `code`; unknown codes mean no update.
    pub fn from_code(code: u8) -> (res: InterruptUpdate)
        ensures
            code <= 4 ==> res.spec_code() == code,
            code > 4 ==> res == InterruptUpdate::NoUpdate,
    {
        if code == 1 {
            InterruptUpdate::ExecAndEnablePin
        } else if code == 0 {
            InterruptUpdate::EnableTimerDriver
        } else if code == 4 {
            InterruptUpdate::TimerReached
        } else if code == 2 {
            InterruptUpdate::ExecAndUnsubscribePin
        } else {
            InterruptUpdate::NoUpdate
        }
    }
}

/// Decoding the code of an update gives the update back: no two updates
/// share a code, and every code is one that decoding knows.
pub proof fn lemma_update_code_round_trip(u: InterruptUpdate, v: InterruptUpdate)
    ensures
        u.spec_code() <= 4,
        u.spec_code() == v.spec_code() ==> u == v,
{
}

/// Counts down the triggers of an interrupt that runs its callback only the
/// first n times.
pub struct FirstNTimes {
    pub remaining: usize,
}

impl FirstNTimes {
    /// The update that the interrupt service routine leaves when the pin
    /// triggers: the last allowed trigger unsubscribes the pin.
    pub fn on_interrupt(&mut self) -> (update: InterruptUpdate)
        requires
            old(self).remaining > 0,
        ensures
            final(self).remaining == old(self).remaining - 1,
            update == if final(self).remaining == 0 {
                InterruptUpdate::ExecAndUnsubscribePin
            } else {
                InterruptUpdate::ExecAndEnablePin
            },
    {
        self.remaining = self.remaining - 1;
        if self.remaining == 0 {
            InterruptUpdate::ExecAndUnsubscribePin
        } else {
            InterruptUpdate::ExecAndEnablePin
        }
    }
}

/// What the pin must do after an update is handled.
#[derive(Debug, PartialEq, Eq, Structural, Clone, Copy)]
pub enum PinAction {
    EnablePinInterrupt,
    UnsubscribePin,
    EnableTimerDriver,
    Nothing,
}

/// How the main loop handles an update of a digital input: the level with
/// which the user callback runs (if it runs), the interrupt type the pin
/// changes to (if it changes), and the action on the pin.
#[derive(Debug, PartialEq, Eq, Structural, Clone, Copy)]
pub struct DigitalInPlan {
    pub callback_level: Option<Level>,
    pub new_interrupt_type: Option<InterruptType>,
    pub action: PinAction,
}

/// The interrupt type to switch to after a trigger, when it differs.
pub open spec fn swap_change(t: InterruptType) -> Option<InterruptType> {
    if t.spec_after_swap() != t {
        Some(t.spec_after_swap())
    } else {
        None
    }
}

/// How an update is handled with interrupt type `interrupt_type` and the pin
/// reading `pin_level` (read when a debounce timer expires):
/// - enable-and-execute runs the callback, swaps an any-edge type and
///   re-enables the pin interrupt;
/// - enable-timer starts the debounce timer;
/// - timer-reached runs the callback (and swaps) only if the pin still holds
///   the level of the interrupt, then re-enables the pin interrupt;
/// - unsubscribe-and-execute runs the callback and unsubscribes the pin.
/// Without an interrupt type, the updates that need one fail.
pub open spec fn spec_plan_update(
    interrupt_type: Option<InterruptType>,
    update: InterruptUpdate,
    pin_level: Level,
) -> Result<DigitalInPlan, DigitalInError> {
    match update {
        InterruptUpdate::NoUpdate => Ok(
            DigitalInPlan { callback_level: None, new_interrupt_type: None, action: PinAction::Nothing },
        ),
        InterruptUpdate::EnableTimerDriver => Ok(
            DigitalInPlan {
                callback_level: None,
                new_interrupt_type: None,
                action: PinAction::EnableTimerDriver,
            },
        ),
        _ => match interrupt_type {
            None => Err(DigitalInError::NoInterruptTypeSet),
            Some(t) => match update {
                InterruptUpdate::ExecAndEnablePin => Ok(
                    DigitalInPlan {
                        callback_level: Some(t.spec_level()),
                        new_interrupt_type: swap_change(t),
                        action: PinAction::EnablePinInterrupt,
                    },
                ),
                InterruptUpdate::ExecAndUnsubscribePin => Ok(
                    DigitalInPlan {
                        callback_level: Some(t.spec_level()),
                        new_interrupt_type: None,
                        action: PinAction::UnsubscribePin,
                    },
                ),
                _ => if pin_level == t.spec_level() {
                    Ok(
                        DigitalInPlan {
                            callback_level: Some(t.spec_level()),
                            new_interrupt_type: swap_change(t),
                            action: PinAction::EnablePinInterrupt,
                        },
                    )
                } else {
                    Ok(
                        DigitalInPlan {
                            callback_level: None,
                            new_interrupt_type: None,
                            action: PinAction::EnablePinInterrupt,
                        },
                    )
                },
            },
        },
    }
}

/// The state of a digital input that decides how its interrupts are handled.
pub struct DigitalInState {
    pub interrupt_type: Option<InterruptType>,
    pub debounce_us: Option<u64>,
}

impl DigitalInState {
    /// No interrupt type and no debounce.
    pub fn new() -> (res: DigitalInState)
        ensures
            res.interrupt_type is None,
            res.debounce_us is None,
    {
        DigitalInState { interrupt_type: None, debounce_us: None }
    }

    /// Sets the debounce time: an interrupt only counts if the pin holds its
    /// level for this long.
    pub fn set_debounce(&mut self, time_micro: u64)
        ensures
            final(self).debounce_us == Some(time_micro),
            final(self).interrupt_type == old(self).interrupt_type,
    {
        self.debounce_us = Some(time_micro);
    }

    /// Changes the interrupt type; returns the hardware type to set.
    pub fn change_interrupt_type(&mut self, interrupt_type: InterruptType) -> (hw:
        HardwareInterruptType)
        ensures
            final(self).interrupt_type == Some(interrupt_type),
            final(self).debounce_us == old(self).debounce_us,
            hw == interrupt_type.spec_to_svc(),
    {
        self.interrupt_type = Some(interrupt_type);
        interrupt_type.to_svc()
    }

    /// The level of the pin right after the interrupt triggers.
    pub fn get_interrupt_level(&self) -> (res: Result<Level, DigitalInError>)
        ensures
            match self.interrupt_type {
                Some(t) => res == Ok::<Level, DigitalInError>(t.spec_level()),
                None => res == Err::<Level, DigitalInError>(DigitalInError::NoInterruptTypeSet),
            },
    {
        match self.interrupt_type {
            Some(interrupt_type) => Ok(interrupt_type.get_level()),
            None => Err(DigitalInError::NoInterruptTypeSet),
        }
    }

    /// Whether the pin's trigger must go through the debounce timer.
    pub fn debounced(&self) -> (res: bool)
        ensures
            res == (self.debounce_us is Some),
    {
        self.debounce_us.is_some()
    }

    /// Decides how an update is handled and applies its change of interrupt
    /// type.
    pub fn plan_update(&mut self, update: InterruptUpdate, pin_level: Level) -> (res: Result<
        DigitalInPlan,
        DigitalInError,
    >)
        ensures
            res == spec_plan_update(old(self).interrupt_type, update, pin_level),
            final(self).debounce_us == old(self).debounce_us,
            final(self).interrupt_type == match res {
                Ok(plan) => match plan.new_interrupt_type {
                    Some(t) => Some(t),
                    None => old(self).interrupt_type,
                },
                Err(_) => old(self).interrupt_type,
            },
    {
        let plan = match update {
            InterruptUpdate::NoUpdate => DigitalInPlan {
                callback_level: None,
                new_interrupt_type: None,
                action: PinAction::Nothing,
            },
            InterruptUpdate::EnableTimerDriver => DigitalInPlan {
                callback_level: None,
                new_interrupt_type: None,
                action: PinAction::EnableTimerDriver,
            },
            InterruptUpdate::ExecAndEnablePin => {
                let level = self.get_interrupt_level()?;
                let new_type = self.swap_on_any_edge();
                DigitalInPlan {
                    callback_level: Some(level),
                    new_interrupt_type: new_type,
                    action: PinAction::EnablePinInterrupt,
                }
            },
            InterruptUpdate::ExecAndUnsubscribePin => {
                let level = self.get_interrupt_level()?;
                DigitalInPlan {
                    callback_level: Some(level),
                    new_interrupt_type: None,
                    action: PinAction::UnsubscribePin,
                }
            },
            InterruptUpdate::TimerReached => {
                let level = self.get_interrupt_level()?;
                if pin_level == level {
                    let new_type = self.swap_on_any_edge();
                    DigitalInPlan {
                        callback_level: Some(level),
                        new_interrupt_type: new_type,
                        action: PinAction::EnablePinInterrupt,
                    }
                } else {
                    DigitalInPlan {
                        callback_level: None,
                        new_interrupt_type: None,
                        action: PinAction::EnablePinInterrupt,
                    }
                }
            },
        };
        Ok(plan)
    }

    /// Swaps an any-edge interrupt type to its other edge; returns the new
    /// type when it changed.
    fn swap_on_any_edge(&mut self) -> (res: Option<InterruptType>)
        requires
            old(self).interrupt_type is Some,
        ensures
            res == swap_change(old(self).interrupt_type->0),
            final(self).interrupt_type == match res {
                Some(t) => Some(t),
                None => old(self).interrupt_type,
            },
            final(self).debounce_us == old(self).debounce_us,
    {
        match self.interrupt_type {
            Some(t) => {
                let next = t.after_swap();
                if next != t {
                    self.interrupt_type = Some(next);
                    Some(next)
                } else {
                    None
                }
            },
            None => None,
        }
    }
}

/// An any-edge interrupt alternates its edges: every trigger handled swaps
/// it, and two swaps give the type back.
pub proof fn lemma_any_edge_alternates(t: InterruptType)
    requires
        t == InterruptType::AnyEdgeNextEdgeIsPos || t == InterruptType::AnyEdgeNextEdgeIsNeg,
    ensures
        t.spec_after_swap() != t,
        t.spec_after_swap().spec_after_swap() == t,
        t.spec_after_swap().spec_level() != t.spec_level(),
{
}

/// The level an interrupt reports is the level that triggers it: high for a
/// rising edge and for the high level, low for a falling edge and for the low
/// level. With debounce, a timer that expires while the pin holds that level
/// runs the callback with it, and one that expires at the other level runs
/// nothing.
pub proof fn lemma_level_is_trigger_level(t: InterruptType, pin_level: Level)
    ensures
        InterruptType::PosEdge.spec_level() == Level::High,
        InterruptType::HighLevel.spec_level() == Level::High,
        InterruptType::AnyEdgeNextEdgeIsPos.spec_level() == Level::High,
        InterruptType::NegEdge.spec_level() == Level::Low,
        InterruptType::LowLevel.spec_level() == Level::Low,
        InterruptType::AnyEdgeNextEdgeIsNeg.spec_level() == Level::Low,
        t.spec_level() == Level::High <==> (t.spec_to_svc() == HardwareInterruptType::PosEdge
            || t.spec_to_svc() == HardwareInterruptType::HighLevel),
        t.spec_level() == Level::Low <==> (t.spec_to_svc() == HardwareInterruptType::NegEdge
            || t.spec_to_svc() == HardwareInterruptType::LowLevel),
        (pin_level == Level::High <==> (t.spec_to_svc() == HardwareInterruptType::PosEdge
            || t.spec_to_svc() == HardwareInterruptType::HighLevel)) ==> spec_plan_update(
            Some(t),
            InterruptUpdate::TimerReached,
            pin_level,
        ) == Ok::<DigitalInPlan, DigitalInError>(
            DigitalInPlan {
                callback_level: Some(pin_level),
                new_interrupt_type: swap_change(t),
                action: PinAction::EnablePinInterrupt,
            },
        ),
        !(pin_level == Level::High <==> (t.spec_to_svc() == HardwareInterruptType::PosEdge
            || t.spec_to_svc() == HardwareInterruptType::HighLevel)) ==> spec_plan_update(
            Some(t),
            InterruptUpdate::TimerReached,
            pin_level,
        ) == Ok::<DigitalInPlan, DigitalInError>(
            DigitalInPlan {
                callback_level: None,
                new_interrupt_type: None,
                action: PinAction::EnablePinInterrupt,
            },
        ),
{
}

} // verus!
