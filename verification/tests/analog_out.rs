use esp32framework::gpio::analog::analog_out::{
    create_resolution, AnalogOutError, DutyChanger, ExtremeDutyPolicy, FixedChangeType,
};

/// The maximum duty of the default PWM configuration (8 bits of resolution).
const MAX_DUTY: u32 = 256;

/// The duty that a ratio of the maximum stands for, as the output computes it.
fn duty_from_ratio(max_duty: u32, ratio: f32) -> u32 {
    ((max_duty as f32) * ratio) as u32
}

/// A PWM output driven by a changer: the timer runs `step` every period while
/// the change is subscribed, and the pending change is then applied to the
/// output, which reports the duty it held before.
struct SimulatedOutput {
    changer: DutyChanger,
    output_duty: u32,
    subscribed: bool,
}

impl SimulatedOutput {
    fn new() -> Self {
        SimulatedOutput { changer: DutyChanger::new(MAX_DUTY), output_duty: 0, subscribed: false }
    }

    fn start_increasing_bounce_back(&mut self, step_ratio: f32, start_ratio: f32, bounces: Option<u32>) {
        let step = duty_from_ratio(MAX_DUTY, step_ratio);
        let start = duty_from_ratio(MAX_DUTY, start_ratio);
        self.changer.start_increasing_bounce_back(start, step, bounces);
        self.subscribed = true;
    }

    fn set_high_level_output_ratio(&mut self, ratio: f32) {
        let duty = self.changer.set_high_level_output_duty(duty_from_ratio(MAX_DUTY, ratio));
        self.output_duty = duty;
        self.subscribed = false;
    }

    /// Runs `periods` timer periods, applying the updates after each one.
    fn wait_for_updates(&mut self, periods: u32) {
        for _ in 0..periods {
            if self.subscribed {
                self.changer.step();
            }
            if let Some(update) = self.changer.update_interrupt(self.output_duty) {
                self.output_duty = update.set_duty;
                if update.unsubscribe {
                    self.subscribed = false;
                }
            }
        }
    }
}

#[test]
fn test0_seting_a_high_ratio_stops_increase_decrease() {
    let mut out = SimulatedOutput::new();
    out.start_increasing_bounce_back(0.01, 0.0, None);
    out.wait_for_updates(10);
    out.set_high_level_output_ratio(0.0);
    out.wait_for_updates(10);
    assert_eq!(out.changer.duty, 0);
    assert_eq!(out.changer.fixed_change_type, FixedChangeType::NoChange);
}

#[test]
fn test1_increase_bounce_back() {
    let mut out = SimulatedOutput::new();
    out.start_increasing_bounce_back(0.15, 0.0, Some(1));
    out.wait_for_updates(10);
    assert!(out.changer.duty > 0);
    out.wait_for_updates(10);
    assert!(out.changer.duty < 256);
    out.wait_for_updates(10);
    assert_eq!(out.changer.duty, 0);
    assert_eq!(out.changer.fixed_change_type, FixedChangeType::NoChange);
}

#[test]
fn resolution_is_clamped_between_one_and_fourteen_bits() {
    assert_eq!(create_resolution(0), 1);
    assert_eq!(create_resolution(1), 1);
    assert_eq!(create_resolution(8), 8);
    assert_eq!(create_resolution(13), 13);
    assert_eq!(create_resolution(14), 14);
    assert_eq!(create_resolution(40), 14);
}

#[test]
fn step_moves_by_the_step_and_saturates_at_the_extremes() {
    let mut c = DutyChanger::new(100);
    c.start_increasing(90, 7);
    c.step();
    assert_eq!(c.duty, 97);
    assert!(c.change_pending);
    c.step();
    assert_eq!(c.duty, 100);
    c.start_decreasing(5, 7);
    c.step();
    assert_eq!(c.duty, 0);
}

#[test]
fn a_zero_step_becomes_one() {
    let mut c = DutyChanger::new(10);
    c.start_increasing(0, 0);
    assert_eq!(c.duty_step, 1);
    c.step();
    assert_eq!(c.duty, 1);
}

#[test]
fn change_on_cycle_turns_around_at_an_extreme() {
    let mut c = DutyChanger::new(100);
    c.start_increasing_bounce_back(100, 10, Some(2));
    let u = c.change_duty_on_cycle(100);
    assert_eq!(u.set_duty, 100);
    assert!(!u.unsubscribe);
    assert!(!c.increasing);
    assert_eq!(c.amount_of_cycles, Some(1));
}

#[test]
fn change_on_cycle_away_from_an_extreme_keeps_going() {
    let mut c = DutyChanger::new(100);
    c.start_increasing_bounce_back(40, 10, Some(0));
    let u = c.change_duty_on_cycle(30);
    assert_eq!(u.set_duty, 40);
    assert!(!u.unsubscribe);
    assert_eq!(c.fixed_change_type, FixedChangeType::Increase(ExtremeDutyPolicy::BounceBack));
}

#[test]
fn bounces_run_out_and_the_change_stops() {
    let mut c = DutyChanger::new(100);
    c.start_increasing_bounce_back(100, 10, Some(0));
    let u = c.change_duty_on_cycle(100);
    assert!(u.unsubscribe);
    assert_eq!(c.fixed_change_type, FixedChangeType::NoChange);
}

#[test]
fn reset_policy_goes_back_to_the_start() {
    let mut c = DutyChanger::new(100);
    c.start_increasing_reset(100, 10, None);
    let u = c.change_duty_on_cycle(100);
    assert_eq!(u.set_duty, 100);
    assert!(!u.unsubscribe);
    assert_eq!(c.duty, 0);
    assert_eq!(c.amount_of_cycles, None);

    let mut d = DutyChanger::new(100);
    d.start_decreasing_reset(0, 10, Some(1));
    let u = d.change_duty_on_cycle(0);
    assert!(!u.unsubscribe);
    assert_eq!(d.duty, 100);
    assert_eq!(d.amount_of_cycles, Some(0));
}

#[test]
fn no_policy_stops_at_the_extreme() {
    let mut c = DutyChanger::new(100);
    c.start_increasing(100, 10);
    let u = c.change_duty_on_cycle(100);
    assert!(u.unsubscribe);
    assert_eq!(c.fixed_change_type, FixedChangeType::NoChange);

    let mut d = DutyChanger::new(100);
    d.start_decreasing(0, 10);
    let u = d.change_duty_on_cycle(0);
    assert!(u.unsubscribe);
}

#[test]
fn fixed_duty_then_pending_change_unsubscribes() {
    let mut c = DutyChanger::new(100);
    c.start_decreasing_bounce_back(50, 5, None);
    c.step();
    assert_eq!(c.set_high_level_output_duty(20), 20);
    let u = c.update_interrupt(20).unwrap();
    assert!(u.unsubscribe);
    assert_eq!(u.set_duty, 20);
    assert!(c.update_interrupt(20).is_none());
}

#[test]
fn turn_around_and_reset_by_hand() {
    let mut c = DutyChanger::new(60);
    c.start_decreasing(30, 1);
    c.turn_around();
    assert!(c.increasing);
    c.reset();
    assert_eq!(c.duty, 0);
    c.turn_around();
    c.reset();
    assert_eq!(c.duty, 60);
    assert!(c.attempt_turn_around());
    assert!(c.attempt_reset());
}

#[test]
fn starting_directions() {
    assert!(FixedChangeType::Increase(ExtremeDutyPolicy::Reset).increasing_starting_direction());
    assert!(!FixedChangeType::Decrease(ExtremeDutyPolicy::Reset).increasing_starting_direction());
    assert!(!FixedChangeType::NoChange.increasing_starting_direction());
}

#[test]
fn refused_timer_configurations() {
    assert_eq!(AnalogOutError::from_timer_config_code(-1), AnalogOutError::InvalidFrequencyOrDuty);
    assert_eq!(AnalogOutError::from_timer_config_code(0x102), AnalogOutError::InvalidArg);
}
