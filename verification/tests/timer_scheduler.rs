use esp32framework::timer_driver::{
    micro_to_counter, Alarm, TimeInterrupt, TimerDriverError, TimerDriverHandle,
    TimerInterruptStatus, TimerScheduler, MAX_CHILDREN,
};

#[test]
fn alarms_fire_in_order_of_time() {
    let mut s = TimerScheduler::new();
    s.interrupt_after_n_times(1, 100, Some(2), true);
    s.interrupt_after(2, 50);

    let cmd = s.enable(1, 0);
    assert_eq!(cmd.program_alarm, Some(100));
    assert!(cmd.start_timer);
    let cmd = s.enable(2, 10);
    assert_eq!(cmd.program_alarm, Some(60));
    assert!(!cmd.start_timer);

    let step = s.update_interrupt_step(60);
    assert_eq!(step.fired, Some(2));
    assert_eq!(step.program_alarm, Some(100));

    // interrupt 1 re-enables itself while it has triggers left
    let step = s.update_interrupt_step(100);
    assert_eq!(step.fired, Some(1));
    assert_eq!(step.program_alarm, Some(200));
    assert_eq!(s.get(1).unwrap().remaining_triggers, Some(1));

    let step = s.update_interrupt_step(200);
    assert_eq!(step.fired, Some(1));
    assert_eq!(step.program_alarm, None);
    assert_eq!(s.get(1).unwrap().remaining_triggers, Some(0));

    let step = s.update_interrupt_step(300);
    assert_eq!(step.fired, None);
    assert_eq!(step.program_alarm, None);
}

#[test]
fn a_stale_alarm_runs_no_callback() {
    let mut s = TimerScheduler::new();
    s.interrupt_after(3, 10);
    s.interrupt_after(4, 1000);
    s.enable(4, 0);
    s.enable(3, 0);
    // alarms are pending, so disabling keeps the interrupt but makes its alarm stale
    assert!(!s.disable(3));
    assert_eq!(s.get(3).unwrap().current_alarm_id, 1);
    assert_eq!(s.get(3).unwrap().status, TimerInterruptStatus::Disabled);
    s.enable(3, 5);
    assert_eq!(s.lowest_alarm_time(), Some(10));

    let step = s.update_interrupt_step(10);
    assert_eq!(step.fired, None);
    assert_eq!(step.program_alarm, Some(15));
    let step = s.update_interrupt_step(15);
    assert_eq!(step.fired, Some(3));
    assert_eq!(step.program_alarm, Some(1000));
}

#[test]
fn enabling_twice_sets_one_alarm() {
    let mut s = TimerScheduler::new();
    s.interrupt_after(1, 10);
    assert!(s.activation_needs_counter(1));
    s.enable(1, 0);
    assert!(!s.activation_needs_counter(1));
    s.enable(1, 5);
    assert_eq!(s.pop_lowest(), Some(Alarm::new(1, 0, 10)));
    assert_eq!(s.pop_lowest(), None);
}

#[test]
fn disabling_with_no_alarm_pending_resets_the_driver() {
    let mut s = TimerScheduler::new();
    s.interrupt_after(1, 10);
    assert!(s.disable(1));
    assert!(s.get(1).is_none());
    assert!(!s.activation_needs_counter(1));
}

#[test]
fn removed_interrupt_is_marked_for_removal() {
    let mut s = TimerScheduler::new();
    s.interrupt_after(1, 10);
    s.interrupt_after(2, 20);
    s.enable(1, 0);
    s.enable(2, 0);
    assert!(!s.remove_interrupt(1));
    assert_eq!(s.get(1).unwrap().status, TimerInterruptStatus::Removing);
    // its pending alarm is stale
    let step = s.update_interrupt_step(10);
    assert_eq!(step.fired, None);
}

#[test]
fn an_alarm_of_a_removing_interrupt_removes_it() {
    let mut s = TimerScheduler::new();
    s.interrupt_after(1, 10);
    s.interrupt_after(2, 20);
    s.enable(2, 0);
    // interrupt 1 is disabled, so its alarm id does not move
    assert!(!s.remove_interrupt(1));
    assert!(!s.handle_alarm_update(Alarm::new(1, 0, 10), 10));
    assert!(s.get(1).is_none());
}

#[test]
fn reset_forgets_everything() {
    let mut s = TimerScheduler::new();
    s.interrupt_after(1, 10);
    s.enable(1, 0);
    s.reset();
    assert!(s.get(1).is_none());
    assert_eq!(s.lowest_alarm_time(), None);
}

#[test]
fn redefining_an_interrupt_advances_its_alarm_id() {
    let mut s = TimerScheduler::new();
    s.interrupt_after(7, 10);
    s.interrupt_after_n_times(7, 30, Some(4), true);
    let t = s.get(7).unwrap();
    assert_eq!(t.current_alarm_id, 1);
    assert_eq!(t.after, 30);
    assert_eq!(t.remaining_triggers, Some(4));
    assert!(t.auto_reenable);
}

#[test]
fn time_interrupt_triggers_are_counted() {
    let mut t = TimeInterrupt::new(1, 5, Some(1), false);
    assert!(t.any_triggers_left());
    assert!(t.trigger());
    assert_eq!(t.remaining_triggers, Some(0));
    assert!(!t.any_triggers_left());
    assert!(!t.trigger());
    let mut u = TimeInterrupt::new(2, 5, None, false);
    assert!(u.trigger());
    assert!(u.any_triggers_left());
    assert_eq!(u.get_alarm(7), Alarm::new(2, 0, 12));
    u.disable_previouse_alarms();
    assert_eq!(u.get_alarm(7).alarm_id, 1);
}

#[test]
fn alarms_that_would_overflow_the_counter_are_detected() {
    let mut s = TimerScheduler::new();
    assert!(s.alarms_fit(u64::MAX));
    s.interrupt_after(1, 10);
    assert!(s.alarms_fit(u64::MAX - 10));
    assert!(!s.alarms_fit(u64::MAX - 9));
}

#[test]
fn micro_seconds_to_counter_ticks() {
    assert_eq!(micro_to_counter(1_000_000, 80), 80);
    assert_eq!(micro_to_counter(1500, 1_000_000), 1500);
    assert_eq!(micro_to_counter(999_999, 1), 0);
}

#[test]
fn children_get_distinct_ids() {
    let mut original = TimerDriverHandle::new(0);
    let mut a = original.create_child_copy().unwrap();
    let b = original.create_child_copy().unwrap();
    assert_eq!(a.id, 1);
    assert_eq!(b.id, 2);
    assert_eq!(b.group, 0);
    assert_eq!(original.next_child, 3);
    assert_eq!(a.create_child_copy().err(), Some(TimerDriverError::OnlyOriginalCopyCanCreateChildren));
    assert_eq!(a.delay_id(), 1 + MAX_CHILDREN);
}

#[test]
fn the_original_runs_out_of_children() {
    let mut original = TimerDriverHandle::new(0);
    for _ in 1..MAX_CHILDREN {
        assert!(original.create_child_copy().is_ok());
    }
    assert_eq!(original.create_child_copy().err(), Some(TimerDriverError::TooManyChildren));
}

#[test]
fn interrupts_sharing_a_timer_do_not_disturb_each_other() {
    let mut s = TimerScheduler::new();
    s.interrupt_after_n_times(1, 100, Some(3), true);
    s.interrupt_after(2, 30);
    s.enable(1, 0);
    let before = s.get(1).unwrap();
    s.enable(2, 0);
    s.disable(2);
    s.interrupt_after(2, 40);
    let after = s.get(1).unwrap();
    assert_eq!(after.status, before.status);
    assert_eq!(after.current_alarm_id, before.current_alarm_id);
    assert_eq!(after.remaining_triggers, before.remaining_triggers);
    // the stale alarm of interrupt 2 comes first and changes nothing
    assert_eq!(s.update_interrupt_step(30).fired, None);
    assert_eq!(s.update_interrupt_step(100).fired, Some(1));
}
