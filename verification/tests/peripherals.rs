use esp32framework::microcontroller_src::microcontroller::TimerDriverPool;
use esp32framework::microcontroller_src::peripherals::{Peripheral, PeripheralError, Peripherals};
use esp32framework::timer_driver::{TimerDriverError, TimerDriverHandle};

#[test]
fn a_pin_is_handed_out_once() {
    let mut p = Peripherals::new();
    assert_eq!(p.get_digital_pin(5), Peripheral::Pin(5));
    assert_eq!(p.get_digital_pin(5), Peripheral::Unavailable);
    assert_eq!(p.get_pwm_pin(5), Peripheral::Unavailable);
    assert_eq!(p.get_pwm_pin(6), Peripheral::Pin(6));
}

#[test]
fn pins_out_of_bounds_are_unavailable() {
    let mut p = Peripherals::new();
    assert_eq!(p.get_digital_pin(24), Peripheral::Unavailable);
    assert_eq!(p.get_analog_pin(7), Peripheral::Unavailable);
    assert_eq!(p.get_analog_pin(6), Peripheral::Pin(6));
    assert_eq!(p.get_digital_pin(14), Peripheral::Unavailable);
}

#[test]
fn timers_and_uarts_are_handed_out_once() {
    let mut p = Peripherals::new();
    assert_eq!(p.get_timer(1), Peripheral::Timer(1));
    assert_eq!(p.get_timer(1), Peripheral::Unavailable);
    assert_eq!(p.get_timer(2), Peripheral::Unavailable);
    assert_eq!(p.get_uart(0), Peripheral::Uart(0));
    assert_eq!(p.get_uart(0), Peripheral::Unavailable);
    assert_eq!(p.get_uart(5), Peripheral::Unavailable);
}

#[test]
fn pwm_channels_come_in_order_with_their_timers() {
    let mut p = Peripherals::new();
    for i in 0..4u8 {
        assert_eq!(p.get_next_pwm(), (Peripheral::PWMChannel(i), Peripheral::PWMTimer(i)));
    }
    assert_eq!(p.get_next_pwm(), (Peripheral::Unavailable, Peripheral::Unavailable));
}

#[test]
fn single_peripherals_are_handed_out_once() {
    let mut p = Peripherals::new();
    assert_eq!(p.get_adc(), Peripheral::Adc);
    assert_eq!(p.get_adc(), Peripheral::Unavailable);
    assert_eq!(p.get_i2c(), Peripheral::I2C);
    assert_eq!(p.get_i2c(), Peripheral::Unavailable);
    assert_eq!(p.get_ble_peripheral(), Peripheral::BleDevice);
    assert_eq!(p.get_ble_peripheral(), Peripheral::Unavailable);
    assert_eq!(p.get_wifi_peripheral(), Peripheral::Modem);
    assert_eq!(p.get_wifi_peripheral(), Peripheral::Unavailable);
}

#[test]
fn taking_a_peripheral_leaves_nothing() {
    let mut slot = Peripheral::Pin(3);
    assert_eq!(slot.take(), Peripheral::Pin(3));
    assert_eq!(slot, Peripheral::Unavailable);
    assert_eq!(Peripheral::default(), Peripheral::Unavailable);
}

#[test]
fn peripheral_kinds_are_checked() {
    assert_eq!(Peripheral::Pin(4).io_pin_number(), Ok(4));
    assert_eq!(Peripheral::Pin(14).io_pin_number(), Err(PeripheralError::NotAPin));
    assert_eq!(Peripheral::Pin(24).io_pin_number(), Err(PeripheralError::NotAPin));
    assert_eq!(Peripheral::Adc.io_pin_number(), Err(PeripheralError::NotAPin));
    assert_eq!(Peripheral::Unavailable.io_pin_number(), Err(PeripheralError::AlreadyTaken));
    assert_eq!(Peripheral::I2C.check_i2c0(), Ok(()));
    assert_eq!(Peripheral::Adc.check_i2c0(), Err(PeripheralError::NotAnI2CPeripheral));
    assert_eq!(Peripheral::BleDevice.check_ble_device(), Ok(()));
    assert_eq!(Peripheral::Modem.check_ble_device(), Err(PeripheralError::NotABleDevicePeripheral));
    assert_eq!(Peripheral::Modem.check_modem(), Ok(()));
    assert_eq!(Peripheral::BleDevice.check_modem(), Err(PeripheralError::NotABleDevicePeripheral));
    assert_eq!(Peripheral::Unavailable.check_modem(), Err(PeripheralError::AlreadyTaken));
    assert_eq!(Peripheral::Timer(1).timer_group_number(), Ok(1));
    assert_eq!(Peripheral::Timer(2).timer_group_number(), Err(PeripheralError::NotATimerGroup));
    assert_eq!(Peripheral::PWMTimer(3).pwm_timer_number(), Ok(3));
    assert_eq!(Peripheral::PWMChannel(3).pwm_timer_number(), Err(PeripheralError::NotAPwmTimer));
    assert_eq!(Peripheral::PWMChannel(2).pwm_channel_number(), Ok(2));
    assert_eq!(Peripheral::PWMChannel(4).pwm_channel_number(), Err(PeripheralError::NotAPwmChannel));
    assert_eq!(Peripheral::Unavailable.pwm_channel_number(), Err(PeripheralError::AlreadyTaken));
}

#[test]
fn timer_groups_take_turns() {
    let mut pool = TimerDriverPool::new(vec![TimerDriverHandle::new(0), TimerDriverHandle::new(1)]);
    // the groups alternate, and each numbers its own children
    let served: Vec<(u8, u16)> = (0..4)
        .map(|_| {
            let child = pool.get_timer_driver().unwrap();
            (child.group, child.id)
        })
        .collect();
    assert_eq!(served, vec![(0, 1), (1, 1), (0, 2), (1, 2)]);
}

#[test]
fn a_pool_of_children_cannot_serve() {
    let mut original = TimerDriverHandle::new(0);
    let child = original.create_child_copy().unwrap();
    let mut pool = TimerDriverPool::new(vec![child]);
    assert_eq!(
        pool.get_timer_driver().err(),
        Some(TimerDriverError::OnlyOriginalCopyCanCreateChildren)
    );
    assert_eq!(pool.len(), 0);
}

#[test]
fn a_failing_group_leaves_the_rotation() {
    let mut original = TimerDriverHandle::new(0);
    let child = original.create_child_copy().unwrap();
    let mut pool = TimerDriverPool::new(vec![child, TimerDriverHandle::new(1)]);
    assert!(pool.get_timer_driver().is_err());
    assert_eq!(pool.len(), 1);
    let served = pool.get_timer_driver().unwrap();
    assert_eq!((served.group, served.id), (1, 1));
    assert_eq!(pool.len(), 1);
}
