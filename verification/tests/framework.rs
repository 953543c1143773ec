use esp32framework::esp_test_runner::pretty_prints::{
    decimal_string, end_of_tests_message, executing_test_message, failing_test_message,
    get_test_id, not_executed_test_message, passing_test_message, push_decimal,
    test_separator_message, tests_statistics_message, BLUE_ANSI, RESET_ANSI,
};
use esp32framework::esp_test_runner::test_runner::{TestCounters, TestExecutionFailures, TestVerdict};
use esp32framework::gpio::analog::analog_in::{
    adc_channel_for, clamp_reading, smooth_average, AnalogInError,
};
use esp32framework::gpio::analog::analog_in_pwm::{
    count_high_samples, sampling_for_frequency, AnalogInPwmError,
};
use esp32framework::gpio::digital::digital_in::{
    DigitalInError, DigitalInPlan, DigitalInState, FirstNTimes, HardwareInterruptType,
    InterruptType, InterruptUpdate, Level, PinAction,
};
use esp32framework::gpio::analog::analog_out::AnalogOutError;
use esp32framework::gpio::digital::digital_out::{
    blink_triggers, handle_update, toggle_level, DigitalOutError, OutInterruptUpdate,
};
use esp32framework::microcontroller_src::peripherals::{Peripheral, PeripheralError};
use esp32framework::serial::i2c::{i2c_io_pins, I2CError};
use esp32framework::serial::uart::{
    baudrate_to_hertz, default_config, set_config, uart_io_pins, uart_number, Parity, StopBit,
    UARTError, UartConfig,
};
use esp32framework::timer_driver::TimerDriverError;
use esp32framework::utils::auxiliary::micro_to_ticks;
use esp32framework::utils::centralized_notifier::{
    notification_received, notify_outcome, CentralizedNotification, CentralizedNotificationError,
};
use std::time::Duration;
use esp32framework::utils::esp32_framework_error::{
    AdcDriverError, ESP_ERR_INVALID_ARG, ESP_ERR_INVALID_STATE, ESP_ERR_NOT_FOUND, ESP_ERR_NO_MEM,
    ESP_ERR_TIMEOUT, ESP_FAIL,
};
use esp32framework::utils::isr_queues::{byte_array_queue_capacity, frame_bytes, unframe_bytes};
use esp32framework::wifi::http::{
    header_pairs, read_error, HttpError, HttpHeader, HttpHeaderType, HTTP_READ_TIMEOUT_CODE,
};
use esp32framework::wifi::wifi_driver::{
    authentication_method_name, connection_auth_method, AccesPoint, AuthKind, WifiError,
};

#[test]
fn any_edge_interrupts_alternate() {
    let mut st = DigitalInState::new();
    assert_eq!(st.change_interrupt_type(InterruptType::AnyEdgeNextEdgeIsPos), HardwareInterruptType::PosEdge);
    let plan = st.plan_update(InterruptUpdate::ExecAndEnablePin, Level::Low).unwrap();
    assert_eq!(
        plan,
        DigitalInPlan {
            callback_level: Some(Level::High),
            new_interrupt_type: Some(InterruptType::AnyEdgeNextEdgeIsNeg),
            action: PinAction::EnablePinInterrupt,
        }
    );
    assert_eq!(st.interrupt_type, Some(InterruptType::AnyEdgeNextEdgeIsNeg));
    let plan = st.plan_update(InterruptUpdate::ExecAndEnablePin, Level::High).unwrap();
    assert_eq!(plan.callback_level, Some(Level::Low));
    assert_eq!(st.interrupt_type, Some(InterruptType::AnyEdgeNextEdgeIsPos));
}

#[test]
fn debounced_interrupts_run_only_if_the_level_held() {
    let mut st = DigitalInState::new();
    st.change_interrupt_type(InterruptType::PosEdge);
    st.set_debounce(2000);
    assert!(st.debounced());
    let held = st.plan_update(InterruptUpdate::TimerReached, Level::High).unwrap();
    assert_eq!(held.callback_level, Some(Level::High));
    assert_eq!(held.action, PinAction::EnablePinInterrupt);
    let bounced = st.plan_update(InterruptUpdate::TimerReached, Level::Low).unwrap();
    assert_eq!(bounced.callback_level, None);
    assert_eq!(bounced.action, PinAction::EnablePinInterrupt);
}

#[test]
fn plans_without_an_interrupt_type() {
    let mut st = DigitalInState::new();
    assert_eq!(st.get_interrupt_level(), Err(DigitalInError::NoInterruptTypeSet));
    assert_eq!(st.plan_update(InterruptUpdate::ExecAndEnablePin, Level::High), Err(DigitalInError::NoInterruptTypeSet));
    assert_eq!(st.plan_update(InterruptUpdate::NoUpdate, Level::High).unwrap().action, PinAction::Nothing);
    assert_eq!(
        st.plan_update(InterruptUpdate::EnableTimerDriver, Level::High).unwrap().action,
        PinAction::EnableTimerDriver
    );
    st.change_interrupt_type(InterruptType::LowLevel);
    assert_eq!(st.get_interrupt_level(), Ok(Level::Low));
    let plan = st.plan_update(InterruptUpdate::ExecAndUnsubscribePin, Level::Low).unwrap();
    assert_eq!(plan.action, PinAction::UnsubscribePin);
    assert_eq!(plan.callback_level, Some(Level::Low));
}

#[test]
fn first_n_times_unsubscribes_on_the_last() {
    let mut f = FirstNTimes { remaining: 2 };
    assert_eq!(f.on_interrupt(), InterruptUpdate::ExecAndEnablePin);
    assert_eq!(f.on_interrupt(), InterruptUpdate::ExecAndUnsubscribePin);
}

#[test]
fn interrupt_update_codes() {
    for u in [
        InterruptUpdate::EnableTimerDriver,
        InterruptUpdate::ExecAndEnablePin,
        InterruptUpdate::ExecAndUnsubscribePin,
        InterruptUpdate::NoUpdate,
        InterruptUpdate::TimerReached,
    ] {
        assert_eq!(InterruptUpdate::from_code(u.get_code()), u);
    }
    assert_eq!(InterruptUpdate::from_code(200), InterruptUpdate::NoUpdate);
    assert_eq!(InterruptType::HighLevel.to_svc(), HardwareInterruptType::HighLevel);
    assert_eq!(InterruptType::NegEdge.get_level(), Level::Low);
    assert_eq!(InterruptType::PosEdge.after_swap(), InterruptType::PosEdge);
    assert_eq!(Level::Low.toggled(), Level::High);
    assert_eq!(DigitalInError::from_enable_disable_errors(ESP_ERR_INVALID_STATE), DigitalInError::StateAlreadySet);
    assert_eq!(DigitalInError::from_enable_disable_errors(ESP_ERR_INVALID_ARG), DigitalInError::InvalidPin);
}

#[test]
fn digital_out_updates() {
    assert_eq!(toggle_level(true), Level::Low);
    assert_eq!(toggle_level(false), Level::High);
    assert_eq!(blink_triggers(0), None);
    assert_eq!(blink_triggers(3), Some(5));
    assert!(handle_update(OutInterruptUpdate::Blink));
    assert!(!handle_update(OutInterruptUpdate::NoUpdate));
    assert_eq!(OutInterruptUpdate::from_code(OutInterruptUpdate::Blink.get_code()), OutInterruptUpdate::Blink);
    assert_eq!(OutInterruptUpdate::from_code(9), OutInterruptUpdate::NoUpdate);
}

#[test]
fn analog_readings() {
    assert_eq!(clamp_reading(5000), 4095);
    assert_eq!(clamp_reading(1000), 1000);
    assert_eq!(smooth_average(&vec![1000, 2000, 3000]), 2000);
    assert_eq!(smooth_average(&vec![5000, 0]), 2047);
    assert_eq!(smooth_average(&vec![7]), 7);
    assert!(matches!(adc_channel_for(Peripheral::Pin(3)), Ok(3)));
    assert!(matches!(adc_channel_for(Peripheral::Pin(7)), Err(AnalogInError::InvalidPin)));
    assert!(matches!(
        adc_channel_for(Peripheral::Unavailable),
        Err(AnalogInError::InvalidPeripheral(PeripheralError::AlreadyTaken))
    ));
    assert!(matches!(adc_channel_for(Peripheral::Adc), Err(AnalogInError::InvalidPeripheral(PeripheralError::NotAPin))));
}

#[test]
fn analog_pwm_sampling() {
    assert_eq!(sampling_for_frequency(1000), 2000);
    assert_eq!(count_high_samples(&vec![true, false, true, true]), 3);
    assert_eq!(count_high_samples(&vec![]), 0);
    assert_eq!(
        AnalogInPwmError::from_timer_driver_error(TimerDriverError::ErrorReadingTimer),
        AnalogInPwmError::TimerDriverError(TimerDriverError::ErrorReadingTimer)
    );
}

#[test]
fn adc_driver_error_codes() {
    assert!(matches!(AdcDriverError::from_code(ESP_ERR_INVALID_ARG, String::new()), AdcDriverError::InvalidArgs));
    assert!(matches!(AdcDriverError::from_code(ESP_ERR_NO_MEM, String::new()), AdcDriverError::NoMemory));
    assert!(matches!(AdcDriverError::from_code(ESP_ERR_NOT_FOUND, String::new()), AdcDriverError::AlreadyTaken));
    assert!(matches!(AdcDriverError::from_code(ESP_FAIL, String::new()), AdcDriverError::ClockError));
    assert!(matches!(AdcDriverError::from_code(77, "x".to_string()), AdcDriverError::Code(77, m) if m == "x"));
}

#[test]
fn uart_configuration() {
    assert_eq!(baudrate_to_hertz(9600), Ok(9600));
    assert_eq!(baudrate_to_hertz(3_686_400), Ok(3_686_400));
    assert_eq!(baudrate_to_hertz(9601), Err(UARTError::InvalidBaudrate));
    assert_eq!(
        set_config(57600, Parity::Even, StopBit::Two),
        Ok(UartConfig { baudrate_hz: 57600, parity: Parity::Even, stop_bits: StopBit::Two })
    );
    assert_eq!(set_config(1, Parity::Odd, StopBit::One), Err(UARTError::InvalidBaudrate));
    assert_eq!(
        default_config(),
        UartConfig { baudrate_hz: 115_200, parity: Parity::NoParity, stop_bits: StopBit::One }
    );
    assert_eq!(uart_number(Peripheral::Uart(1)), Ok(1));
    assert_eq!(uart_number(Peripheral::Uart(2)), Err(UARTError::InvalidUartNumber));
    assert_eq!(uart_number(Peripheral::Pin(1)), Err(UARTError::InvalidUartNumber));
}

#[test]
fn i2c_error_codes() {
    assert_eq!(I2CError::from_driver_creation_code(ESP_ERR_INVALID_ARG), I2CError::InvalidArg);
    assert_eq!(I2CError::from_driver_creation_code(ESP_FAIL), I2CError::DriverError);
    assert_eq!(I2CError::from_master_transfer_code(ESP_ERR_NO_MEM), I2CError::BufferTooSmall);
    assert_eq!(I2CError::from_master_transfer_code(ESP_FAIL), I2CError::NoMoreHeapMemory);
    assert_eq!(I2CError::from_slave_transfer_code(ESP_ERR_TIMEOUT), I2CError::TimeoutError);
    assert_eq!(I2CError::from_slave_transfer_code(ESP_FAIL), I2CError::InvalidArg);
    assert_eq!(
        I2CError::from_peripheral_error(PeripheralError::NotAnI2CPeripheral),
        I2CError::PeripheralError(PeripheralError::NotAnI2CPeripheral)
    );
}

#[test]
fn ticks_from_micro_seconds() {
    assert_eq!(micro_to_ticks(1000, 1_000_000), 1000);
    assert_eq!(micro_to_ticks(100, 15_000), 1);
    assert_eq!(micro_to_ticks(100, 9_999), 0);
    assert_eq!(micro_to_ticks(u32::MAX, u32::MAX), ((u32::MAX as u64 * u32::MAX as u64) / 1_000_000) as u32);
}

#[test]
fn byte_arrays_through_a_queue_of_bytes() {
    let items = frame_bytes(&vec![7, 0, 9]);
    assert_eq!(items, vec![Some(7), Some(0), Some(9), None]);
    assert_eq!(unframe_bytes(&items), Some((vec![7, 0, 9], 4)));
    let mut two = frame_bytes(&vec![1]);
    two.extend(frame_bytes(&vec![2, 3]));
    assert_eq!(unframe_bytes(&two), Some((vec![1], 2)));
    assert_eq!(unframe_bytes(&vec![Some(1), Some(2)]), None);
    assert_eq!(unframe_bytes(&frame_bytes(&vec![])), Some((vec![], 1)));
    assert_eq!(byte_array_queue_capacity(3), 96);
}

#[test]
fn http_headers_and_errors() {
    assert_eq!(read_error(HTTP_READ_TIMEOUT_CODE), HttpError::TimeoutError);
    assert_eq!(read_error(-1), HttpError::ReadError);
    assert_eq!(HttpHeaderType::ContentType.to_string(), "Content-Type");
    assert_eq!(HttpHeaderType::AIM.to_string(), "A-IM");
    assert_eq!(HttpHeaderType::Custom("X-Token").to_string(), "X-Token");
    let headers = vec![
        HttpHeader::new(HttpHeaderType::Host, "example.com"),
        HttpHeader::new(HttpHeaderType::Custom("X-A"), "1"),
    ];
    assert_eq!(header_pairs(&headers), vec![("Host", "example.com"), ("X-A", "1")]);
}

#[test]
fn wifi_authentication() {
    assert_eq!(authentication_method_name(Some(AuthKind::WPA2Personal)), "WPA2-Personal");
    assert_eq!(authentication_method_name(Some(AuthKind::NoAuth)), "None");
    assert_eq!(authentication_method_name(None), "None");
    let ap = AccesPoint::new("home".to_string(), Some(AuthKind::WAPIPersonal), -40);
    assert_eq!(ap.ssid, "home");
    assert_eq!(ap.authentication_method, "WAPI");
    assert_eq!(ap.signal_strength, -40);
    assert_eq!(connection_auth_method(&Some("pw".to_string())), AuthKind::WPAWPA2Personal);
    assert_eq!(connection_auth_method(&None), AuthKind::NoAuth);
    assert_eq!(WifiError::from_connect_wait_code(ESP_ERR_TIMEOUT), WifiError::ConnectionTimeout);
    assert_eq!(WifiError::from_connect_wait_code(ESP_FAIL), WifiError::ConnectingError);
}

#[test]
fn test_counters_add_up() {
    let mut c = TestCounters::new();
    assert_eq!(c.start_next_test(), 0);
    assert_eq!(c.handle_res(Ok(())), TestVerdict::Passed);
    assert_eq!(c.start_next_test(), 1);
    assert_eq!(c.handle_res(Err(TestExecutionFailures::TestFailed)), TestVerdict::Failed);
    assert_eq!(c.start_next_test(), 2);
    assert_eq!(
        c.handle_res(Err(TestExecutionFailures::DynamicTestNotSupported)),
        TestVerdict::NotExecuted(TestExecutionFailures::DynamicTestNotSupported)
    );
    assert!(c.is_finished(3));
    assert!(!c.is_finished(4));
    assert_eq!(c.successfull, 1);
    assert_eq!(c.skipped, 1);
    assert_eq!(c.failed_tests(3), 1);
    c.reset();
    assert_eq!(c, TestCounters::new());
}

#[test]
fn test_messages() {
    assert_eq!(decimal_string(0), "0");
    assert_eq!(decimal_string(7), "7");
    assert_eq!(decimal_string(42), "42");
    assert_eq!(decimal_string(255), "255");
    let mut s = String::from("n=");
    push_decimal(&mut s, 100);
    assert_eq!(s, "n=100");
    assert_eq!(get_test_id(BLUE_ANSI, 12, "adds"), format!("{}Test: 12 {}adds ", BLUE_ANSI, RESET_ANSI));
    assert_eq!(
        executing_test_message(3, "t"),
        "\x1b[34mExecuting \x1b[0m\x1b[34mTest: 3 \x1b[0mt  ..."
    );
    assert_eq!(
        failing_test_message(1, "t", "boom"),
        "\x1b[34mTest: 1 \x1b[0mt \x1b[31mfailed, boom\x1b[0m"
    );
    assert_eq!(passing_test_message(1, "t"), "\x1b[34mTest: 1 \x1b[0mt \x1b[32mwas successfull\x1b[0m");
    assert_eq!(
        not_executed_test_message(2, "t", "bench"),
        "\x1b[34mTest: 2 \x1b[0mt \x1b[33mnot executed due to: bench\x1b[0m"
    );
    assert_eq!(end_of_tests_message(), "\x1b[38;5;94mFinished Executing tests\x1b[0m");
    assert_eq!(test_separator_message(), "\x1b[96m======================\x1b[0m");
    assert_eq!(
        tests_statistics_message(4, 1, 2, 1),
        "\x1b[38;5;94mTest quantity 4\x1b[0m: \x1b[32mSuccessfull tests: 1\x1b[0m | \x1b[31mFailed tests: 1\x1b[0m | \x1b[33mSkipped tests: 2\x1b[0m"
    );
}

#[test]
fn notifications_wake_the_waiter() {
    let point = CentralizedNotification::new();
    let notifier = point.create_notifier();
    assert_eq!(notifier.notify(), Ok(()));
    assert_eq!(point.wait_for_notification(Some(Duration::from_millis(50))), Some(true));
    assert_eq!(point.wait_for_notification(Some(Duration::from_millis(10))), None);
    assert_eq!(notifier.notify(), Ok(()));
    assert_eq!(point.wait_for_notification(None), Some(true));
    drop(point);
    assert_eq!(notifier.notify(), Err(CentralizedNotificationError::NoOneToReceiveNotification));
}

#[test]
fn errors_wrap_the_errors_they_come_from() {
    assert_eq!(
        WifiError::from_peripheral_error(PeripheralError::AlreadyTaken),
        WifiError::PeripheralError(PeripheralError::AlreadyTaken)
    );
    assert_eq!(
        AnalogOutError::from_timer_driver_error(TimerDriverError::CouldNotSetTimer),
        AnalogOutError::TimerDriverError(TimerDriverError::CouldNotSetTimer)
    );
    assert_eq!(
        DigitalOutError::from_timer_driver_error(TimerDriverError::SubscriptionError),
        DigitalOutError::TimerDriverError(TimerDriverError::SubscriptionError)
    );
    assert_eq!(
        DigitalInError::from_timer_driver_error(TimerDriverError::ErrorReadingAlarm),
        DigitalInError::TimerDriverError(TimerDriverError::ErrorReadingAlarm)
    );
    assert!(matches!(
        AnalogInError::from_adc_driver_error(AdcDriverError::NoMemory),
        AnalogInError::AdcDriverError(AdcDriverError::NoMemory)
    ));
    assert!(matches!(
        AdcDriverError::from_peripheral_error(PeripheralError::NotAPin),
        AdcDriverError::PeripheralError(PeripheralError::NotAPin)
    ));
}

#[test]
fn outcomes_of_receiving_and_sending() {
    assert_eq!(notification_received::<()>(Ok(())), Some(true));
    assert_eq!(notification_received(Err("timed out")), None);
    assert_eq!(notify_outcome::<()>(Ok(())), Ok(()));
    assert_eq!(notify_outcome(Err(7)), Err(CentralizedNotificationError::NoOneToReceiveNotification));
}

#[test]
fn serial_pins_that_are_not_io_pins_are_invalid_pins() {
    assert_eq!(uart_io_pins(Peripheral::Pin(16), Peripheral::Pin(17)), Ok((16, 17)));
    assert_eq!(uart_io_pins(Peripheral::Unavailable, Peripheral::Pin(17)), Err(UARTError::InvalidPin));
    assert_eq!(uart_io_pins(Peripheral::Pin(16), Peripheral::Adc), Err(UARTError::InvalidPin));
    assert_eq!(i2c_io_pins(Peripheral::Pin(6), Peripheral::Pin(7)), Ok((6, 7)));
    assert_eq!(i2c_io_pins(Peripheral::Pin(6), Peripheral::Unavailable), Err(I2CError::InvalidPin));
    assert_eq!(i2c_io_pins(Peripheral::Pin(24), Peripheral::Pin(7)), Err(I2CError::InvalidPin));
}

#[test]
fn a_blink_toggles_twice_per_blink_and_ends_where_it_started() {
    for n in 1..=4u32 {
        let triggers = blink_triggers(n).unwrap();
        let mut high = false;
        for _ in 0..(triggers + 1) {
            high = matches!(toggle_level(high), esp32framework::gpio::digital::digital_in::Level::High);
        }
        assert!(!high);
        assert_eq!(triggers + 1, 2 * n);
    }
}
