use esp32framework::sensors::bme280::{
    check_status, mask_and_shift, mode_register, reset_bytes, BMEMode, Oversampling,
    SdoConnection, CRTL_MEAS_PRESS_OVS_MASK, CRTL_MEAS_TEMP_OVS_MASK, PRESS_OVS_SHIFT,
    STAUTS_MEASURING_MASK, TEMP_OVS_SHIFT,
};
use esp32framework::sensors::ds3231::{
    alarm_1_control, alarm_1_rearm_bytes, alarm_1_registers, alarm_1_status, alarm_2_control,
    alarm_2_rearm_bytes, alarm_2_registers, alarm_2_status, bcd_to_decimal, decimal_to_bcd,
    meridiem_from_register, restart_writes, set_alarm_1_writes, set_alarm_2_writes,
    set_time_writes, temperature_quarter_degrees, twos_complement_to_decimal, Alarm1Rate,
    Alarm2Rate, DateTime, DateTimeComponent, Ds3231Protocol, HourMode, Meridiem, ALARM_MSB_ON,
    CONTROL_ADDR, CONTROL_STATUS_ADDR, HOURS_ADDR,
};
use esp32framework::serial::i2c::I2CError;

#[test]
fn bcd_encodes_two_decimal_digits() {
    assert_eq!(decimal_to_bcd(0), 0x00);
    assert_eq!(decimal_to_bcd(9), 0x09);
    assert_eq!(decimal_to_bcd(45), 0x45);
    assert_eq!(decimal_to_bcd(99), 0x99);
    assert_eq!(bcd_to_decimal(0x59), 59);
    assert_eq!(bcd_to_decimal(0x12), 12);
}

#[test]
fn bcd_round_trip_on_every_two_digit_number() {
    for n in 0..=99u8 {
        assert_eq!(bcd_to_decimal(decimal_to_bcd(n)), n);
    }
}

#[test]
fn setting_a_component_writes_its_register() {
    let rtc = Ds3231Protocol::new();
    assert_eq!(rtc.set_bytes(30, DateTimeComponent::Minute), Ok([0x01, 0x30]));
    assert_eq!(rtc.set_bytes(59, DateTimeComponent::Second), Ok([0x00, 0x59]));
    assert_eq!(rtc.set_bytes(7, DateTimeComponent::WeekDay), Ok([0x03, 0x07]));
    assert_eq!(rtc.set_bytes(12, DateTimeComponent::Month), Ok([0x05, 0x12]));
    assert_eq!(rtc.set_bytes(24, DateTimeComponent::Year), Ok([0x06, 0x24]));
    assert_eq!(rtc.set_bytes(31, DateTimeComponent::Date), Ok([0x04, 0x31]));
}

#[test]
fn out_of_bounds_components_are_refused() {
    let rtc = Ds3231Protocol::new();
    assert_eq!(rtc.set_bytes(60, DateTimeComponent::Second), Err(I2CError::InvalidArg));
    assert_eq!(rtc.set_bytes(0, DateTimeComponent::WeekDay), Err(I2CError::InvalidArg));
    assert_eq!(rtc.set_bytes(8, DateTimeComponent::WeekDay), Err(I2CError::InvalidArg));
    assert_eq!(rtc.set_bytes(13, DateTimeComponent::Month), Err(I2CError::InvalidArg));
    assert_eq!(rtc.set_bytes(100, DateTimeComponent::Year), Err(I2CError::InvalidArg));
    assert_eq!(rtc.set_bytes(25, DateTimeComponent::Hour), Err(I2CError::InvalidArg));
    assert_eq!(rtc.set_bytes(24, DateTimeComponent::Hour), Ok([HOURS_ADDR, 0x24]));
    assert_eq!(rtc.set_bytes(0, DateTimeComponent::Date), Err(I2CError::InvalidArg));
    assert_eq!(rtc.set_bytes(32, DateTimeComponent::Date), Err(I2CError::InvalidArg));
    assert_eq!(rtc.set_bytes(1, DateTimeComponent::Date), Ok([0x04, 0x01]));
    assert_eq!(rtc.set_bytes(0, DateTimeComponent::Hour), Ok([HOURS_ADDR, 0x00]));
}

#[test]
fn hours_carry_the_hour_mode_bits() {
    let h24 = Ds3231Protocol::new();
    assert_eq!(h24.set_bytes(23, DateTimeComponent::Hour), Ok([HOURS_ADDR, 0x23]));
    let am = Ds3231Protocol::new_with_hour_mode(HourMode::TwelveHourAM);
    assert_eq!(am.set_bytes(11, DateTimeComponent::Hour), Ok([HOURS_ADDR, 0x40 | 0x11]));
    assert_eq!(am.set_bytes(13, DateTimeComponent::Hour), Err(I2CError::InvalidArg));
    let pm = Ds3231Protocol::new_with_hour_mode(HourMode::TwelveHourPM);
    assert_eq!(pm.write_clock_bytes(5, HOURS_ADDR), [HOURS_ADDR, 0x65]);
    assert_eq!(pm.write_clock_bytes(5, 0x01), [0x01, 0x05]);
}

#[test]
fn reading_the_clock_registers() {
    let rtc = Ds3231Protocol::new();
    let data = [0x80 | 0x42, 0x17, 0x23, 0x04, 0x28, 0x02, 0x24, 0, 0, 0, 0, 0, 0];
    let t = rtc.parse_read_data(data);
    assert_eq!(t.secs, 42);
    assert_eq!(t.min, 17);
    assert_eq!(t.hrs, 23);
    assert_eq!(t.dow, "Wednesday");
    assert_eq!(t.day_number, 28);
    assert_eq!(t.month, 2);
    assert_eq!(t.year, 24);
    let bad_day = rtc.parse_read_data([0, 0, 0, 0x09, 1, 1, 0, 0, 0, 0, 0, 0, 0]);
    assert_eq!(bad_day.dow, "");
}

#[test]
fn twelve_hour_reads_drop_the_meridiem_bit() {
    let rtc = Ds3231Protocol::new_with_hour_mode(HourMode::TwelveHourPM);
    assert_eq!(rtc.parse_component(0x71, DateTimeComponent::Hour), 11);
    assert_eq!(meridiem_from_register(0x71), Meridiem::PM);
    assert_eq!(meridiem_from_register(0x51), Meridiem::AM);
}

#[test]
fn component_addresses_and_bounds() {
    assert_eq!(DateTimeComponent::Second.addr(), 0x00);
    assert_eq!(DateTimeComponent::Year.addr(), 0x06);
    assert!(DateTimeComponent::Hour.is_between_boundaries(23, HourMode::TwentyFourHour));
    assert!(DateTimeComponent::Hour.is_between_boundaries(24, HourMode::TwentyFourHour));
    assert!(!DateTimeComponent::Hour.is_between_boundaries(25, HourMode::TwentyFourHour));
    assert!(DateTimeComponent::Hour.is_between_boundaries(12, HourMode::TwelveHourPM));
    assert!(!DateTimeComponent::Date.is_between_boundaries(0, HourMode::TwentyFourHour));
    assert!(DateTimeComponent::Date.is_between_boundaries(31, HourMode::TwentyFourHour));
    assert!(!DateTimeComponent::Hour.is_between_boundaries(13, HourMode::TwelveHourAM));
    assert!(DateTimeComponent::Date.check_boundaries(3, 1, 3));
    assert!(!DateTimeComponent::Date.check_boundaries(4, 1, 3));
    assert_eq!(HourMode::TwentyFourHour.get_read_bitmask(), 0x3f);
    assert_eq!(HourMode::TwelveHourAM.get_read_bitmask(), 0x1f);
    assert_eq!(HourMode::TwelveHourPM.get_write_bitmask(), 0x60);
}

#[test]
fn alarm_register_values() {
    assert_eq!(alarm_1_registers(Alarm1Rate::EverySecond), (ALARM_MSB_ON, ALARM_MSB_ON, ALARM_MSB_ON, ALARM_MSB_ON));
    assert_eq!(alarm_1_registers(Alarm1Rate::MinutesAndSeconds(45, 4)), (ALARM_MSB_ON, ALARM_MSB_ON, 0x45, 0x04));
    assert_eq!(alarm_1_registers(Alarm1Rate::DateHoursMinutesAndSeconds(31, 1, 2, 3)), (0x31, 0x01, 0x02, 0x03));
    assert_eq!(alarm_1_registers(Alarm1Rate::DayHoursMinutesAndSeconds(2, 13, 2, 3)), (0x42, 0x13, 0x02, 0x03));
    assert_eq!(alarm_2_registers(Alarm2Rate::Minutes(9)), (ALARM_MSB_ON, ALARM_MSB_ON, 0x09));
    assert_eq!(alarm_2_registers(Alarm2Rate::DayHoursAndMinutes(3, 4, 5)), (0x43, 0x04, 0x05));
    assert_eq!(alarm_2_registers(Alarm2Rate::DateHoursAndMinutes(28, 23, 59)), (0x28, 0x23, 0x59));
    assert_eq!(alarm_1_control(0x18), 0x1D);
    assert_eq!(alarm_2_control(0x18), 0x1E);
    assert_eq!(alarm_1_status(0x03), 0x02);
    assert_eq!(alarm_2_status(0x03), 0x01);
}

#[test]
fn setting_an_alarm_writes_its_registers_then_control_and_status() {
    let w = set_alarm_1_writes(Alarm1Rate::DayHoursMinutesAndSeconds(3, 7, 30, 15), 0x1C, 0x0B);
    assert_eq!(
        w,
        vec![[0x07, 0x15], [0x08, 0x30], [0x09, 0x07], [0x0A, 0x43], [CONTROL_ADDR, 0x1D], [CONTROL_STATUS_ADDR, 0x0A]]
    );
    let w = set_alarm_2_writes(Alarm2Rate::EveryMinute, 0x00, 0x8B);
    assert_eq!(
        w,
        vec![[0x0B, 0x80], [0x0C, 0x80], [0x0D, 0x80], [CONTROL_ADDR, 0x06], [CONTROL_STATUS_ADDR, 0x89]]
    );
}

#[test]
fn rearming_an_alarm_clears_only_its_flag() {
    assert_eq!(alarm_1_rearm_bytes(0x0B), [CONTROL_STATUS_ADDR, 0x0A]);
    assert_eq!(alarm_2_rearm_bytes(0x0B), [CONTROL_STATUS_ADDR, 0x09]);
    assert_eq!(alarm_1_rearm_bytes(0x8A), [CONTROL_STATUS_ADDR, 0x8A]);
}

#[test]
fn setting_the_time_writes_every_component_in_order() {
    let dt = DateTime { second: 5, minute: 59, hour: 23, week_day: 2, date: 31, month: 12, year: 99 };
    let w = set_time_writes(dt, HourMode::TwentyFourHour).unwrap();
    assert_eq!(
        w,
        vec![[0x00, 0x05], [0x01, 0x59], [0x03, 0x02], [0x04, 0x31], [0x05, 0x12], [0x06, 0x99], [0x02, 0x23]]
    );
    let pm = DateTime { second: 0, minute: 0, hour: 11, week_day: 1, date: 1, month: 1, year: 0 };
    let w = set_time_writes(pm, HourMode::TwelveHourPM).unwrap();
    assert_eq!(w[6], [HOURS_ADDR, 0x71]);
}

#[test]
fn setting_the_time_refuses_before_writing_anything() {
    let bad_hour = DateTime { second: 0, minute: 0, hour: 25, week_day: 1, date: 1, month: 1, year: 0 };
    assert_eq!(set_time_writes(bad_hour, HourMode::TwentyFourHour), Err(I2CError::InvalidArg));
    let bad_date = DateTime { second: 0, minute: 0, hour: 0, week_day: 1, date: 0, month: 1, year: 0 };
    assert_eq!(set_time_writes(bad_date, HourMode::TwentyFourHour), Err(I2CError::InvalidArg));
}

#[test]
fn restarting_writes_zero_to_every_component() {
    assert_eq!(
        restart_writes(HourMode::TwentyFourHour),
        vec![[0x00, 0], [0x01, 0], [0x03, 0], [0x04, 0], [0x05, 0], [0x06, 0], [0x02, 0]]
    );
    let w = restart_writes(HourMode::TwelveHourAM);
    assert_eq!(w[6], [HOURS_ADDR, 0x40]);
    let rtc = Ds3231Protocol::new_with_hour_mode(HourMode::TwelveHourAM);
    assert_eq!(rtc.parse_component(w[6][1], DateTimeComponent::Hour), 0);
}

#[test]
fn temperature_in_quarter_degrees() {
    assert_eq!(twos_complement_to_decimal(0x19), 25);
    assert_eq!(twos_complement_to_decimal(0xFF), -1);
    assert_eq!(twos_complement_to_decimal(0x80), -128);
    assert_eq!(temperature_quarter_degrees(0x19, 0x40), 101);
    assert_eq!(temperature_quarter_degrees(0xFE, 0xC0), -5);
}

#[test]
fn bme280_register_bytes() {
    assert_eq!(reset_bytes(), [0xE0, 0xB6]);
    assert_eq!(SdoConnection::GND.addr(), 0x76);
    assert_eq!(SdoConnection::VDDIO.addr(), 0x77);
    assert_eq!(Oversampling::X16.code(), 5);
    assert_eq!(BMEMode::Normal.code(), 3);
    assert!(check_status(0b0000_1001, STAUTS_MEASURING_MASK));
    assert!(!check_status(0b0000_0001, STAUTS_MEASURING_MASK));
    assert_eq!(mode_register(0b1010_1110, BMEMode::Forced), 0b1010_1101);
    assert_eq!(
        mask_and_shift(CRTL_MEAS_PRESS_OVS_MASK, 0b1111_1111, Oversampling::X2, PRESS_OVS_SHIFT),
        0b1110_0011 | (2 << 2)
    );
    assert_eq!(
        mask_and_shift(CRTL_MEAS_TEMP_OVS_MASK, 0b1111_1111, Oversampling::X2, TEMP_OVS_SHIFT),
        0b0001_1111 | (2 << 5)
    );
    assert_eq!(
        mask_and_shift(CRTL_MEAS_PRESS_OVS_MASK, 0b1010_0011, Oversampling::X16, PRESS_OVS_SHIFT),
        0b1011_0111
    );
}
