use vstd::prelude::*;

use crate::serial::i2c::I2CError;

verus! {

/// I2C address of the DS3231.
pub const DS3231_ADDR: u8 = 0x68;
pub const SECONDS_ADDR: u8 = 0x00;
pub const MINUTES_ADDR: u8 = 0x01;
pub const HOURS_ADDR: u8 = 0x02;
pub const DAY_ADDR: u8 = 0x03;
pub const DATE_ADDR: u8 = 0x04;
/// Also holds the century bit.
pub const MONTH_ADDR: u8 = 0x05;
pub const YEAR_ADDR: u8 = 0x06;

pub const MIN_VALUE: u8 = 0;
pub const MAX_SECS: u8 = 59;
pub const MAX_MINS: u8 = 59;
pub const MIN_WEEK_DAY: u8 = 1;
pub const MAX_WEEK_DAY: u8 = 7;
pub const MIN_DATE: u8 = 1;
pub const MAX_DATE: u8 = 31;
pub const MIN_MONTH: u8 = 1;
pub const MAX_MONTH: u8 = 12;
pub const MAX_YEAR: u8 = 99;
pub const MAX_12_HOUR_MODE: u8 = 12;
pub const MAX_24_HOUR_MODE: u8 = 24;

pub const SECONDS_ALARM_1_ADDR: u8 = 0x07;
pub const MINUTES_ALARM_1_ADDR: u8 = 0x08;
pub const HOURS_ALARM_1_ADDR: u8 = 0x09;
pub const DAY_ALARM_1_ADDR: u8 = 0x0A;

pub const MINUTES_ALARM_2_ADDR: u8 = 0x0B;
pub const HOURS_ALARM_2_ADDR: u8 = 0x0C;
pub const DAY_ALARM_2_ADDR: u8 = 0x0D;

pub const READ_BITMASK_24_HOUR_MODE: u8 = 0x3f;
pub const READ_BITMASK_12_HOUR_MODE: u8 = 0x1f;
pub const READ_BITMASK_SECONDS: u8 = 0x7f;

pub const WRITE_BITMASK_24_HOUR_MODE: u8 = 0x00;
pub const WRITE_BITMASK_12_AM_HOUR_MODE: u8 = 0x40;
pub const WRITE_BITMASK_12_PM_HOUR_MODE: u8 = 0x60;

pub const CONTROL_ADDR: u8 = 0x0E;
pub const CONTROL_STATUS_ADDR: u8 = 0x0F;

pub const TEMP_ADDR: u8 = 0x11;

/// A value with its most significant bit on: the alarm ignores that register.
pub const ALARM_MSB_ON: u8 = 128;

/// The bit of an alarm's day register that makes it match the day of the week
/// (set) rather than the day of the month (cleared).
pub const ALARM_DY_DT_BIT: u8 = 0x40;

pub const MERIDIEM_BITMASK: u8 = 0x20;

/// Possible alarm rates for alarm 1.
/// - `EverySecond`: The alarm activates every second.
/// - `Seconds`: Receives (second). The alarm activates when seconds match.
/// - `MinutesAndSeconds`: Receives (minutes, seconds).
/// - `HoursMinutesAndSeconds`: Receives (hours, minutes, seconds).
/// - `DateHoursMinutesAndSeconds`: Receives (date, hours, minutes, seconds).
/// - `DayHoursMinutesAndSeconds`: Receives (day, hours, minutes, seconds).
pub enum Alarm1Rate {
    EverySecond,
    Seconds(u8),
    MinutesAndSeconds(u8, u8),
    HoursMinutesAndSeconds(u8, u8, u8),
    DateHoursMinutesAndSeconds(u8, u8, u8, u8),
    DayHoursMinutesAndSeconds(u8, u8, u8, u8),
}

/// Possible alarm rates for alarm 2.
/// - `EveryMinute`: The alarm activates every minute (00 seconds of every minute).
/// - `Minutes`: Receives (minutes).
/// - `HoursAndMinutes`: Receives (hours, minutes).
/// - `DateHoursAndMinutes`: Receives (date, hours, minutes).
/// - `DayHoursAndMinutes`: Receives (day, hours, minutes).
pub enum Alarm2Rate {
    EveryMinute,
    Minutes(u8),
    HoursAndMinutes(u8, u8),
    DateHoursAndMinutes(u8, u8, u8),
    DayHoursAndMinutes(u8, u8, u8),
}

/// Component of a DateTime.
#[derive(PartialEq, Eq, Structural, Clone, Copy, Debug)]
pub enum DateTimeComponent {
    Second,
    Minute,
    Hour,
    WeekDay,
    Date,
    Month,
    Year,
}

/// A date and time:
/// - `second`: 0-59, `minute`: 0-59, `hour`: 0-23,
/// - `week_day`: 1-7, `date`: 1-31, `month`: 1-12,
/// - `year`: 0-99, representing 2000-2099.
#[derive(PartialEq, Eq, Structural, Clone, Copy, Debug)]
pub struct DateTime {
    pub second: u8,
    pub minute: u8,
    pub hour: u8,
    pub week_day: u8,
    pub date: u8,
    pub month: u8,
    pub year: u8,
}

/// The hour modes of the DS3231:
/// - `TwentyFourHour`: hours go from 0 to 24.
/// - `TwelveHourAM`: hours go from 0 to 12, starting in AM.
/// - `TwelveHourPM`: hours go from 0 to 12, starting in PM.
#[derive(Clone, Copy, Debug, PartialEq, Eq, Structural)]
pub enum HourMode {
    TwentyFourHour,
    TwelveHourAM,
    TwelveHourPM,
}

/// The meridiems used on the DS3231.
#[derive(PartialEq, Eq, Structural, Debug, Clone, Copy)]
pub enum Meridiem {
    AM,
    PM,
}

/// The date and time registers of the DS3231 decoded into decimal values.
/// `dow` names the day of the week ("Sunday" for 1 to "Saturday" for 7, and
/// the empty string for any other value).
pub struct ParsedDateTime {
    pub secs: u8,
    pub min: u8,
    pub hrs: u8,
    pub dow: &'static str,
    pub day_number: u8,
    pub month: u8,
    pub year: u8,
}

/// The decimal value of a number written in binary-coded decimal.
pub open spec fn bcd_value(bcd: u8) -> int {
    (bcd % 16) + (bcd / 16) * 10
}

/// The binary-coded decimal form of a number; the tens digit lives in the
/// upper nibble, and is cut to the byte as a shift of a `u8` cuts it.
pub open spec fn bcd_encoding(decimal: u8) -> int {
    ((decimal / 10) * 16) % 256 + decimal % 10
}

/// Converts a decimal number to its binary-coded decimal representation.
pub fn decimal_to_bcd(decimal: u8) -> (bcd: u8)
    ensures
        bcd == bcd_encoding(decimal),
        decimal <= 99 ==> bcd == (decimal / 10) * 16 + decimal % 10,
{
    let tens: u8 = decimal / 10;
    let units: u8 = decimal % 10;
    assert(((tens << 4u8) | units) == ((tens * 16) % 256 + units) as u8) by (bit_vector)
        requires
            units < 10,
    ;
    (tens << 4u8) | units
}

/// Converts a binary-coded decimal value to its decimal representation.
pub fn bcd_to_decimal(bcd: u8) -> (decimal: u8)
    ensures
        decimal == bcd_value(bcd),
{
    assert((bcd & 0x0F) == bcd % 16 && (bcd >> 4u8) == bcd / 16) by (bit_vector);
    (bcd & 0x0F) + ((bcd >> 4u8) * 10)
}

/// Decoding what an encoding wrote gives back the number, for every number
/// that two decimal digits can hold.
pub proof fn lemma_bcd_round_trip(decimal: u8)
    requires
        decimal <= 99,
    ensures
        bcd_encoding(decimal) <= 255,
        bcd_value(bcd_encoding(decimal) as u8) == decimal,
{
    let tens = decimal / 10;
    let units = decimal % 10;
    assert(tens * 16 < 256);
    let e = tens * 16 + units;
    assert(e % 16 == units && e / 16 == tens) by (nonlinear_arith)
        requires
            e == tens * 16 + units,
            0 <= units < 10,
            0 <= tens,
    ;
}

/// The byte that a write of the decimal `time` to the time register `addr`
/// sends in hour mode `mode`: its BCD encoding, with the hour-mode bits added
/// when the register is the hour.
pub open spec fn clock_register_byte(mode: HourMode, time: u8, addr: u8) -> u8 {
    if addr == HOURS_ADDR {
        (bcd_encoding(time) as u8) | mode.spec_write_bitmask()
    } else {
        bcd_encoding(time) as u8
    }
}

/// Reading a time register back after a write gives the value written: for
/// every component, every hour mode, and every value up to the component's
/// upper bound (so every value that `set_bytes` and `set_time_writes` accept,
/// and the zeros that `restart_writes` sends), decoding the byte written
/// gives the value.
pub proof fn lemma_read_back_after_write(mode: HourMode, value: u8, component: DateTimeComponent)
    requires
        value <= component.bounds(mode).1,
    ensures
        (Ds3231Protocol { mode }).spec_parse_component(
            clock_register_byte(mode, value, component.spec_addr()),
            component,
        ) == value,
{
    lemma_bcd_round_trip(value);
    let e = bcd_encoding(value) as u8;
    assert(e == (value / 10) * 16 + value % 10);
    match component {
        DateTimeComponent::Second => {
            assert(e < 128);
            assert(e < 128 ==> e & 0x7f == e) by (bit_vector);
        },
        DateTimeComponent::Hour => {
            match mode {
                HourMode::TwentyFourHour => {
                    assert(value / 10 <= 2);
                    assert(e < 64);
                    assert(e < 64 ==> (e | 0) & 0x3f == e) by (bit_vector);
                },
                HourMode::TwelveHourAM => {
                    assert(value / 10 <= 1);
                    assert(e < 32);
                    assert(e < 32 ==> (e | 0x40) & 0x1f == e) by (bit_vector);
                },
                HourMode::TwelveHourPM => {
                    assert(value / 10 <= 1);
                    assert(e < 32);
                    assert(e < 32 ==> (e | 0x60) & 0x1f == e) by (bit_vector);
                },
            }
        },
        _ => {},
    }
}

impl DateTimeComponent {
    /// The register address of the component.
    pub open spec fn spec_addr(self) -> u8 {
        match self {
            DateTimeComponent::Second => SECONDS_ADDR,
            DateTimeComponent::Minute => MINUTES_ADDR,
            DateTimeComponent::Hour => HOURS_ADDR,
            DateTimeComponent::WeekDay => DAY_ADDR,
            DateTimeComponent::Date => DATE_ADDR,
            DateTimeComponent::Month => MONTH_ADDR,
            DateTimeComponent::Year => YEAR_ADDR,
        }
    }

    /// The inclusive range of values that the component's register holds in
    /// the given hour mode.
    pub open spec fn bounds(self, hour_mode: HourMode) -> (u8, u8) {
        match self {
            DateTimeComponent::Second => (MIN_VALUE, MAX_SECS),
            DateTimeComponent::Minute => (MIN_VALUE, MAX_MINS),
            DateTimeComponent::Hour => match hour_mode {
                HourMode::TwentyFourHour => (MIN_VALUE, MAX_24_HOUR_MODE),
                _ => (MIN_VALUE, MAX_12_HOUR_MODE),
            },
            DateTimeComponent::WeekDay => (MIN_WEEK_DAY, MAX_WEEK_DAY),
            DateTimeComponent::Date => (MIN_DATE, MAX_DATE),
            DateTimeComponent::Month => (MIN_MONTH, MAX_MONTH),
            DateTimeComponent::Year => (MIN_VALUE, MAX_YEAR),
        }
    }

    /// Gets the register address of the component.
    pub fn addr(&self) -> (addr: u8)
        ensures
            addr == self.spec_addr(),
    {
        match self {
            DateTimeComponent::Second => SECONDS_ADDR,
            DateTimeComponent::Minute => MINUTES_ADDR,
            DateTimeComponent::Hour => HOURS_ADDR,
            DateTimeComponent::WeekDay => DAY_ADDR,
            DateTimeComponent::Date => DATE_ADDR,
            DateTimeComponent::Month => MONTH_ADDR,
            DateTimeComponent::Year => YEAR_ADDR,
        }
    }

    /// Checks whether `val` lies between the boundaries of the component's
    /// register for the given hour mode.
    pub fn is_between_boundaries(&self, val: u8, hour_mode: HourMode) -> (res: bool)
        ensures
            res == (self.bounds(hour_mode).0 <= val <= self.bounds(hour_mode).1),
    {
        match self {
            DateTimeComponent::Second => self.check_boundaries(val, MIN_VALUE, MAX_SECS),
            DateTimeComponent::Minute => self.check_boundaries(val, MIN_VALUE, MAX_MINS),
            DateTimeComponent::Hour => {
                match hour_mode {
                    HourMode::TwentyFourHour => self.check_boundaries(
                        val,
                        MIN_VALUE,
                        MAX_24_HOUR_MODE,
                    ),
                    _ => self.check_boundaries(val, MIN_VALUE, MAX_12_HOUR_MODE),
                }
            },
            DateTimeComponent::WeekDay => self.check_boundaries(val, MIN_WEEK_DAY, MAX_WEEK_DAY),
            DateTimeComponent::Date => self.check_boundaries(val, MIN_DATE, MAX_DATE),
            DateTimeComponent::Month => self.check_boundaries(val, MIN_MONTH, MAX_MONTH),
            DateTimeComponent::Year => self.check_boundaries(val, MIN_VALUE, MAX_YEAR),
        }
    }

    /// True if `val` is between `min_boundarie` and `max_boundarie`, both inclusive.
    pub fn check_boundaries(&self, val: u8, min_boundarie: u8, max_boundarie: u8) -> (res: bool)
        ensures
            res == (min_boundarie <= val && val <= max_boundarie),
    {
        val >= min_boundarie && val <= max_boundarie
    }
}

impl HourMode {
    /// The bitmask that keeps the hour bits of the hour register in this mode.
    pub open spec fn spec_read_bitmask(self) -> u8 {
        match self {
            HourMode::TwentyFourHour => READ_BITMASK_24_HOUR_MODE,
            _ => READ_BITMASK_12_HOUR_MODE,
        }
    }

    /// The mode bits that a write of the hour register carries in this mode.
    pub open spec fn spec_write_bitmask(self) -> u8 {
        match self {
            HourMode::TwentyFourHour => WRITE_BITMASK_24_HOUR_MODE,
            HourMode::TwelveHourAM => WRITE_BITMASK_12_AM_HOUR_MODE,
            HourMode::TwelveHourPM => WRITE_BITMASK_12_PM_HOUR_MODE,
        }
    }

    /// Gets the bitmask needed to read hour values according to the hour mode.
    pub fn get_read_bitmask(&self) -> (mask: u8)
        ensures
            mask == self.spec_read_bitmask(),
    {
        match self {
            HourMode::TwentyFourHour => READ_BITMASK_24_HOUR_MODE,
            _ => READ_BITMASK_12_HOUR_MODE,
        }
    }

    /// Gets the bits that must be set when writing the hour in this hour mode.
    pub fn get_write_bitmask(&self) -> (mask: u8)
        ensures
            mask == self.spec_write_bitmask(),
    {
        match self {
            HourMode::TwentyFourHour => WRITE_BITMASK_24_HOUR_MODE,
            HourMode::TwelveHourAM => WRITE_BITMASK_12_AM_HOUR_MODE,
            HourMode::TwelveHourPM => WRITE_BITMASK_12_PM_HOUR_MODE,
        }
    }
}

/// The name of the day of the week that the DS3231 numbers `n`.
pub open spec fn week_day_name(n: int) -> Seq<char> {
    if n == 1 {
        "Sunday"@
    } else if n == 2 {
        "Monday"@
    } else if n == 3 {
        "Tuesday"@
    } else if n == 4 {
        "Wednesday"@
    } else if n == 5 {
        "Thursday"@
    } else if n == 6 {
        "Friday"@
    } else if n == 7 {
        "Saturday"@
    } else {
        ""@
    }
}

/// The days of the week, as the DS3231 numbers them from 1.
pub open spec fn week() -> Seq<Seq<char>> {
    seq![
        "Sunday"@,
        "Monday"@,
        "Tuesday"@,
        "Wednesday"@,
        "Thursday"@,
        "Friday"@,
        "Saturday"@,
    ]
}

/// The day name of register value `n` is the `n`-th day of the week, Sunday
/// first: 1 is Sunday, 2 Monday, 3 Tuesday, 4 Wednesday, 5 Thursday, 6
/// Friday and 7 Saturday. Any other value names no day.
pub proof fn lemma_week_day_names(n: int)
    ensures
        week_day_name(1) == "Sunday"@,
        week_day_name(2) == "Monday"@,
        week_day_name(3) == "Tuesday"@,
        week_day_name(4) == "Wednesday"@,
        week_day_name(5) == "Thursday"@,
        week_day_name(6) == "Friday"@,
        week_day_name(7) == "Saturday"@,
        1 <= n <= 7 ==> week_day_name(n) == week()[n - 1],
        !(1 <= n <= 7) ==> week_day_name(n) == ""@,
{
}

/// The register protocol of the DS3231 real-time clock: what is written to its
/// registers and how what is read from them is decoded, in a given hour mode.
pub struct Ds3231Protocol {
    pub mode: HourMode,
}

impl Ds3231Protocol {
    /// A protocol in 24-hour mode.
    pub fn new() -> (res: Ds3231Protocol)
        ensures
            res.mode == HourMode::TwentyFourHour,
    {
        Ds3231Protocol { mode: HourMode::TwentyFourHour }
    }

    /// A protocol in the given hour mode.
    pub fn new_with_hour_mode(mode: HourMode) -> (res: Ds3231Protocol)
        ensures
            res.mode == mode,
    {
        Ds3231Protocol { mode }
    }

    /// The byte that a write of `time` to register `addr` sends.
    pub open spec fn spec_register_value(self, time: u8, addr: u8) -> u8 {
        clock_register_byte(self.mode, time, addr)
    }

    /// The two bytes (register address, value) that write `time` to register
    /// `addr`. When the hour is written the hour-mode bits are set too.
    pub fn write_clock_bytes(&self, time: u8, addr: u8) -> (bytes: [u8; 2])
        ensures
            bytes@ == seq![addr, self.spec_register_value(time, addr)],
    {
        let mut bcd_time = decimal_to_bcd(time);
        if addr == HOURS_ADDR {
            let bitmask = self.mode.get_write_bitmask();
            bcd_time = bcd_time | bitmask;
        }
        let bytes = [addr, bcd_time];
        assert(bytes@ =~= seq![addr, self.spec_register_value(time, addr)]);
        bytes
    }

    /// The bytes that set one component of the time to `value`, or
    /// `I2CError::InvalidArg` when the value is out of the component's bounds.
    pub fn set_bytes(&self, value: u8, time_component: DateTimeComponent) -> (res: Result<
        [u8; 2],
        I2CError,
    >)
        ensures
            match res {
                Ok(bytes) => {
                    &&& time_component.bounds(self.mode).0 <= value <= time_component.bounds(
                        self.mode,
                    ).1
                    &&& bytes@ == seq![
                        time_component.spec_addr(),
                        self.spec_register_value(value, time_component.spec_addr()),
                    ]
                },
                Err(e) => {
                    &&& e == I2CError::InvalidArg
                    &&& !(time_component.bounds(self.mode).0 <= value
                        <= time_component.bounds(self.mode).1)
                },
            },
    {
        if !time_component.is_between_boundaries(value, self.mode) {
            return Err(I2CError::InvalidArg);
        }
        Ok(self.write_clock_bytes(value, time_component.addr()))
    }

    /// The decimal value of a component read from its register, with the bits
    /// that are not part of the value masked out.
    pub open spec fn spec_parse_component(self, read_value: u8, component: DateTimeComponent) -> int {
        match component {
            DateTimeComponent::Second => bcd_value(read_value & READ_BITMASK_SECONDS),
            DateTimeComponent::Hour => bcd_value(read_value & self.mode.spec_read_bitmask()),
            _ => bcd_value(read_value),
        }
    }

    /// Decodes the value read from the register of `component`.
    pub fn parse_component(&self, read_value: u8, component: DateTimeComponent) -> (value: u8)
        ensures
            value == self.spec_parse_component(read_value, component),
    {
        match component {
            DateTimeComponent::Second => bcd_to_decimal(read_value & READ_BITMASK_SECONDS),
            DateTimeComponent::Hour => bcd_to_decimal(read_value & self.mode.get_read_bitmask()),
            _ => bcd_to_decimal(read_value),
        }
    }

    /// Decodes the first seven registers of the DS3231 (seconds to year).
    pub fn parse_read_data(&self, data: [u8; 13]) -> (res: ParsedDateTime)
        ensures
            res.secs == bcd_value(data@[0] & READ_BITMASK_SECONDS),
            res.min == bcd_value(data@[1]),
            res.hrs == bcd_value(data@[2] & self.mode.spec_read_bitmask()),
            res.dow@ == week_day_name(bcd_value(data@[3])),
            res.day_number == bcd_value(data@[4]),
            res.month == bcd_value(data@[5]),
            res.year == bcd_value(data@[6]),
    {
        let secs = bcd_to_decimal(data[0] & READ_BITMASK_SECONDS);
        let mins = bcd_to_decimal(data[1]);
        let hrs = bcd_to_decimal(data[2] & self.mode.get_read_bitmask());
        let day_number = bcd_to_decimal(data[4]);
        let month = bcd_to_decimal(data[5]);
        let yr = bcd_to_decimal(data[6]);
        let dow: &'static str = match bcd_to_decimal(data[3]) {
            1 => "Sunday",
            2 => "Monday",
            3 => "Tuesday",
            4 => "Wednesday",
            5 => "Thursday",
            6 => "Friday",
            7 => "Saturday",
            _ => "",
        };
        ParsedDateTime { secs, min: mins, hrs, dow, day_number, month, year: yr }
    }
}

/// The meridiem that the hour register holds.
pub fn meridiem_from_register(read_byte: u8) -> (m: Meridiem)
    ensures
        m == (if read_byte & MERIDIEM_BITMASK == MERIDIEM_BITMASK {
            Meridiem::PM
        } else {
            Meridiem::AM
        }),
{
    let masked = read_byte & MERIDIEM_BITMASK;
    if masked == MERIDIEM_BITMASK {
        Meridiem::PM
    } else {
        Meridiem::AM
    }
}

/// The byte that an alarm time register holds to match `value`: its BCD
/// encoding (the mask bit stays clear for every value of two decimal digits).
pub open spec fn alarm_time_byte(value: u8) -> u8 {
    bcd_encoding(value) as u8
}

/// The byte of an alarm day register that matches the day of the week `day`.
pub open spec fn alarm_day_byte(day: u8) -> u8 {
    (bcd_encoding(day) as u8) | ALARM_DY_DT_BIT
}

/// The byte of an alarm day register that matches the day of the month `date`.
pub open spec fn alarm_date_byte(date: u8) -> u8 {
    (bcd_encoding(date) as u8) & 0xBF
}

/// The bytes (day, hours, minutes, seconds) that the alarm 1 registers hold for
/// a rate. A register that the alarm ignores holds `ALARM_MSB_ON`.
pub open spec fn spec_alarm_1_registers(rate: Alarm1Rate) -> (u8, u8, u8, u8) {
    match rate {
        Alarm1Rate::EverySecond => (ALARM_MSB_ON, ALARM_MSB_ON, ALARM_MSB_ON, ALARM_MSB_ON),
        Alarm1Rate::Seconds(secs) => (ALARM_MSB_ON, ALARM_MSB_ON, ALARM_MSB_ON, alarm_time_byte(secs)),
        Alarm1Rate::MinutesAndSeconds(mins, secs) => (
            ALARM_MSB_ON,
            ALARM_MSB_ON,
            alarm_time_byte(mins),
            alarm_time_byte(secs),
        ),
        Alarm1Rate::HoursMinutesAndSeconds(hr, mins, secs) => (
            ALARM_MSB_ON,
            alarm_time_byte(hr),
            alarm_time_byte(mins),
            alarm_time_byte(secs),
        ),
        Alarm1Rate::DateHoursMinutesAndSeconds(date, hr, mins, secs) => (
            alarm_date_byte(date),
            alarm_time_byte(hr),
            alarm_time_byte(mins),
            alarm_time_byte(secs),
        ),
        Alarm1Rate::DayHoursMinutesAndSeconds(day, hr, mins, secs) => (
            alarm_day_byte(day),
            alarm_time_byte(hr),
            alarm_time_byte(mins),
            alarm_time_byte(secs),
        ),
    }
}

/// The bytes (day, hours, minutes) that the alarm 2 registers hold for a rate.
pub open spec fn spec_alarm_2_registers(rate: Alarm2Rate) -> (u8, u8, u8) {
    match rate {
        Alarm2Rate::EveryMinute => (ALARM_MSB_ON, ALARM_MSB_ON, ALARM_MSB_ON),
        Alarm2Rate::Minutes(mins) => (ALARM_MSB_ON, ALARM_MSB_ON, alarm_time_byte(mins)),
        Alarm2Rate::HoursAndMinutes(hr, mins) => (
            ALARM_MSB_ON,
            alarm_time_byte(hr),
            alarm_time_byte(mins),
        ),
        Alarm2Rate::DateHoursAndMinutes(date, hr, mins) => (
            alarm_date_byte(date),
            alarm_time_byte(hr),
            alarm_time_byte(mins),
        ),
        Alarm2Rate::DayHoursAndMinutes(day, hr, mins) => (
            alarm_day_byte(day),
            alarm_time_byte(hr),
            alarm_time_byte(mins),
        ),
    }
}

fn alarm_time_register(value: u8) -> (b: u8)
    ensures
        b == alarm_time_byte(value),
{
    decimal_to_bcd(value)
}

fn alarm_day_register(day: u8) -> (b: u8)
    ensures
        b == alarm_day_byte(day),
{
    decimal_to_bcd(day) | ALARM_DY_DT_BIT
}

fn alarm_date_register(date: u8) -> (b: u8)
    ensures
        b == alarm_date_byte(date),
{
    decimal_to_bcd(date) & 0xBF
}

/// The bytes (day, hours, minutes, seconds) to write to the alarm 1 registers.
pub fn alarm_1_registers(rate: Alarm1Rate) -> (regs: (u8, u8, u8, u8))
    ensures
        regs == spec_alarm_1_registers(rate),
{
    match rate {
        Alarm1Rate::EverySecond => (ALARM_MSB_ON, ALARM_MSB_ON, ALARM_MSB_ON, ALARM_MSB_ON),
        Alarm1Rate::Seconds(secs) => (
            ALARM_MSB_ON,
            ALARM_MSB_ON,
            ALARM_MSB_ON,
            alarm_time_register(secs),
        ),
        Alarm1Rate::MinutesAndSeconds(mins, secs) => (
            ALARM_MSB_ON,
            ALARM_MSB_ON,
            alarm_time_register(mins),
            alarm_time_register(secs),
        ),
        Alarm1Rate::HoursMinutesAndSeconds(hr, mins, secs) => (
            ALARM_MSB_ON,
            alarm_time_register(hr),
            alarm_time_register(mins),
            alarm_time_register(secs),
        ),
        Alarm1Rate::DateHoursMinutesAndSeconds(date, hr, mins, secs) => (
            alarm_date_register(date),
            alarm_time_register(hr),
            alarm_time_register(mins),
            alarm_time_register(secs),
        ),
        Alarm1Rate::DayHoursMinutesAndSeconds(day, hr, mins, secs) => (
            alarm_day_register(day),
            alarm_time_register(hr),
            alarm_time_register(mins),
            alarm_time_register(secs),
        ),
    }
}

/// The bytes (day, hours, minutes) to write to the alarm 2 registers.
pub fn alarm_2_registers(rate: Alarm2Rate) -> (regs: (u8, u8, u8))
    ensures
        regs == spec_alarm_2_registers(rate),
{
    match rate {
        Alarm2Rate::EveryMinute => (ALARM_MSB_ON, ALARM_MSB_ON, ALARM_MSB_ON),
        Alarm2Rate::Minutes(mins) => (ALARM_MSB_ON, ALARM_MSB_ON, alarm_time_register(mins)),
        Alarm2Rate::HoursAndMinutes(hr, mins) => (
            ALARM_MSB_ON,
            alarm_time_register(hr),
            alarm_time_register(mins),
        ),
        Alarm2Rate::DateHoursAndMinutes(date, hr, mins) => (
            alarm_date_register(date),
            alarm_time_register(hr),
            alarm_time_register(mins),
        ),
        Alarm2Rate::DayHoursAndMinutes(day, hr, mins) => (
            alarm_day_register(day),
            alarm_time_register(hr),
            alarm_time_register(mins),
        ),
    }
}

/// What a list of register writes sends, each write as (address, byte).
pub open spec fn write_views(writes: Seq<[u8; 2]>) -> Seq<Seq<u8>> {
    writes.map_values(|w: [u8; 2]| w@)
}

/// One register write: the address and the byte.
fn register_write(addr: u8, value: u8) -> (w: [u8; 2])
    ensures
        w@ == seq![addr, value],
{
    let w = [addr, value];
    assert(w@ =~= seq![addr, value]);
    w
}

/// The register writes that set alarm 1 to `rate`, in the order they are
/// sent: seconds, minutes, hours and day; then the control register with the
/// alarm's interrupt and the interrupt output enabled; then the status
/// register with the alarm's flag cleared. `control_read` and `status_read`
/// are the bytes last read from those two registers.
pub open spec fn spec_set_alarm_1_writes(rate: Alarm1Rate, control_read: u8, status_read: u8) -> Seq<Seq<u8>> {
    let regs = spec_alarm_1_registers(rate);
    seq![
        seq![SECONDS_ALARM_1_ADDR, regs.3],
        seq![MINUTES_ALARM_1_ADDR, regs.2],
        seq![HOURS_ALARM_1_ADDR, regs.1],
        seq![DAY_ALARM_1_ADDR, regs.0],
        seq![CONTROL_ADDR, control_read | 5],
        seq![CONTROL_STATUS_ADDR, status_read & 0xFE],
    ]
}

/// The register writes that set alarm 2 to `rate`: minutes, hours and day,
/// then the control and the status register as for alarm 1.
pub open spec fn spec_set_alarm_2_writes(rate: Alarm2Rate, control_read: u8, status_read: u8) -> Seq<Seq<u8>> {
    let regs = spec_alarm_2_registers(rate);
    seq![
        seq![MINUTES_ALARM_2_ADDR, regs.2],
        seq![HOURS_ALARM_2_ADDR, regs.1],
        seq![DAY_ALARM_2_ADDR, regs.0],
        seq![CONTROL_ADDR, control_read | 6],
        seq![CONTROL_STATUS_ADDR, status_read & 0xFD],
    ]
}

/// The register writes, in order, that set alarm 1 to `rate`, given the bytes
/// last read from the control and the status register.
pub fn set_alarm_1_writes(rate: Alarm1Rate, control_read: u8, status_read: u8) -> (w: Vec<[u8; 2]>)
    ensures
        write_views(w@) == spec_set_alarm_1_writes(rate, control_read, status_read),
{
    let (day, hours, minutes, seconds) = alarm_1_registers(rate);
    let mut w: Vec<[u8; 2]> = Vec::new();
    w.push(register_write(SECONDS_ALARM_1_ADDR, seconds));
    w.push(register_write(MINUTES_ALARM_1_ADDR, minutes));
    w.push(register_write(HOURS_ALARM_1_ADDR, hours));
    w.push(register_write(DAY_ALARM_1_ADDR, day));
    w.push(register_write(CONTROL_ADDR, alarm_1_control(control_read)));
    w.push(register_write(CONTROL_STATUS_ADDR, alarm_1_status(status_read)));
    assert(write_views(w@) =~= spec_set_alarm_1_writes(rate, control_read, status_read));
    w
}

/// The register writes, in order, that set alarm 2 to `rate`, given the bytes
/// last read from the control and the status register.
pub fn set_alarm_2_writes(rate: Alarm2Rate, control_read: u8, status_read: u8) -> (w: Vec<[u8; 2]>)
    ensures
        write_views(w@) == spec_set_alarm_2_writes(rate, control_read, status_read),
{
    let (day, hours, minutes) = alarm_2_registers(rate);
    let mut w: Vec<[u8; 2]> = Vec::new();
    w.push(register_write(MINUTES_ALARM_2_ADDR, minutes));
    w.push(register_write(HOURS_ALARM_2_ADDR, hours));
    w.push(register_write(DAY_ALARM_2_ADDR, day));
    w.push(register_write(CONTROL_ADDR, alarm_2_control(control_read)));
    w.push(register_write(CONTROL_STATUS_ADDR, alarm_2_status(status_read)));
    assert(write_views(w@) =~= spec_set_alarm_2_writes(rate, control_read, status_read));
    w
}

/// The write that re-arms alarm 1 after it went off: the status register
/// with its flag (bit 0) cleared, from the byte last read from it.
pub fn alarm_1_rearm_bytes(status_read: u8) -> (bytes: [u8; 2])
    ensures
        bytes@ == seq![CONTROL_STATUS_ADDR, status_read & 0xFE],
{
    register_write(CONTROL_STATUS_ADDR, alarm_1_status(status_read))
}

/// The write that re-arms alarm 2 after it went off: the status register
/// with its flag (bit 1) cleared, from the byte last read from it.
pub fn alarm_2_rearm_bytes(status_read: u8) -> (bytes: [u8; 2])
    ensures
        bytes@ == seq![CONTROL_STATUS_ADDR, status_read & 0xFD],
{
    register_write(CONTROL_STATUS_ADDR, alarm_2_status(status_read))
}

/// Whether `value` lies within the bounds of `component` in hour mode `mode`.
pub open spec fn component_in_bounds(component: DateTimeComponent, value: u8, mode: HourMode) -> bool {
    component.bounds(mode).0 <= value <= component.bounds(mode).1
}

/// Whether every component of `dt` lies within its bounds in hour mode `mode`.
pub open spec fn date_time_in_bounds(dt: DateTime, mode: HourMode) -> bool {
    &&& component_in_bounds(DateTimeComponent::Second, dt.second, mode)
    &&& component_in_bounds(DateTimeComponent::Minute, dt.minute, mode)
    &&& component_in_bounds(DateTimeComponent::Hour, dt.hour, mode)
    &&& component_in_bounds(DateTimeComponent::WeekDay, dt.week_day, mode)
    &&& component_in_bounds(DateTimeComponent::Date, dt.date, mode)
    &&& component_in_bounds(DateTimeComponent::Month, dt.month, mode)
    &&& component_in_bounds(DateTimeComponent::Year, dt.year, mode)
}

/// The register writes that set the clock to `dt` in hour mode `mode`, in the
/// order they are sent: second, minute, day of the week, date, month, year,
/// and the hour last.
pub open spec fn spec_time_writes(dt: DateTime, mode: HourMode) -> Seq<Seq<u8>> {
    seq![
        seq![SECONDS_ADDR, clock_register_byte(mode, dt.second, SECONDS_ADDR)],
        seq![MINUTES_ADDR, clock_register_byte(mode, dt.minute, MINUTES_ADDR)],
        seq![DAY_ADDR, clock_register_byte(mode, dt.week_day, DAY_ADDR)],
        seq![DATE_ADDR, clock_register_byte(mode, dt.date, DATE_ADDR)],
        seq![MONTH_ADDR, clock_register_byte(mode, dt.month, MONTH_ADDR)],
        seq![YEAR_ADDR, clock_register_byte(mode, dt.year, YEAR_ADDR)],
        seq![HOURS_ADDR, clock_register_byte(mode, dt.hour, HOURS_ADDR)],
    ]
}

/// The date and time with every component 0.
pub open spec fn zero_date_time() -> DateTime {
    DateTime { second: 0, minute: 0, hour: 0, week_day: 0, date: 0, month: 0, year: 0 }
}

fn time_writes(dt: DateTime, mode: HourMode) -> (w: Vec<[u8; 2]>)
    ensures
        write_views(w@) == spec_time_writes(dt, mode),
{
    let p = Ds3231Protocol { mode };
    let mut w: Vec<[u8; 2]> = Vec::new();
    w.push(p.write_clock_bytes(dt.second, SECONDS_ADDR));
    w.push(p.write_clock_bytes(dt.minute, MINUTES_ADDR));
    w.push(p.write_clock_bytes(dt.week_day, DAY_ADDR));
    w.push(p.write_clock_bytes(dt.date, DATE_ADDR));
    w.push(p.write_clock_bytes(dt.month, MONTH_ADDR));
    w.push(p.write_clock_bytes(dt.year, YEAR_ADDR));
    w.push(p.write_clock_bytes(dt.hour, HOURS_ADDR));
    assert(write_views(w@) =~= spec_time_writes(dt, mode));
    w
}

/// The register writes that set the clock to `dt`, or `I2CError::InvalidArg`,
/// before anything is written, when a component is out of its bounds.
pub fn set_time_writes(dt: DateTime, mode: HourMode) -> (r: Result<Vec<[u8; 2]>, I2CError>)
    ensures
        match r {
            Ok(w) => date_time_in_bounds(dt, mode) && write_views(w@) == spec_time_writes(dt, mode),
            Err(e) => e == I2CError::InvalidArg && !date_time_in_bounds(dt, mode),
        },
{
    let in_bounds = DateTimeComponent::Second.is_between_boundaries(dt.second, mode)
        && DateTimeComponent::Minute.is_between_boundaries(dt.minute, mode)
        && DateTimeComponent::Hour.is_between_boundaries(dt.hour, mode)
        && DateTimeComponent::WeekDay.is_between_boundaries(dt.week_day, mode)
        && DateTimeComponent::Date.is_between_boundaries(dt.date, mode)
        && DateTimeComponent::Month.is_between_boundaries(dt.month, mode)
        && DateTimeComponent::Year.is_between_boundaries(dt.year, mode);
    if !in_bounds {
        return Err(I2CError::InvalidArg);
    }
    Ok(time_writes(dt, mode))
}

/// The register writes that restart the clock: every time register set to 0
/// (the hour register with the bits of the hour mode), in the order of
/// `set_time_writes`.
pub fn restart_writes(mode: HourMode) -> (w: Vec<[u8; 2]>)
    ensures
        write_views(w@) == spec_time_writes(zero_date_time(), mode),
{
    time_writes(
        DateTime { second: 0, minute: 0, hour: 0, week_day: 0, date: 0, month: 0, year: 0 },
        mode,
    )
}

/// The control register value that enables alarm 1, from the value last read.
pub fn alarm_1_control(last_value: u8) -> (value: u8)
    ensures
        value == last_value | 5,
{
    last_value | 5
}

/// The control register value that enables alarm 2, from the value last read.
pub fn alarm_2_control(last_value: u8) -> (value: u8)
    ensures
        value == last_value | 6,
{
    last_value | 6
}

/// The status register value that re-arms alarm 1 (bit 0 cleared).
pub fn alarm_1_status(last_value: u8) -> (value: u8)
    ensures
        value == last_value & 0xFE,
{
    last_value & 0xFE
}

/// The status register value that re-arms alarm 2 (bit 1 cleared).
pub fn alarm_2_status(last_value: u8) -> (value: u8)
    ensures
        value == last_value & 0xFD,
{
    last_value & 0xFD
}

/// The signed value of a byte read in two's complement.
pub open spec fn twos_complement_value(value: u8) -> int {
    if value >= 128 {
        value - 256
    } else {
        value as int
    }
}

/// Decodes a byte in two's complement.
pub fn twos_complement_to_decimal(value: u8) -> (res: i16)
    ensures
        res == twos_complement_value(value),
{
    if value & 0x80 != 0 {
        assert(value & 0x80 != 0 ==> value >= 128) by (bit_vector);
        assert(value >= 128 ==> (!value) as int + 1 == 256 - value) by (bit_vector);
        let magnitude: u8 = (!value) + 1;
        -(magnitude as i16)
    } else {
        assert(value & 0x80 == 0 ==> value < 128) by (bit_vector);
        value as i16
    }
}

/// The temperature in quarters of a degree Celsius that the two temperature
/// registers hold: the integer part in two's complement, and the fraction in
/// the two most significant bits of the second register.
pub open spec fn spec_temperature_quarters(msb: u8, lsb: u8) -> int {
    twos_complement_value(msb) * 4 + (lsb / 64)
}

/// Decodes the temperature registers into quarters of a degree Celsius.
pub fn temperature_quarter_degrees(msb: u8, lsb: u8) -> (quarters: i16)
    ensures
        quarters == spec_temperature_quarters(msb, lsb),
{
    let integer = twos_complement_to_decimal(msb);
    assert((lsb >> 6u8) == lsb / 64) by (bit_vector);
    let fractional = twos_complement_to_decimal(lsb >> 6u8);
    integer * 4 + fractional
}

} // verus!
