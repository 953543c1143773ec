use vstd::prelude::*;

verus! {

pub const PIN_COUNT: usize = 24;
pub const TIMERS_COUNT: usize = 2;
pub const PWM_COUNT: usize = 4;
pub const UART_COUNT: usize = 2;
/// The GPIO that the board does not expose.
pub const MISSING_PIN: u8 = 14;

/// Inclusive bounds of the pins that can be digital pins.
pub const DIGITAL_PINS_BOUNDS: (usize, usize) = (0, 23);
/// Inclusive bounds of the pins that can output PWM signals.
pub const PWM_PIN_BOUNDS: (usize, usize) = (0, 23);
/// Inclusive bounds of the pins that can be analog inputs.
pub const ANALOG_PINS_BOUNDS: (usize, usize) = (0, 6);
/// Inclusive bounds of the timer groups.
pub const TIMER_BOUND: (usize, usize) = (0, 1);
/// Inclusive bounds of the UART peripherals.
pub const UART_BOUNDS: (usize, usize) = (0, 1);

/// Errors in handing peripherals over to drivers.
#[derive(Debug, PartialEq, Eq, Structural, Clone, Copy)]
pub enum PeripheralError {
    AlreadyTaken,
    NotABleDevicePeripheral,
    NotAnI2CPeripheral,
    NotAPin,
    NotAPwmTimer,
    NotAPwmChannel,
    NotATimerGroup,
}

/// A peripheral of the microcontroller. `Unavailable` stands for one that has already
/// been taken.
#[derive(Debug, PartialEq, Eq, Structural, Clone, Copy)]
pub enum Peripheral {
    Pin(u8),
    Timer(u8),
    PWMChannel(u8),
    PWMTimer(u8),
    Adc,
    I2C,
    Uart(u8),
    BleDevice,
    Modem,
    Unavailable,
}

impl Default for Peripheral {
    fn default() -> (res: Peripheral)
        ensures
            res == Peripheral::Unavailable,
    {
        Peripheral::Unavailable
    }
}

/// Whether `n` names a GPIO of the board.
pub open spec fn is_board_pin(n: int) -> bool {
    0 <= n < PIN_COUNT && n != MISSING_PIN
}

impl Peripheral {
    /// The number of the GPIO that this peripheral is, when it is one.
    pub open spec fn spec_io_pin(self) -> Option<u8> {
        match self {
            Peripheral::Pin(n) => if is_board_pin(n as int) {
                Some(n)
            } else {
                None
            },
            _ => None,
        }
    }

    /// Takes the peripheral, leaving `Unavailable` in its place.
    pub fn take(&mut self) -> (res: Peripheral)
        ensures
            res == *old(self),
            *final(self) == Peripheral::Unavailable,
    {
        let res = *self;
        *self = Peripheral::Unavailable;
        res
    }

    /// The number of the GPIO that this peripheral is, when it is one.
    pub fn io_pin_number(self) -> (res: Result<u8, PeripheralError>)
        ensures
            match self {
                Peripheral::Pin(n) => if is_board_pin(n as int) {
                    res == Ok::<u8, PeripheralError>(n)
                } else {
                    res == Err::<u8, PeripheralError>(PeripheralError::NotAPin)
                },
                Peripheral::Unavailable => res == Err::<u8, PeripheralError>(
                    PeripheralError::AlreadyTaken,
                ),
                _ => res == Err::<u8, PeripheralError>(PeripheralError::NotAPin),
            },
    {
        match self {
            Peripheral::Pin(pin_num) => {
                if pin_num < 24 && pin_num != MISSING_PIN {
                    Ok(pin_num)
                } else {
                    Err(PeripheralError::NotAPin)
                }
            },
            Peripheral::Unavailable => Err(PeripheralError::AlreadyTaken),
            _ => Err(PeripheralError::NotAPin),
        }
    }

    /// Checks that this peripheral is the I2C controller.
    pub fn check_i2c0(self) -> (res: Result<(), PeripheralError>)
        ensures
            match self {
                Peripheral::I2C => res is Ok,
                Peripheral::Unavailable => res == Err::<(), PeripheralError>(
                    PeripheralError::AlreadyTaken,
                ),
                _ => res == Err::<(), PeripheralError>(PeripheralError::NotAnI2CPeripheral),
            },
    {
        match self {
            Peripheral::I2C => Ok(()),
            Peripheral::Unavailable => Err(PeripheralError::AlreadyTaken),
            _ => Err(PeripheralError::NotAnI2CPeripheral),
        }
    }

    /// Checks that this peripheral is the BLE device.
    pub fn check_ble_device(self) -> (res: Result<(), PeripheralError>)
        ensures
            match self {
                Peripheral::BleDevice => res is Ok,
                Peripheral::Unavailable => res == Err::<(), PeripheralError>(
                    PeripheralError::AlreadyTaken,
                ),
                _ => res == Err::<(), PeripheralError>(PeripheralError::NotABleDevicePeripheral),
            },
    {
        match self {
            Peripheral::BleDevice => Ok(()),
            Peripheral::Unavailable => Err(PeripheralError::AlreadyTaken),
            _ => Err(PeripheralError::NotABleDevicePeripheral),
        }
    }

    /// Checks that this peripheral is the modem, the one that can be turned
    /// into the radio modem: `AlreadyTaken` when it was taken, and
    /// `NotABleDevicePeripheral` for any other peripheral.
    pub fn check_modem(self) -> (res: Result<(), PeripheralError>)
        ensures
            match self {
                Peripheral::Modem => res is Ok,
                Peripheral::Unavailable => res == Err::<(), PeripheralError>(
                    PeripheralError::AlreadyTaken,
                ),
                _ => res == Err::<(), PeripheralError>(PeripheralError::NotABleDevicePeripheral),
            },
    {
        match self {
            Peripheral::Modem => Ok(()),
            Peripheral::Unavailable => Err(PeripheralError::AlreadyTaken),
            _ => Err(PeripheralError::NotABleDevicePeripheral),
        }
    }

    /// The number of the timer group that this peripheral is, when it is one.
    pub fn timer_group_number(self) -> (res: Result<u8, PeripheralError>)
        ensures
            match self {
                Peripheral::Timer(n) => if n < TIMERS_COUNT {
                    res == Ok::<u8, PeripheralError>(n)
                } else {
                    res == Err::<u8, PeripheralError>(PeripheralError::NotATimerGroup)
                },
                Peripheral::Unavailable => res == Err::<u8, PeripheralError>(
                    PeripheralError::AlreadyTaken,
                ),
                _ => res == Err::<u8, PeripheralError>(PeripheralError::NotATimerGroup),
            },
    {
        match self {
            Peripheral::Timer(n) => {
                if n < 2 {
                    Ok(n)
                } else {
                    Err(PeripheralError::NotATimerGroup)
                }
            },
            Peripheral::Unavailable => Err(PeripheralError::AlreadyTaken),
            _ => Err(PeripheralError::NotATimerGroup),
        }
    }

    /// The number of the PWM timer that this peripheral is, when it is one.
    pub fn pwm_timer_number(self) -> (res: Result<u8, PeripheralError>)
        ensures
            match self {
                Peripheral::PWMTimer(n) => if n < PWM_COUNT {
                    res == Ok::<u8, PeripheralError>(n)
                } else {
                    res == Err::<u8, PeripheralError>(PeripheralError::NotAPwmTimer)
                },
                Peripheral::Unavailable => res == Err::<u8, PeripheralError>(
                    PeripheralError::AlreadyTaken,
                ),
                _ => res == Err::<u8, PeripheralError>(PeripheralError::NotAPwmTimer),
            },
    {
        match self {
            Peripheral::PWMTimer(n) => {
                if n < 4 {
                    Ok(n)
                } else {
                    Err(PeripheralError::NotAPwmTimer)
                }
            },
            Peripheral::Unavailable => Err(PeripheralError::AlreadyTaken),
            _ => Err(PeripheralError::NotAPwmTimer),
        }
    }

    /// The number of the PWM channel that this peripheral is, when it is one.
    pub fn pwm_channel_number(self) -> (res: Result<u8, PeripheralError>)
        ensures
            match self {
                Peripheral::PWMChannel(n) => if n < PWM_COUNT {
                    res == Ok::<u8, PeripheralError>(n)
                } else {
                    res == Err::<u8, PeripheralError>(PeripheralError::NotAPwmChannel)
                },
                Peripheral::Unavailable => res == Err::<u8, PeripheralError>(
                    PeripheralError::AlreadyTaken,
                ),
                _ => res == Err::<u8, PeripheralError>(PeripheralError::NotAPwmChannel),
            },
    {
        match self {
            Peripheral::PWMChannel(n) => {
                if n < 4 {
                    Ok(n)
                } else {
                    Err(PeripheralError::NotAPwmChannel)
                }
            },
            Peripheral::Unavailable => Err(PeripheralError::AlreadyTaken),
            _ => Err(PeripheralError::NotAPwmChannel),
        }
    }
}

/// The peripherals of the microcontroller that have not been handed out yet.
pub struct Peripherals {
    pins: Vec<Peripheral>,
    timers: Vec<Peripheral>,
    pwm_channels: Vec<Peripheral>,
    pwm_timers: Vec<Peripheral>,
    adc: Peripheral,
    i2c: Peripheral,
    uart: Vec<Peripheral>,
    ble_device: Peripheral,
    modem: Peripheral,
}

/// A slot that holds `expected` until it is taken.
pub open spec fn holds_or_taken(p: Peripheral, expected: Peripheral) -> bool {
    p == expected || p == Peripheral::Unavailable
}

impl Peripherals {
    /// The pins still available, by number.
    pub closed spec fn pins(self) -> Seq<Peripheral> {
        self.pins@
    }

    pub closed spec fn timers(self) -> Seq<Peripheral> {
        self.timers@
    }

    pub closed spec fn pwm_channels(self) -> Seq<Peripheral> {
        self.pwm_channels@
    }

    pub closed spec fn pwm_timers(self) -> Seq<Peripheral> {
        self.pwm_timers@
    }

    pub closed spec fn uarts(self) -> Seq<Peripheral> {
        self.uart@
    }

    pub closed spec fn adc(self) -> Peripheral {
        self.adc
    }

    pub closed spec fn i2c(self) -> Peripheral {
        self.i2c
    }

    pub closed spec fn ble_device(self) -> Peripheral {
        self.ble_device
    }

    pub closed spec fn modem(self) -> Peripheral {
        self.modem
    }

    /// Every slot holds the peripheral it was made with, or nothing once taken.
    pub closed spec fn wf(self) -> bool {
        &&& self.pins@.len() == PIN_COUNT
        &&& forall|i: int|
            0 <= i < PIN_COUNT ==> holds_or_taken(
                #[trigger] self.pins@[i],
                if i == MISSING_PIN {
                    Peripheral::Unavailable
                } else {
                    Peripheral::Pin(i as u8)
                },
            )
        &&& self.timers@.len() == TIMERS_COUNT
        &&& forall|i: int|
            0 <= i < TIMERS_COUNT ==> holds_or_taken(
                #[trigger] self.timers@[i],
                Peripheral::Timer(i as u8),
            )
        &&& self.pwm_channels@.len() == PWM_COUNT
        &&& self.pwm_timers@.len() == PWM_COUNT
        &&& forall|i: int|
            0 <= i < PWM_COUNT ==> holds_or_taken(
                #[trigger] self.pwm_channels@[i],
                Peripheral::PWMChannel(i as u8),
            )
        &&& forall|i: int|
            0 <= i < PWM_COUNT ==> holds_or_taken(
                #[trigger] self.pwm_timers@[i],
                Peripheral::PWMTimer(i as u8),
            )
        &&& forall|i: int|
            0 <= i < PWM_COUNT ==> (self.pwm_channels@[i] == Peripheral::Unavailable
                <==> self.pwm_timers@[i] == Peripheral::Unavailable)
        &&& self.uart@.len() == UART_COUNT
        &&& forall|i: int|
            0 <= i < UART_COUNT ==> holds_or_taken(#[trigger] self.uart@[i], Peripheral::Uart(i as u8))
        &&& holds_or_taken(self.adc, Peripheral::Adc)
        &&& holds_or_taken(self.i2c, Peripheral::I2C)
        &&& holds_or_taken(self.ble_device, Peripheral::BleDevice)
        &&& holds_or_taken(self.modem, Peripheral::Modem)
    }

    /// All the peripherals of the board, none taken.
    pub fn new() -> (res: Peripherals)
        ensures
            res.wf(),
            res.pins().len() == PIN_COUNT,
            res.timers().len() == TIMERS_COUNT,
            res.pwm_channels().len() == PWM_COUNT,
            res.pwm_timers().len() == PWM_COUNT,
            res.uarts().len() == UART_COUNT,
            forall|i: int|
                0 <= i < PIN_COUNT ==> #[trigger] res.pins()[i] == (if i == MISSING_PIN {
                    Peripheral::Unavailable
                } else {
                    Peripheral::Pin(i as u8)
                }),
            forall|i: int| 0 <= i < TIMERS_COUNT ==> #[trigger] res.timers()[i] == Peripheral::Timer(i as u8),
            forall|i: int|
                0 <= i < PWM_COUNT ==> #[trigger] res.pwm_channels()[i] == Peripheral::PWMChannel(i as u8),
            forall|i: int|
                0 <= i < PWM_COUNT ==> #[trigger] res.pwm_timers()[i] == Peripheral::PWMTimer(i as u8),
            forall|i: int| 0 <= i < UART_COUNT ==> #[trigger] res.uarts()[i] == Peripheral::Uart(i as u8),
            res.adc() == Peripheral::Adc,
            res.i2c() == Peripheral::I2C,
            res.ble_device() == Peripheral::BleDevice,
            res.modem() == Peripheral::Modem,
    {
        let pins = Self::new_pins();
        let mut timers: Vec<Peripheral> = Vec::new();
        timers.push(Peripheral::Timer(0));
        timers.push(Peripheral::Timer(1));
        let pwm_channels = Self::new_pwm_channels();
        let pwm_timers = Self::new_pwm_timers();
        let mut uart: Vec<Peripheral> = Vec::new();
        uart.push(Peripheral::Uart(0));
        uart.push(Peripheral::Uart(1));
        let res = Peripherals {
            pins,
            timers,
            pwm_channels,
            pwm_timers,
            adc: Peripheral::Adc,
            i2c: Peripheral::I2C,
            uart,
            ble_device: Peripheral::BleDevice,
            modem: Peripheral::Modem,
        };
        assert forall|i: int| 0 <= i < TIMERS_COUNT implies #[trigger] res.timers@[i]
            == Peripheral::Timer(i as u8) by {
            assert(i == 0 || i == 1);
        }
        assert forall|i: int| 0 <= i < UART_COUNT implies #[trigger] res.uart@[i] == Peripheral::Uart(
            i as u8,
        ) by {
            assert(i == 0 || i == 1);
        }
        res
    }

    /// The four PWM timers.
    fn new_pwm_timers() -> (res: Vec<Peripheral>)
        ensures
            res@.len() == PWM_COUNT,
            forall|i: int| 0 <= i < PWM_COUNT ==> #[trigger] res@[i] == Peripheral::PWMTimer(i as u8),
    {
        let mut v: Vec<Peripheral> = Vec::new();
        let mut i: u8 = 0;
        while i < 4
            invariant
                i <= 4,
                v@.len() == i,
                forall|j: int| 0 <= j < i ==> #[trigger] v@[j] == Peripheral::PWMTimer(j as u8),
            decreases 4 - i,
        {
            v.push(Peripheral::PWMTimer(i));
            i = i + 1;
        }
        v
    }

    /// The four PWM channels.
    fn new_pwm_channels() -> (res: Vec<Peripheral>)
        ensures
            res@.len() == PWM_COUNT,
            forall|i: int| 0 <= i < PWM_COUNT ==> #[trigger] res@[i] == Peripheral::PWMChannel(i as u8),
    {
        let mut v: Vec<Peripheral> = Vec::new();
        let mut i: u8 = 0;
        while i < 4
            invariant
                i <= 4,
                v@.len() == i,
                forall|j: int| 0 <= j < i ==> #[trigger] v@[j] == Peripheral::PWMChannel(j as u8),
            decreases 4 - i,
        {
            v.push(Peripheral::PWMChannel(i));
            i = i + 1;
        }
        v
    }

    /// The board's pins; the missing GPIO is `Unavailable`.
    fn new_pins() -> (res: Vec<Peripheral>)
        ensures
            res@.len() == PIN_COUNT,
            forall|i: int|
                0 <= i < PIN_COUNT ==> #[trigger] res@[i] == (if i == MISSING_PIN {
                    Peripheral::Unavailable
                } else {
                    Peripheral::Pin(i as u8)
                }),
    {
        let mut v: Vec<Peripheral> = Vec::new();
        let mut i: u8 = 0;
        while i < 24
            invariant
                i <= 24,
                v@.len() == i,
                forall|j: int|
                    0 <= j < i ==> #[trigger] v@[j] == (if j == MISSING_PIN {
                        Peripheral::Unavailable
                    } else {
                        Peripheral::Pin(j as u8)
                    }),
            decreases 24 - i,
        {
            if i == MISSING_PIN {
                v.push(Peripheral::Unavailable);
            } else {
                v.push(Peripheral::Pin(i));
            }
            i = i + 1;
        }
        v
    }

    /// Takes digital pin `pin_num`.
    pub fn get_digital_pin(&mut self, pin_num: usize) -> (res: Peripheral)
        requires
            old(self).wf(),
        ensures
            final(self).wf(),
            old(self).taken_pin(*final(self), res, pin_num, DIGITAL_PINS_BOUNDS),
    {
        self.get_pin_on_bound(pin_num, DIGITAL_PINS_BOUNDS)
    }

    /// Takes analog pin `pin_num`.
    pub fn get_analog_pin(&mut self, pin_num: usize) -> (res: Peripheral)
        requires
            old(self).wf(),
        ensures
            final(self).wf(),
            old(self).taken_pin(*final(self), res, pin_num, ANALOG_PINS_BOUNDS),
    {
        self.get_pin_on_bound(pin_num, ANALOG_PINS_BOUNDS)
    }

    /// Takes PWM pin `pin_num`.
    pub fn get_pwm_pin(&mut self, pin_num: usize) -> (res: Peripheral)
        requires
            old(self).wf(),
        ensures
            final(self).wf(),
            old(self).taken_pin(*final(self), res, pin_num, PWM_PIN_BOUNDS),
    {
        self.get_pin_on_bound(pin_num, PWM_PIN_BOUNDS)
    }

    /// Only the pins change, and only the slot of `pin_num` when it is in bounds.
    pub open spec fn others_unchanged(self, other: Peripherals) -> bool {
        &&& other.timers() == self.timers()
        &&& other.pwm_channels() == self.pwm_channels()
        &&& other.pwm_timers() == self.pwm_timers()
        &&& other.uarts() == self.uarts()
        &&& other.adc() == self.adc()
        &&& other.i2c() == self.i2c()
        &&& other.ble_device() == self.ble_device()
        &&& other.modem() == self.modem()
    }

    /// `after` is `self` with pin `pin_num` taken and handed out as `res` when
    /// it lies within `bound`; otherwise nothing changes and `res` is `Unavailable`.
    pub open spec fn taken_pin(
        self,
        after: Peripherals,
        res: Peripheral,
        pin_num: usize,
        bound: (usize, usize),
    ) -> bool {
        &&& self.others_unchanged(after)
        &&& if bound.0 <= pin_num <= bound.1 {
            &&& res == self.pins()[pin_num as int]
            &&& after.pins() == self.pins().update(pin_num as int, Peripheral::Unavailable)
        } else {
            &&& res == Peripheral::Unavailable
            &&& after.pins() == self.pins()
        }
    }

    /// Takes pin `pin_num` when it lies within `bound`.
    fn get_pin_on_bound(&mut self, pin_num: usize, bound: (usize, usize)) -> (res: Peripheral)
        requires
            old(self).wf(),
            bound.1 < PIN_COUNT,
        ensures
            final(self).wf(),
            old(self).taken_pin(*final(self), res, pin_num, bound),
    {
        if pin_num >= bound.0 && pin_num <= bound.1 {
            let res = self.pins[pin_num];
            self.pins.set(pin_num, Peripheral::Unavailable);
            return res;
        }
        Peripheral::Unavailable
    }

    /// Takes timer group `timer_num`.
    pub fn get_timer(&mut self, timer_num: usize) -> (res: Peripheral)
        requires
            old(self).wf(),
        ensures
            final(self).wf(),
            final(self).pins() == old(self).pins(),
            final(self).pwm_channels() == old(self).pwm_channels(),
            final(self).pwm_timers() == old(self).pwm_timers(),
            final(self).uarts() == old(self).uarts(),
            final(self).adc() == old(self).adc(),
            final(self).i2c() == old(self).i2c(),
            final(self).ble_device() == old(self).ble_device(),
            final(self).modem() == old(self).modem(),
            if TIMER_BOUND.0 <= timer_num <= TIMER_BOUND.1 {
                &&& res == old(self).timers()[timer_num as int]
                &&& final(self).timers() == old(self).timers().update(
                    timer_num as int,
                    Peripheral::Unavailable,
                )
            } else {
                &&& res == Peripheral::Unavailable
                &&& final(self).timers() == old(self).timers()
            },
    {
        if timer_num >= TIMER_BOUND.0 && timer_num <= TIMER_BOUND.1 {
            let res = self.timers[timer_num];
            self.timers.set(timer_num, Peripheral::Unavailable);
            return res;
        }
        Peripheral::Unavailable
    }

    /// Takes UART `uart_num`.
    pub fn get_uart(&mut self, uart_num: usize) -> (res: Peripheral)
        requires
            old(self).wf(),
        ensures
            final(self).wf(),
            final(self).pins() == old(self).pins(),
            final(self).timers() == old(self).timers(),
            final(self).pwm_channels() == old(self).pwm_channels(),
            final(self).pwm_timers() == old(self).pwm_timers(),
            final(self).adc() == old(self).adc(),
            final(self).i2c() == old(self).i2c(),
            final(self).ble_device() == old(self).ble_device(),
            final(self).modem() == old(self).modem(),
            if UART_BOUNDS.0 <= uart_num <= UART_BOUNDS.1 {
                &&& res == old(self).uarts()[uart_num as int]
                &&& final(self).uarts() == old(self).uarts().update(
                    uart_num as int,
                    Peripheral::Unavailable,
                )
            } else {
                &&& res == Peripheral::Unavailable
                &&& final(self).uarts() == old(self).uarts()
            },
    {
        if uart_num >= UART_BOUNDS.0 && uart_num <= UART_BOUNDS.1 {
            let res = self.uart[uart_num];
            self.uart.set(uart_num, Peripheral::Unavailable);
            return res;
        }
        Peripheral::Unavailable
    }

    /// The index of the first PWM channel still available, if any.
    pub open spec fn first_free_pwm(self, i: int) -> bool {
        &&& 0 <= i < PWM_COUNT
        &&& self.pwm_channels()[i] != Peripheral::Unavailable
        &&& forall|j: int| 0 <= j < i ==> self.pwm_channels()[j] == Peripheral::Unavailable
    }

    /// Takes the first PWM channel still available together with the PWM timer
    /// of the same number; both `Unavailable` when all have been taken.
    pub fn get_next_pwm(&mut self) -> (res: (Peripheral, Peripheral))
        requires
            old(self).wf(),
        ensures
            final(self).wf(),
            final(self).pins() == old(self).pins(),
            final(self).timers() == old(self).timers(),
            final(self).uarts() == old(self).uarts(),
            final(self).adc() == old(self).adc(),
            final(self).i2c() == old(self).i2c(),
            final(self).ble_device() == old(self).ble_device(),
            final(self).modem() == old(self).modem(),
            forall|i: int|
                #[trigger] old(self).first_free_pwm(i) ==> {
                    &&& res == (Peripheral::PWMChannel(i as u8), Peripheral::PWMTimer(i as u8))
                    &&& final(self).pwm_channels() == old(self).pwm_channels().update(
                        i,
                        Peripheral::Unavailable,
                    )
                    &&& final(self).pwm_timers() == old(self).pwm_timers().update(
                        i,
                        Peripheral::Unavailable,
                    )
                },
            (forall|j: int| 0 <= j < PWM_COUNT ==> old(self).pwm_channels()[j] == Peripheral::Unavailable)
                ==> {
                &&& res == (Peripheral::Unavailable, Peripheral::Unavailable)
                &&& final(self).pwm_channels() == old(self).pwm_channels()
                &&& final(self).pwm_timers() == old(self).pwm_timers()
            },
    {
        let mut i: usize = 0;
        while i < 4
            invariant
                self.wf(),
                *self == *old(self),
                i <= PWM_COUNT,
                forall|j: int| 0 <= j < i ==> self.pwm_channels@[j] == Peripheral::Unavailable,
            decreases 4 - i,
        {
            if self.pwm_channels[i] != Peripheral::Unavailable {
                proof {
                    assert(self.first_free_pwm(i as int));
                    assert forall|k: int| #[trigger] old(self).first_free_pwm(k) implies k == i by {
                        if k < i {
                            assert(self.pwm_channels@[k] == Peripheral::Unavailable);
                        } else if k > i {
                            assert(old(self).pwm_channels()[i as int] == Peripheral::Unavailable);
                        }
                    }
                }
                let channel = self.pwm_channels[i];
                let timer = self.pwm_timers[i];
                self.pwm_channels.set(i, Peripheral::Unavailable);
                self.pwm_timers.set(i, Peripheral::Unavailable);
                return (channel, timer);
            }
            i = i + 1;
        }
        (Peripheral::Unavailable, Peripheral::Unavailable)
    }

    /// Takes the ADC.
    pub fn get_adc(&mut self) -> (res: Peripheral)
        requires
            old(self).wf(),
        ensures
            final(self).wf(),
            res == old(self).adc(),
            final(self).adc() == Peripheral::Unavailable,
            final(self).pins() == old(self).pins(),
            final(self).timers() == old(self).timers(),
            final(self).pwm_channels() == old(self).pwm_channels(),
            final(self).pwm_timers() == old(self).pwm_timers(),
            final(self).uarts() == old(self).uarts(),
            final(self).i2c() == old(self).i2c(),
            final(self).ble_device() == old(self).ble_device(),
            final(self).modem() == old(self).modem(),
    {
        self.adc.take()
    }

    /// Takes the I2C controller.
    pub fn get_i2c(&mut self) -> (res: Peripheral)
        requires
            old(self).wf(),
        ensures
            final(self).wf(),
            res == old(self).i2c(),
            final(self).i2c() == Peripheral::Unavailable,
            final(self).pins() == old(self).pins(),
            final(self).timers() == old(self).timers(),
            final(self).pwm_channels() == old(self).pwm_channels(),
            final(self).pwm_timers() == old(self).pwm_timers(),
            final(self).uarts() == old(self).uarts(),
            final(self).adc() == old(self).adc(),
            final(self).ble_device() == old(self).ble_device(),
            final(self).modem() == old(self).modem(),
    {
        self.i2c.take()
    }

    /// Takes the BLE device.
    pub fn get_ble_peripheral(&mut self) -> (res: Peripheral)
        requires
            old(self).wf(),
        ensures
            final(self).wf(),
            res == old(self).ble_device(),
            final(self).ble_device() == Peripheral::Unavailable,
            final(self).pins() == old(self).pins(),
            final(self).timers() == old(self).timers(),
            final(self).pwm_channels() == old(self).pwm_channels(),
            final(self).pwm_timers() == old(self).pwm_timers(),
            final(self).uarts() == old(self).uarts(),
            final(self).adc() == old(self).adc(),
            final(self).i2c() == old(self).i2c(),
            final(self).modem() == old(self).modem(),
    {
        self.ble_device.take()
    }

    /// Takes the modem.
    pub fn get_wifi_peripheral(&mut self) -> (res: Peripheral)
        requires
            old(self).wf(),
        ensures
            final(self).wf(),
            res == old(self).modem(),
            final(self).modem() == Peripheral::Unavailable,
            final(self).pins() == old(self).pins(),
            final(self).timers() == old(self).timers(),
            final(self).pwm_channels() == old(self).pwm_channels(),
            final(self).pwm_timers() == old(self).pwm_timers(),
            final(self).uarts() == old(self).uarts(),
            final(self).adc() == old(self).adc(),
            final(self).i2c() == old(self).i2c(),
            final(self).ble_device() == old(self).ble_device(),
    {
        self.modem.take()
    }
}

/// A pin is handed out at most once: once taken, asking for it again gives
/// `Unavailable`, and nothing else changes.
pub proof fn lemma_pin_taken_once(
    p0: Peripherals,
    p1: Peripherals,
    p2: Peripherals,
    first: Peripheral,
    second: Peripheral,
    pin_num: usize,
    bound: (usize, usize),
)
    requires
        p0.wf(),
        bound.1 < PIN_COUNT,
        p0.taken_pin(p1, first, pin_num, bound),
        p1.taken_pin(p2, second, pin_num, bound),
    ensures
        second == Peripheral::Unavailable,
        p2.pins() == p1.pins(),
{
}

} // verus!
