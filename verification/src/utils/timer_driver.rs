use vstd::prelude::*;

use crate::microcontroller_src::peripherals::PeripheralError;

verus! {

pub const MICRO_IN_SEC: u64 = 1000000;
/// The number of children that the original copy of a timer driver can create.
pub const MAX_CHILDREN: u16 = 255;

/// Errors of the timer drivers.
#[derive(Debug, PartialEq, Eq, Structural, Clone, Copy)]
pub enum TimerDriverError {
    CannotSetTimerCounter,
    CouldNotSetTimer,
    ErrorReadingAlarm,
    ErrorReadingTimer,
    ErrorSettingUpForDelay,
    InvalidPeripheral(PeripheralError),
    OnlyOriginalCopyCanCreateChildren,
    SubscriptionError,
    TooManyChildren,
}

/// The status of a time interrupt.
#[derive(Debug, PartialEq, Eq, Structural, Clone, Copy)]
pub enum TimerInterruptStatus {
    Disabled,
    Enabled,
    Removing,
}

/// An alarm set for the interrupt `id` at counter value `time`. `alarm_id`
/// tells it apart from earlier alarms of the same interrupt.
#[derive(Debug, PartialEq, Eq, Structural, Clone, Copy)]
pub struct Alarm {
    pub time: u64,
    pub id: u16,
    pub alarm_id: usize,
}

impl Alarm {
    pub fn new(id: u16, alarm_id: usize, time: u64) -> (res: Alarm)
        ensures
            res == (Alarm { time, id, alarm_id }),
    {
        Alarm { time, id, alarm_id }
    }
}

/// An interrupt to be triggered `after` counter ticks, a number of times
/// (`remaining_triggers`, or without limit when `None`). Its callback is kept
/// by the driver under the same `id`.
#[derive(Debug, Clone, Copy)]
pub struct TimeInterrupt {
    pub after: u64,
    pub id: u16,
    pub current_alarm_id: usize,
    pub status: TimerInterruptStatus,
    pub remaining_triggers: Option<u32>,
    pub auto_reenable: bool,
}

/// The interrupt after a trigger, and whether its callback runs: a limited
/// interrupt with no triggers left does nothing; otherwise one trigger is used
/// up, the callback runs and the interrupt is disabled.
pub open spec fn spec_trigger(t: TimeInterrupt) -> (TimeInterrupt, bool) {
    match t.remaining_triggers {
        Some(n) => if n == 0 {
            (t, false)
        } else {
            (
                TimeInterrupt {
                    remaining_triggers: Some((n - 1) as u32),
                    status: TimerInterruptStatus::Disabled,
                    ..t
                },
                true,
            )
        },
        None => (TimeInterrupt { status: TimerInterruptStatus::Disabled, ..t }, true),
    }
}

/// Whether an interrupt may still trigger.
pub open spec fn spec_any_triggers_left(t: TimeInterrupt) -> bool {
    match t.remaining_triggers {
        Some(n) => n > 0,
        None => true,
    }
}

impl TimeInterrupt {
    /// A disabled interrupt whose first alarm id is 0.
    pub fn new(id: u16, time: u64, amount_of_triggers: Option<u32>, auto_reenable: bool) -> (res:
        TimeInterrupt)
        ensures
            res == (TimeInterrupt {
                after: time,
                id,
                current_alarm_id: 0,
                status: TimerInterruptStatus::Disabled,
                remaining_triggers: amount_of_triggers,
                auto_reenable,
            }),
    {
        TimeInterrupt {
            after: time,
            id,
            current_alarm_id: 0,
            status: TimerInterruptStatus::Disabled,
            remaining_triggers: amount_of_triggers,
            auto_reenable,
        }
    }

    /// The alarm of this interrupt when the counter reads `current_time`.
    pub fn get_alarm(&self, current_time: u64) -> (res: Alarm)
        requires
            self.after + current_time <= u64::MAX,
        ensures
            res == (Alarm {
                time: (self.after + current_time) as u64,
                id: self.id,
                alarm_id: self.current_alarm_id,
            }),
    {
        Alarm::new(self.id, self.current_alarm_id, self.after + current_time)
    }

    /// Makes every alarm set so far stale, by advancing the alarm id.
    pub fn disable_previouse_alarms(&mut self)
        requires
            old(self).current_alarm_id < usize::MAX,
        ensures
            *final(self) == (TimeInterrupt {
                current_alarm_id: (old(self).current_alarm_id + 1) as usize,
                ..*old(self)
            }),
    {
        self.current_alarm_id = self.current_alarm_id + 1;
    }

    /// Uses up a trigger if any remains. Returns whether the callback must run.
    pub fn trigger(&mut self) -> (fired: bool)
        ensures
            (*final(self), fired) == spec_trigger(*old(self)),
    {
        match self.remaining_triggers {
            Some(amount) => {
                if amount == 0 {
                    return false;
                }
                self.remaining_triggers = Some(amount - 1);
            },
            None => {},
        }
        self.status = TimerInterruptStatus::Disabled;
        true
    }

    /// Whether triggers remain, or no limit was set.
    pub fn any_triggers_left(&self) -> (res: bool)
        ensures
            res == spec_any_triggers_left(*self),
    {
        match self.remaining_triggers {
            Some(triggers) => triggers > 0,
            None => true,
        }
    }
}

/// Whether the sequence holds an interrupt with this id.
pub open spec fn has_id(s: Seq<TimeInterrupt>, id: u16) -> bool {
    exists|i: int| 0 <= i < s.len() && s[i].id == id
}

/// No two interrupts share an id.
pub open spec fn unique_ids(s: Seq<TimeInterrupt>) -> bool {
    forall|i: int, j: int| 0 <= i < s.len() && 0 <= j < s.len() && i != j ==> s[i].id != s[j].id
}

/// The interrupts of a sequence, by id.
pub open spec fn interrupt_map(s: Seq<TimeInterrupt>) -> Map<u16, TimeInterrupt> {
    Map::new(
        |id: u16| has_id(s, id),
        |id: u16| s[choose|i: int| 0 <= i < s.len() && s[i].id == id],
    )
}

proof fn lemma_map_lookup(s: Seq<TimeInterrupt>, k: int)
    requires
        unique_ids(s),
        0 <= k < s.len(),
    ensures
        interrupt_map(s).contains_key(s[k].id),
        interrupt_map(s)[s[k].id] == s[k],
{
    let id = s[k].id;
    assert(has_id(s, id));
    let c = choose|i: int| 0 <= i < s.len() && s[i].id == id;
    assert(c == k);
}

proof fn lemma_map_update(s: Seq<TimeInterrupt>, k: int, v: TimeInterrupt)
    requires
        unique_ids(s),
        0 <= k < s.len(),
        v.id == s[k].id,
    ensures
        unique_ids(s.update(k, v)),
        interrupt_map(s.update(k, v)) == interrupt_map(s).insert(v.id, v),
{
    let s2 = s.update(k, v);
    assert forall|i: int, j: int|
        0 <= i < s2.len() && 0 <= j < s2.len() && i != j implies s2[i].id != s2[j].id by {
        assert(s2[i].id == s[i].id);
        assert(s2[j].id == s[j].id);
    }
    let m2 = interrupt_map(s2);
    let m1 = interrupt_map(s).insert(v.id, v);
    assert forall|id: u16| #[trigger] m2.contains_key(id) <==> m1.contains_key(id) by {
        if has_id(s2, id) {
            let i = choose|i: int| 0 <= i < s2.len() && s2[i].id == id;
            if i != k {
                assert(s[i].id == id);
            }
        }
        if has_id(s, id) {
            let i = choose|i: int| 0 <= i < s.len() && s[i].id == id;
            assert(s2[i].id == id);
        }
        assert(s2[k].id == v.id);
    }
    assert forall|id: u16| #[trigger] m2.contains_key(id) implies m2[id] == m1[id] by {
        let i = choose|i: int| 0 <= i < s2.len() && s2[i].id == id;
        lemma_map_lookup(s2, i);
        if id == v.id {
            assert(i == k);
        } else {
            assert(i != k);
            lemma_map_lookup(s, i);
        }
    }
    assert(m2 =~= m1);
}

proof fn lemma_map_push(s: Seq<TimeInterrupt>, v: TimeInterrupt)
    requires
        unique_ids(s),
        !has_id(s, v.id),
    ensures
        unique_ids(s.push(v)),
        interrupt_map(s.push(v)) == interrupt_map(s).insert(v.id, v),
{
    let s2 = s.push(v);
    assert forall|i: int, j: int|
        0 <= i < s2.len() && 0 <= j < s2.len() && i != j implies s2[i].id != s2[j].id by {
        if i == s.len() as int {
            assert(s2[j] == s[j]);
        } else if j == s.len() as int {
            assert(s2[i] == s[i]);
        }
    }
    let m2 = interrupt_map(s2);
    let m1 = interrupt_map(s).insert(v.id, v);
    assert forall|id: u16| #[trigger] m2.contains_key(id) <==> m1.contains_key(id) by {
        if has_id(s2, id) {
            let i = choose|i: int| 0 <= i < s2.len() && s2[i].id == id;
            if i < s.len() {
                assert(s[i].id == id);
            }
        }
        if has_id(s, id) {
            let i = choose|i: int| 0 <= i < s.len() && s[i].id == id;
            assert(s2[i].id == id);
        }
        assert(s2[s.len() as int].id == v.id);
    }
    assert forall|id: u16| #[trigger] m2.contains_key(id) implies m2[id] == m1[id] by {
        let i = choose|i: int| 0 <= i < s2.len() && s2[i].id == id;
        lemma_map_lookup(s2, i);
        if i < s.len() {
            assert(s2[i] == s[i]);
            lemma_map_lookup(s, i);
        }
    }
    assert(m2 =~= m1);
}

proof fn lemma_map_remove(s: Seq<TimeInterrupt>, k: int)
    requires
        unique_ids(s),
        0 <= k < s.len(),
    ensures
        unique_ids(s.remove(k)),
        interrupt_map(s.remove(k)) == interrupt_map(s).remove(s[k].id),
{
    let s2 = s.remove(k);
    let gone = s[k].id;
    assert forall|i: int, j: int|
        0 <= i < s2.len() && 0 <= j < s2.len() && i != j implies s2[i].id != s2[j].id by {
        let oi = if i < k {
            i
        } else {
            i + 1
        };
        let oj = if j < k {
            j
        } else {
            j + 1
        };
        assert(s2[i] == s[oi]);
        assert(s2[j] == s[oj]);
    }
    let m2 = interrupt_map(s2);
    let m1 = interrupt_map(s).remove(gone);
    assert forall|id: u16| #[trigger] m2.contains_key(id) <==> m1.contains_key(id) by {
        if has_id(s2, id) {
            let i = choose|i: int| 0 <= i < s2.len() && s2[i].id == id;
            let oi = if i < k {
                i
            } else {
                i + 1
            };
            assert(s2[i] == s[oi]);
            assert(has_id(s, id));
            assert(oi != k);
        }
        if has_id(s, id) && id != gone {
            let i = choose|i: int| 0 <= i < s.len() && s[i].id == id;
            assert(i != k);
            let ni = if i < k {
                i
            } else {
                i - 1
            };
            assert(s2[ni] == s[i]);
        }
    }
    assert forall|id: u16| #[trigger] m2.contains_key(id) implies m2[id] == m1[id] by {
        let i = choose|i: int| 0 <= i < s2.len() && s2[i].id == id;
        lemma_map_lookup(s2, i);
        let oi = if i < k {
            i
        } else {
            i + 1
        };
        assert(s2[i] == s[oi]);
        lemma_map_lookup(s, oi);
    }
    assert(m2 =~= m1);
}

/// The interrupts and alarms after `id` is activated with the counter at
/// `now`: a disabled interrupt gets a new alarm; any interrupt with this id
/// ends up enabled.
pub open spec fn spec_activate(
    m: Map<u16, TimeInterrupt>,
    a: Seq<Alarm>,
    id: u16,
    now: u64,
) -> (Map<u16, TimeInterrupt>, Seq<Alarm>) {
    if m.contains_key(id) {
        let t = m[id];
        let a2 = if t.status == TimerInterruptStatus::Disabled {
            a.push(Alarm { time: (t.after + now) as u64, id, alarm_id: t.current_alarm_id })
        } else {
            a
        };
        (m.insert(id, TimeInterrupt { status: TimerInterruptStatus::Enabled, ..t }), a2)
    } else {
        (m, a)
    }
}

/// The interrupts after `id` is deactivated: an enabled interrupt makes all
/// its earlier alarms stale; any interrupt with this id ends up disabled.
pub open spec fn spec_deactivate(m: Map<u16, TimeInterrupt>, id: u16) -> Map<u16, TimeInterrupt> {
    if m.contains_key(id) {
        let t = m[id];
        let cur = if t.status == TimerInterruptStatus::Enabled {
            (t.current_alarm_id + 1) as usize
        } else {
            t.current_alarm_id
        };
        m.insert(
            id,
            TimeInterrupt { current_alarm_id: cur, status: TimerInterruptStatus::Disabled, ..t },
        )
    } else {
        m
    }
}

/// What handling a due alarm does: an alarm of an interrupt that is not set,
/// or that is stale, changes nothing. Otherwise an enabled interrupt is
/// triggered and, when it re-enables itself and triggers remain, activated
/// again; a disabled one stays; one being removed is removed. The `bool`
/// says whether the interrupt's callback runs.
pub open spec fn spec_handle_alarm(
    m: Map<u16, TimeInterrupt>,
    a: Seq<Alarm>,
    alarm: Alarm,
    now: u64,
) -> (Map<u16, TimeInterrupt>, Seq<Alarm>, bool) {
    if m.contains_key(alarm.id) && m[alarm.id].current_alarm_id == alarm.alarm_id {
        let t = m[alarm.id];
        match t.status {
            TimerInterruptStatus::Enabled => {
                let (t2, fired) = spec_trigger(t);
                let m2 = m.insert(alarm.id, t2);
                if spec_any_triggers_left(t2) && t2.auto_reenable {
                    let (m3, a3) = spec_activate(m2, a, alarm.id, now);
                    (m3, a3, fired)
                } else {
                    (m2, a, fired)
                }
            },
            TimerInterruptStatus::Disabled => (m, a, false),
            TimerInterruptStatus::Removing => (m.remove(alarm.id), a, false),
        }
    } else {
        (m, a, false)
    }
}

/// Whether `t` is the earliest time among the alarms.
pub open spec fn is_earliest(a: Seq<Alarm>, t: u64) -> bool {
    &&& exists|i: int| 0 <= i < a.len() && a[i].time == t
    &&& forall|j: int| 0 <= j < a.len() ==> t <= a[j].time
}

/// The alarm to program in the hardware timer: the earliest pending one.
pub open spec fn programs_earliest(a: Seq<Alarm>, program: Option<u64>) -> bool {
    match program {
        Some(t) => is_earliest(a, t),
        None => a.len() == 0,
    }
}

/// What the hardware timer must do after an interrupt is enabled: program the
/// earliest alarm, and start the timer when it was idle.
pub struct EnableCommand {
    pub program_alarm: Option<u64>,
    pub start_timer: bool,
}

/// The outcome of handling the earliest due alarm: the interrupt whose
/// callback must run, if any, and the alarm to program next.
pub struct AlarmStep {
    pub fired: Option<u16>,
    pub program_alarm: Option<u64>,
}

/// The scheduler behind a timer group: interrupts by id and the pending
/// alarms, of which the hardware timer is always set to the earliest. Many
/// drivers share one scheduler, each with interrupts of its own id.
pub struct TimerScheduler {
    alarms: Vec<Alarm>,
    interrupts: Vec<TimeInterrupt>,
}

impl TimerScheduler {
    /// The interrupts that are set, by id.
    pub closed spec fn interrupts(self) -> Map<u16, TimeInterrupt> {
        interrupt_map(self.interrupts@)
    }

    /// The pending alarms, in no particular order.
    pub closed spec fn alarms(self) -> Seq<Alarm> {
        self.alarms@
    }

    pub closed spec fn wf(self) -> bool {
        unique_ids(self.interrupts@)
    }

    /// A scheduler with no interrupts and no alarms.
    pub fn new() -> (res: TimerScheduler)
        ensures
            res.wf(),
            res.interrupts() == Map::<u16, TimeInterrupt>::empty(),
            res.alarms() == Seq::<Alarm>::empty(),
    {
        let res = TimerScheduler { alarms: Vec::new(), interrupts: Vec::new() };
        assert(res.interrupts() =~= Map::<u16, TimeInterrupt>::empty());
        res
    }

    /// The position of the interrupt with this id, if it is set.
    fn find(&self, id: u16) -> (res: Option<usize>)
        requires
            self.wf(),
        ensures
            match res {
                Some(k) => k < self.interrupts@.len() && self.interrupts@[k as int].id == id,
                None => !has_id(self.interrupts@, id),
            },
    {
        let mut k: usize = 0;
        while k < self.interrupts.len()
            invariant
                k <= self.interrupts@.len(),
                forall|j: int| 0 <= j < k ==> self.interrupts@[j].id != id,
            decreases self.interrupts@.len() - k,
        {
            if self.interrupts[k].id == id {
                return Some(k);
            }
            k = k + 1;
        }
        None
    }

    /// The interrupt with this id, if it is set.
    pub fn get(&self, id: u16) -> (res: Option<TimeInterrupt>)
        requires
            self.wf(),
        ensures
            match res {
                Some(t) => self.interrupts().contains_key(id) && self.interrupts()[id] == t,
                None => !self.interrupts().contains_key(id),
            },
    {
        match self.find(id) {
            Some(k) => {
                proof {
                    lemma_map_lookup(self.interrupts@, k as int);
                }
                Some(self.interrupts[k])
            },
            None => None,
        }
    }

    /// Sets interrupt `id` to trigger `ticks` counter ticks after it is enabled,
    /// `amount_of_triggers` times (without limit when `None`), re-enabling
    /// itself after each trigger when `auto_reenable` is set. It starts
    /// disabled. An interrupt that had this id is replaced, and its alarms
    /// become stale.
    pub fn interrupt_after_n_times(
        &mut self,
        id: u16,
        ticks: u64,
        amount_of_triggers: Option<u32>,
        auto_reenable: bool,
    )
        requires
            old(self).wf(),
            old(self).interrupts().contains_key(id) ==> old(self).interrupts()[id].current_alarm_id
                < usize::MAX,
        ensures
            final(self).wf(),
            final(self).alarms() == old(self).alarms(),
            final(self).interrupts() == old(self).interrupts().insert(
                id,
                TimeInterrupt {
                    after: ticks,
                    id,
                    current_alarm_id: if old(self).interrupts().contains_key(id) {
                        (old(self).interrupts()[id].current_alarm_id + 1) as usize
                    } else {
                        0
                    },
                    status: TimerInterruptStatus::Disabled,
                    remaining_triggers: amount_of_triggers,
                    auto_reenable,
                },
            ),
    {
        let mut interrupt = TimeInterrupt::new(id, ticks, amount_of_triggers, auto_reenable);
        match self.find(id) {
            Some(k) => {
                proof {
                    lemma_map_lookup(self.interrupts@, k as int);
                }
                interrupt.current_alarm_id = self.interrupts[k].current_alarm_id + 1;
                proof {
                    lemma_map_update(self.interrupts@, k as int, interrupt);
                }
                self.interrupts.set(k, interrupt);
            },
            None => {
                proof {
                    lemma_map_push(self.interrupts@, interrupt);
                }
                self.interrupts.push(interrupt);
            },
        }
    }

    /// Sets interrupt `id` to trigger once, `ticks` counter ticks after it is
    /// enabled.
    pub fn interrupt_after(&mut self, id: u16, ticks: u64)
        requires
            old(self).wf(),
            old(self).interrupts().contains_key(id) ==> old(self).interrupts()[id].current_alarm_id
                < usize::MAX,
        ensures
            final(self).wf(),
            final(self).alarms() == old(self).alarms(),
            final(self).interrupts() == old(self).interrupts().insert(
                id,
                TimeInterrupt {
                    after: ticks,
                    id,
                    current_alarm_id: if old(self).interrupts().contains_key(id) {
                        (old(self).interrupts()[id].current_alarm_id + 1) as usize
                    } else {
                        0
                    },
                    status: TimerInterruptStatus::Disabled,
                    remaining_triggers: None,
                    auto_reenable: false,
                },
            ),
    {
        self.interrupt_after_n_times(id, ticks, None, false)
    }

    /// Whether activating `id` sets a new alarm, and so needs the counter.
    pub fn activation_needs_counter(&self, id: u16) -> (res: bool)
        requires
            self.wf(),
        ensures
            res == (self.interrupts().contains_key(id) && self.interrupts()[id].status
                == TimerInterruptStatus::Disabled),
    {
        match self.get(id) {
            Some(t) => t.status == TimerInterruptStatus::Disabled,
            None => false,
        }
    }

    /// Activates interrupt `id` with the counter at `current_time`.
    pub fn activate(&mut self, id: u16, current_time: u64)
        requires
            old(self).wf(),
            old(self).interrupts().contains_key(id) ==> old(self).interrupts()[id].after
                + current_time <= u64::MAX,
        ensures
            final(self).wf(),
            (final(self).interrupts(), final(self).alarms()) == spec_activate(
                old(self).interrupts(),
                old(self).alarms(),
                id,
                current_time,
            ),
    {
        match self.find(id) {
            Some(k) => {
                proof {
                    lemma_map_lookup(self.interrupts@, k as int);
                }
                let mut interrupt = self.interrupts[k];
                if interrupt.status == TimerInterruptStatus::Disabled {
                    let alarm = interrupt.get_alarm(current_time);
                    self.alarms.push(alarm);
                }
                interrupt.status = TimerInterruptStatus::Enabled;
                proof {
                    lemma_map_update(self.interrupts@, k as int, interrupt);
                }
                self.interrupts.set(k, interrupt);
            },
            None => {},
        }
    }

    /// Deactivates interrupt `id`.
    pub fn deactivate(&mut self, id: u16)
        requires
            old(self).wf(),
            old(self).interrupts().contains_key(id) ==> old(self).interrupts()[id].current_alarm_id
                < usize::MAX,
        ensures
            final(self).wf(),
            final(self).alarms() == old(self).alarms(),
            final(self).interrupts() == spec_deactivate(old(self).interrupts(), id),
    {
        match self.find(id) {
            Some(k) => {
                proof {
                    lemma_map_lookup(self.interrupts@, k as int);
                }
                let mut interrupt = self.interrupts[k];
                if interrupt.status == TimerInterruptStatus::Enabled {
                    interrupt.disable_previouse_alarms();
                }
                interrupt.status = TimerInterruptStatus::Disabled;
                proof {
                    lemma_map_update(self.interrupts@, k as int, interrupt);
                }
                self.interrupts.set(k, interrupt);
            },
            None => {},
        }
    }

    /// Forgets every interrupt and alarm.
    pub fn reset(&mut self)
        ensures
            final(self).wf(),
            final(self).interrupts() == Map::<u16, TimeInterrupt>::empty(),
            final(self).alarms() == Seq::<Alarm>::empty(),
    {
        self.interrupts = Vec::new();
        self.alarms = Vec::new();
        assert(self.interrupts() =~= Map::<u16, TimeInterrupt>::empty());
    }

    /// The position of an earliest alarm, if any.
    fn earliest_index(&self) -> (res: Option<usize>)
        ensures
            match res {
                Some(k) => k < self.alarms@.len() && forall|j: int|
                    0 <= j < self.alarms@.len() ==> self.alarms@[k as int].time
                        <= self.alarms@[j].time,
                None => self.alarms@.len() == 0,
            },
    {
        if self.alarms.len() == 0 {
            return None;
        }
        let mut best: usize = 0;
        let mut k: usize = 1;
        while k < self.alarms.len()
            invariant
                1 <= k <= self.alarms@.len(),
                best < k,
                forall|j: int| 0 <= j < k ==> self.alarms@[best as int].time <= self.alarms@[j].time,
            decreases self.alarms@.len() - k,
        {
            if self.alarms[k].time < self.alarms[best].time {
                best = k;
            }
            k = k + 1;
        }
        Some(best)
    }

    /// The time of the earliest pending alarm, if any.
    pub fn lowest_alarm_time(&self) -> (res: Option<u64>)
        ensures
            programs_earliest(self.alarms(), res),
    {
        match self.earliest_index() {
            Some(k) => Some(self.alarms[k].time),
            None => None,
        }
    }

    /// Removes and returns an earliest pending alarm, if any.
    pub fn pop_lowest(&mut self) -> (res: Option<Alarm>)
        requires
            old(self).wf(),
        ensures
            final(self).wf(),
            final(self).interrupts() == old(self).interrupts(),
            match res {
                Some(a) => exists|k: int|
                    0 <= k < old(self).alarms().len() && old(self).alarms()[k] == a
                        && final(self).alarms() == old(self).alarms().remove(k)
                        && forall|j: int|
                        0 <= j < old(self).alarms().len() ==> a.time
                            <= old(self).alarms()[j].time,
                None => old(self).alarms().len() == 0 && final(self).alarms() == old(self).alarms(),
            },
    {
        match self.earliest_index() {
            Some(k) => {
                let a = self.alarms.remove(k);
                assert(old(self).alarms()[k as int] == a);
                Some(a)
            },
            None => None,
        }
    }

    /// Enables interrupt `id` with the counter at `current_time`, and tells
    /// what the hardware timer must do: be set to the earliest alarm, and be
    /// started when no alarm was pending before or none is pending now.
    pub fn enable(&mut self, id: u16, current_time: u64) -> (cmd: EnableCommand)
        requires
            old(self).wf(),
            old(self).interrupts().contains_key(id) ==> old(self).interrupts()[id].after
                + current_time <= u64::MAX,
        ensures
            final(self).wf(),
            (final(self).interrupts(), final(self).alarms()) == spec_activate(
                old(self).interrupts(),
                old(self).alarms(),
                id,
                current_time,
            ),
            programs_earliest(final(self).alarms(), cmd.program_alarm),
            cmd.start_timer == (final(self).alarms().len() == 0 || old(self).alarms().len() == 0),
    {
        let starting_len = self.alarms.len();
        self.activate(id, current_time);
        let program_alarm = self.lowest_alarm_time();
        let start_timer = self.alarms.len() == 0 || starting_len == 0;
        EnableCommand { program_alarm, start_timer }
    }

    /// Disables interrupt `id`. When no alarm was pending the timer is stopped
    /// and every interrupt forgotten; the result says whether that happened.
    pub fn disable(&mut self, id: u16) -> (stop_timer: bool)
        requires
            old(self).wf(),
            old(self).interrupts().contains_key(id) ==> old(self).interrupts()[id].current_alarm_id
                < usize::MAX,
        ensures
            final(self).wf(),
            stop_timer == (old(self).alarms().len() == 0),
            stop_timer ==> final(self).interrupts() == Map::<u16, TimeInterrupt>::empty()
                && final(self).alarms() == Seq::<Alarm>::empty(),
            !stop_timer ==> final(self).interrupts() == spec_deactivate(old(self).interrupts(), id)
                && final(self).alarms() == old(self).alarms(),
    {
        let starting_len = self.alarms.len();
        self.deactivate(id);
        if self.alarms.len() == 0 || starting_len == 0 {
            self.reset();
            return true;
        }
        false
    }

    /// Disables interrupt `id` and marks it to be removed when its next alarm
    /// comes due. Returns whether the timer must be stopped.
    pub fn remove_interrupt(&mut self, id: u16) -> (stop_timer: bool)
        requires
            old(self).wf(),
            old(self).interrupts().contains_key(id) ==> old(self).interrupts()[id].current_alarm_id
                < usize::MAX,
        ensures
            final(self).wf(),
            stop_timer == (old(self).alarms().len() == 0),
            stop_timer ==> final(self).interrupts() == Map::<u16, TimeInterrupt>::empty()
                && final(self).alarms() == Seq::<Alarm>::empty(),
            !stop_timer ==> final(self).alarms() == old(self).alarms() && {
                let m = spec_deactivate(old(self).interrupts(), id);
                final(self).interrupts() == if m.contains_key(id) {
                    m.insert(id, TimeInterrupt { status: TimerInterruptStatus::Removing, ..m[id] })
                } else {
                    m
                }
            },
    {
        let stop = self.disable(id);
        match self.find(id) {
            Some(k) => {
                proof {
                    lemma_map_lookup(self.interrupts@, k as int);
                }
                let mut interrupt = self.interrupts[k];
                interrupt.status = TimerInterruptStatus::Removing;
                proof {
                    lemma_map_update(self.interrupts@, k as int, interrupt);
                }
                self.interrupts.set(k, interrupt);
            },
            None => {},
        }
        stop
    }

    /// Handles an alarm that came due with the counter at `current_time`.
    /// Returns whether the callback of interrupt `alarm.id` must run.
    pub fn handle_alarm_update(&mut self, alarm: Alarm, current_time: u64) -> (fired: bool)
        requires
            old(self).wf(),
            old(self).interrupts().contains_key(alarm.id) ==> old(self).interrupts()[alarm.id].after
                + current_time <= u64::MAX,
        ensures
            final(self).wf(),
            (final(self).interrupts(), final(self).alarms(), fired) == spec_handle_alarm(
                old(self).interrupts(),
                old(self).alarms(),
                alarm,
                current_time,
            ),
    {
        match self.find(alarm.id) {
            Some(k) => {
                proof {
                    lemma_map_lookup(self.interrupts@, k as int);
                }
                let mut interrupt = self.interrupts[k];
                if interrupt.current_alarm_id != alarm.alarm_id {
                    return false;
                }
                match interrupt.status {
                    TimerInterruptStatus::Enabled => {
                        let fired = interrupt.trigger();
                        proof {
                            lemma_map_update(self.interrupts@, k as int, interrupt);
                        }
                        self.interrupts.set(k, interrupt);
                        if interrupt.any_triggers_left() && interrupt.auto_reenable {
                            self.activate(alarm.id, current_time);
                        }
                        fired
                    },
                    TimerInterruptStatus::Disabled => false,
                    TimerInterruptStatus::Removing => {
                        proof {
                            lemma_map_remove(self.interrupts@, k as int);
                        }
                        self.interrupts.remove(k);
                        false
                    },
                }
            },
            None => false,
        }
    }

    /// Handles the earliest pending alarm (if any) with the counter at
    /// `current_time`, and tells which callback must run and which alarm the
    /// hardware timer must be set to next.
    /// Whether every interrupt's alarm, set when the counter reads
    /// `current_time`, fits in the counter.
    pub fn alarms_fit(&self, current_time: u64) -> (res: bool)
        requires
            self.wf(),
        ensures
            res == forall|id: u16|
                self.interrupts().contains_key(id) ==> #[trigger] self.interrupts()[id].after
                    + current_time <= u64::MAX,
    {
        let mut k: usize = 0;
        while k < self.interrupts.len()
            invariant
                self.wf(),
                k <= self.interrupts@.len(),
                forall|j: int| 0 <= j < k ==> self.interrupts@[j].after + current_time <= u64::MAX,
            decreases self.interrupts@.len() - k,
        {
            if self.interrupts[k].after > u64::MAX - current_time {
                proof {
                    lemma_map_lookup(self.interrupts@, k as int);
                }
                return false;
            }
            k = k + 1;
        }
        proof {
            assert forall|id: u16| self.interrupts().contains_key(id) implies #[trigger] self.interrupts()[id].after
                + current_time <= u64::MAX by {
                let i = choose|i: int| 0 <= i < self.interrupts@.len() && self.interrupts@[i].id == id;
                lemma_map_lookup(self.interrupts@, i);
            }
        }
        true
    }

    pub fn update_interrupt_step(&mut self, current_time: u64) -> (step: AlarmStep)
        requires
            old(self).wf(),
            forall|id: u16|
                old(self).interrupts().contains_key(id) ==> #[trigger] old(self).interrupts()[id].after
                    + current_time <= u64::MAX,
        ensures
            final(self).wf(),
            programs_earliest(final(self).alarms(), step.program_alarm),
            old(self).alarms().len() == 0 ==> step.fired is None && final(self).interrupts()
                == old(self).interrupts() && final(self).alarms() == old(self).alarms(),
            old(self).alarms().len() > 0 ==> exists|k: int|
                #![trigger old(self).alarms()[k]]
                0 <= k < old(self).alarms().len() && (forall|j: int|
                    0 <= j < old(self).alarms().len() ==> old(self).alarms()[k].time
                        <= old(self).alarms()[j].time) && {
                    let (m, a, fired) = spec_handle_alarm(
                        old(self).interrupts(),
                        old(self).alarms().remove(k),
                        old(self).alarms()[k],
                        current_time,
                    );
                    &&& final(self).interrupts() == m
                    &&& final(self).alarms() == a
                    &&& step.fired == if fired {
                        Some(old(self).alarms()[k].id)
                    } else {
                        None::<u16>
                    }
                },
    {
        let popped = self.pop_lowest();
        let fired = match popped {
            Some(alarm) => {
                let f = self.handle_alarm_update(alarm, current_time);
                if f {
                    Some(alarm.id)
                } else {
                    None
                }
            },
            None => None,
        };
        let program_alarm = self.lowest_alarm_time();
        AlarmStep { fired, program_alarm }
    }
}

/// Converts microseconds into ticks of a counter running at `tick_hz`.
pub fn micro_to_counter(micro_seconds: u64, tick_hz: u64) -> (ticks: u64)
    requires
        micro_seconds * tick_hz <= u64::MAX,
    ensures
        ticks == micro_seconds * tick_hz / (MICRO_IN_SEC as int),
{
    micro_seconds * tick_hz / MICRO_IN_SEC
}

/// The identity of a timer driver among the drivers that share one timer
/// group. The original copy has id 0 and hands out ids to its children.
pub struct TimerDriverHandle {
    pub id: u16,
    pub next_child: u16,
    pub group: u8,
}

impl TimerDriverHandle {
    /// The original copy of the driver of timer group `group`.
    pub fn new(group: u8) -> (res: TimerDriverHandle)
        ensures
            res.id == 0 && res.next_child == 1 && res.group == group,
    {
        TimerDriverHandle { id: 0, next_child: 1, group }
    }

    /// A child copy with a fresh id. Only the original copy can create children,
    /// and at most `MAX_CHILDREN - 1` of them.
    pub fn create_child_copy(&mut self) -> (res: Result<TimerDriverHandle, TimerDriverError>)
        ensures
            old(self).id != 0 ==> res == Err::<TimerDriverHandle, TimerDriverError>(
                TimerDriverError::OnlyOriginalCopyCanCreateChildren,
            ) && *final(self) == *old(self),
            old(self).id == 0 && old(self).next_child >= MAX_CHILDREN ==> res == Err::<
                TimerDriverHandle,
                TimerDriverError,
            >(TimerDriverError::TooManyChildren) && *final(self) == *old(self),
            old(self).id == 0 && old(self).next_child < MAX_CHILDREN ==> (res matches Ok(child)
                && child.id == old(self).next_child && child.next_child == 0 && child.group == old(
                self,
            ).group && *final(self) == (TimerDriverHandle {
                next_child: (old(self).next_child + 1) as u16,
                ..*old(self)
            })),
    {
        if self.id != 0 {
            return Err(TimerDriverError::OnlyOriginalCopyCanCreateChildren);
        }
        let child_id = self.next_child;
        if child_id >= MAX_CHILDREN {
            return Err(TimerDriverError::TooManyChildren);
        }
        self.next_child = self.next_child + 1;
        Ok(TimerDriverHandle { id: child_id, next_child: 0, group: self.group })
    }

    /// The id under which a delay of this driver is scheduled, apart from the
    /// ids of all drivers.
    pub fn delay_id(&self) -> (res: u16)
        requires
            self.id < MAX_CHILDREN,
        ensures
            res == self.id + MAX_CHILDREN,
    {
        self.id + MAX_CHILDREN
    }
}

/// An alarm that is stale (its interrupt has moved on to another alarm id) or
/// whose interrupt is not set changes nothing when it comes due, and runs no
/// callback.
pub proof fn lemma_stale_alarm_is_ignored(
    m: Map<u16, TimeInterrupt>,
    a: Seq<Alarm>,
    alarm: Alarm,
    now: u64,
)
    requires
        !m.contains_key(alarm.id) || m[alarm.id].current_alarm_id != alarm.alarm_id,
    ensures
        spec_handle_alarm(m, a, alarm, now) == (m, a, false),
{
}

/// After an enabled interrupt is deactivated, none of the alarms set for it
/// before runs its callback when it comes due.
pub proof fn lemma_deactivation_silences_pending_alarms(
    m: Map<u16, TimeInterrupt>,
    a: Seq<Alarm>,
    id: u16,
    alarm: Alarm,
    now: u64,
)
    requires
        m.contains_key(id),
        m[id].status == TimerInterruptStatus::Enabled,
        m[id].current_alarm_id < usize::MAX,
        alarm.id == id,
        alarm.alarm_id <= m[id].current_alarm_id,
    ensures
        spec_handle_alarm(spec_deactivate(m, id), a, alarm, now).2 == false,
{
}

/// An interrupt limited to `n` triggers runs its callback at most `n` times:
/// each run uses up one trigger, and with none left it does not run.
pub proof fn lemma_trigger_uses_up_one(t: TimeInterrupt)
    ensures
        spec_trigger(t).1 ==> spec_any_triggers_left(t),
        t.remaining_triggers matches Some(n) ==> (spec_trigger(t).1 ==> spec_trigger(
            t,
        ).0.remaining_triggers == Some((n - 1) as u32)),
        t.remaining_triggers == Some(0u32) ==> !spec_trigger(t).1,
{
}

/// A trigger that runs the callback leaves the interrupt disabled, whether it
/// re-enables itself or not, and keeps everything but its status and its
/// count of triggers. So an interrupt without auto re-enable whose alarm
/// fired and ran its callback is disabled, and enabling it again sets a new
/// alarm `after` ticks from then, under its current alarm id; one with auto
/// re-enable and triggers left is enabled again at once, with a new alarm
/// `after` ticks from the alarm's handling.
pub proof fn lemma_fired_interrupt_is_disabled(
    m: Map<u16, TimeInterrupt>,
    a: Seq<Alarm>,
    alarm: Alarm,
    now: u64,
    later: u64,
)
    ensures
        forall|t: TimeInterrupt| #[trigger] spec_trigger(t).1 ==> {
            &&& spec_trigger(t).0.status == TimerInterruptStatus::Disabled
            &&& spec_trigger(t).0.after == t.after
            &&& spec_trigger(t).0.id == t.id
            &&& spec_trigger(t).0.current_alarm_id == t.current_alarm_id
            &&& spec_trigger(t).0.auto_reenable == t.auto_reenable
        },
        ({
            let (m2, a2, fired) = spec_handle_alarm(m, a, alarm, now);
            (fired && !m[alarm.id].auto_reenable) ==> {
                &&& m2[alarm.id].status == TimerInterruptStatus::Disabled
                &&& a2 == a
                &&& spec_activate(m2, a2, alarm.id, later).1 == a.push(
                    Alarm {
                        time: (m[alarm.id].after + later) as u64,
                        id: alarm.id,
                        alarm_id: m[alarm.id].current_alarm_id,
                    },
                )
                &&& spec_activate(m2, a2, alarm.id, later).0[alarm.id].status
                    == TimerInterruptStatus::Enabled
            }
        }),
        ({
            let (m2, a2, fired) = spec_handle_alarm(m, a, alarm, now);
            (fired && m[alarm.id].auto_reenable && spec_any_triggers_left(m2[alarm.id])) ==> {
                &&& m2[alarm.id].status == TimerInterruptStatus::Enabled
                &&& a2 == a.push(
                    Alarm {
                        time: (m[alarm.id].after + now) as u64,
                        id: alarm.id,
                        alarm_id: m[alarm.id].current_alarm_id,
                    },
                )
            }
        }),
{
}

/// Interrupts that share a timer do not disturb each other: activating or
/// deactivating one, or handling an alarm of one, leaves every other
/// interrupt as it was, and the alarms already pending stay pending (an
/// activation or a re-enable only adds an alarm of its own interrupt).
pub proof fn lemma_interrupts_are_independent(
    m: Map<u16, TimeInterrupt>,
    a: Seq<Alarm>,
    id: u16,
    other: u16,
    alarm: Alarm,
    now: u64,
)
    requires
        other != id,
        alarm.id == id,
    ensures
        spec_activate(m, a, id, now).0.contains_key(other) == m.contains_key(other),
        m.contains_key(other) ==> spec_activate(m, a, id, now).0[other] == m[other],
        spec_deactivate(m, id).contains_key(other) == m.contains_key(other),
        m.contains_key(other) ==> spec_deactivate(m, id)[other] == m[other],
        spec_handle_alarm(m, a, alarm, now).0.contains_key(other) == m.contains_key(other),
        m.contains_key(other) ==> spec_handle_alarm(m, a, alarm, now).0[other] == m[other],
        spec_activate(m, a, id, now).1.take(a.len() as int) == a,
        forall|k: int|
            a.len() <= k < spec_activate(m, a, id, now).1.len() ==> #[trigger] spec_activate(
                m,
                a,
                id,
                now,
            ).1[k].id == id,
        spec_handle_alarm(m, a, alarm, now).1.take(a.len() as int) == a,
        forall|k: int|
            a.len() <= k < spec_handle_alarm(m, a, alarm, now).1.len() ==> #[trigger] spec_handle_alarm(
                m,
                a,
                alarm,
                now,
            ).1[k].id == id,
{
    assert(a.push(Alarm { time: 0, id, alarm_id: 0 }).take(a.len() as int) =~= a);
    if m.contains_key(id) {
        let t = m[id];
        let pushed = Alarm { time: (t.after + now) as u64, id, alarm_id: t.current_alarm_id };
        assert(a.push(pushed).take(a.len() as int) =~= a);
    }
    assert(a.take(a.len() as int) =~= a);
    if m.contains_key(alarm.id) && m[alarm.id].current_alarm_id == alarm.alarm_id {
        let t = m[alarm.id];
        if t.status == TimerInterruptStatus::Enabled {
            let t2 = spec_trigger(t).0;
            let pushed = Alarm { time: (t2.after + now) as u64, id, alarm_id: t2.current_alarm_id };
            assert(a.push(pushed).take(a.len() as int) =~= a);
        }
    }
}

/// Activating an interrupt that is already enabled sets no second alarm.
pub proof fn lemma_activate_enabled_sets_no_alarm(
    m: Map<u16, TimeInterrupt>,
    a: Seq<Alarm>,
    id: u16,
    now: u64,
)
    requires
        m.contains_key(id),
        m[id].status == TimerInterruptStatus::Enabled,
    ensures
        spec_activate(m, a, id, now).1 == a,
        spec_activate(m, a, id, now).0 == m,
{
    assert(spec_activate(m, a, id, now).0 =~= m);
}

/// Children of the original copy get distinct ids, none of them 0.
pub proof fn lemma_children_ids_distinct(
    h0: TimerDriverHandle,
    h1: TimerDriverHandle,
    h2: TimerDriverHandle,
    c1: TimerDriverHandle,
    c2: TimerDriverHandle,
)
    requires
        h0.id == 0,
        h0.next_child >= 1,
        h0.next_child < MAX_CHILDREN,
        h1.id == 0 && h1.next_child == h0.next_child + 1,
        c1.id == h0.next_child,
        h1.next_child < MAX_CHILDREN,
        h2.id == 0 && h2.next_child == h1.next_child + 1,
        c2.id == h1.next_child,
    ensures
        c1.id != c2.id,
        c1.id != 0 && c2.id != 0,
{
}

} // verus!
