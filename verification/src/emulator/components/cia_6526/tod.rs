use vstd::prelude::*;
use chrono::Timelike;
use crate::utils::{bcd_to_dec, dec_to_bcd, spec_bcd_to_dec, spec_dec_to_bcd};

verus! {

#[verifier::external_type_specification]
#[verifier::external_body]
pub struct ExInstant(std::time::Instant);

/// A time of day as chrono's `NaiveTime` holds it: the seconds since
/// midnight, and the nanoseconds within the second, which reach past one
/// second only during a leap second.
#[derive(Debug, Clone, Copy, PartialEq, Eq, Structural)]
pub struct TimeOfDay {
    pub secs: u32,
    pub frac: u32,
}

impl TimeOfDay {
    /// The values that a `NaiveTime` can hold.
    pub open spec fn valid(self) -> bool {
        &&& self.secs < 86_400
        &&& self.frac < 2_000_000_000
        &&& self.frac >= 1_000_000_000 ==> self.secs % 60 == 59
    }

    pub open spec fn spec_hour(self) -> u32 {
        self.secs / 3600
    }

    pub open spec fn spec_minute(self) -> u32 {
        (self.secs / 60) % 60
    }

    pub open spec fn spec_second(self) -> u32 {
        self.secs % 60
    }

    /// The hour on a 12-hour clock, 1 to 12, and whether it is after noon.
    pub open spec fn spec_hour12(self) -> (bool, u32) {
        let h = self.spec_hour();
        (h >= 12, if h % 12 == 0 {
            12
        } else {
            h % 12
        })
    }

    /// The tenth of the second, 0 to 9.
    pub open spec fn spec_tenth(self) -> u32 {
        (self.frac / 100_000_000) % 10
    }

    pub fn hour(&self) -> (r: u32)
        ensures
            r == self.spec_hour(),
    {
        self.secs / 3600
    }

    pub fn minute(&self) -> (r: u32)
        ensures
            r == self.spec_minute(),
    {
        (self.secs / 60) % 60
    }

    pub fn second(&self) -> (r: u32)
        ensures
            r == self.spec_second(),
    {
        self.secs % 60
    }

    pub fn nanosecond(&self) -> (r: u32)
        ensures
            r == self.frac,
    {
        self.frac
    }

    /// As chrono's `Timelike::hour12`.
    pub fn hour12(&self) -> (r: (bool, u32))
        ensures
            r == self.spec_hour12(),
    {
        let hour = self.hour();
        let mut hour12 = hour % 12;
        if hour12 == 0 {
            hour12 = 12;
        }
        (hour >= 12, hour12)
    }
}

/// The time of day that chrono's `NaiveTime + TimeDelta` gives for the time
/// `(secs, frac)` and a delta of `millis` milliseconds.
pub uninterp spec fn naive_time_add_millis(secs: u32, frac: u32, millis: i64) -> (u32, u32);

/// The local time of day now: `chrono::Local::now().time()`. What it is
/// depends on the clock; it is a valid time of day, and never within a leap
/// second, since chrono makes it from the system time, which has none.
#[verifier::external_body]
pub(crate) fn local_time() -> (r: TimeOfDay)
    ensures
        r.valid(),
        r.frac < 1_000_000_000,
{
    let t = chrono::Local::now().time();
    TimeOfDay { secs: t.num_seconds_from_midnight(), frac: t.nanosecond() }
}

/// `t + TimeDelta::milliseconds(millis)` with chrono's `NaiveTime`: the sum
/// wraps around midnight, so the result is again a valid time of day. Out
/// of a leap second the result is the nanoseconds since midnight plus the
/// delta, modulo a day; what a leap second gives is left to the name
/// `naive_time_add_millis`. `TimeDelta::milliseconds` refuses `i64::MIN`.
#[verifier::external_body]
fn time_add_millis(t: TimeOfDay, millis: i64) -> (r: TimeOfDay)
    requires
        t.valid(),
        millis > i64::MIN,
    ensures
        r.valid(),
        (r.secs, r.frac) == naive_time_add_millis(t.secs, t.frac, millis),
        t.frac < 1_000_000_000 ==> r.frac < 1_000_000_000 && r.secs * 1_000_000_000int + r.frac == (
        t.secs * 1_000_000_000int + t.frac + millis * 1_000_000int) % 86_400_000_000_000int,
{
    let nt = chrono::NaiveTime::from_num_seconds_from_midnight_opt(t.secs, t.frac).unwrap();
    let r = nt + chrono::TimeDelta::milliseconds(millis);
    TimeOfDay { secs: r.num_seconds_from_midnight(), frac: r.nanosecond() }
}

/// `std::time::Instant::now()`; nothing is known of the value.
#[verifier::external_body]
fn instant_now() -> std::time::Instant {
    std::time::Instant::now()
}

/// The time elapsed since `i`: `i.elapsed()`. It depends on the clock;
/// nothing is stated of it.
#[verifier::external_body]
fn elapsed_since(i: &std::time::Instant) -> std::time::Duration {
    i.elapsed()
}

/// The whole milliseconds of `d`: `d.as_millis()`. A `Duration` is opaque
/// here, so nothing is stated of the number.
#[verifier::external_body]
fn whole_millis(d: &std::time::Duration) -> u128 {
    d.as_millis()
}

/// The milliseconds in a day.
pub const DAY_MILLIS: i128 = 86_400_000;

/// A whole number of days, in milliseconds, larger than any offset the
/// clock holds: adding it makes the sum of the offsets positive without
/// changing the time of day it stands for.
pub const DAYS_BASE: i128 = 1_519_964_874_237_542_400_000;

/// The register value of an hour: the 12-hour clock hour in BCD, with bit 7
/// set after noon.
pub open spec fn spec_hour_register(t: TimeOfDay) -> u8 {
    (spec_dec_to_bcd(t.spec_hour12().1 as u8) + if t.spec_hour12().0 {
        128int
    } else {
        0
    }) as u8
}

/// The hour, in 0..=23, that the hour register `hour` sets: bit 7 adds twelve.
pub open spec fn spec_hour_from_register(hour: u8) -> int {
    spec_bcd_to_dec((hour % 128) as u8) + 12 * (hour / 128)
}

/// The time-of-day clock of the CIA 6526. It gives and takes values in BCD.
///
/// Reading the hour freezes what reads return until the tenths are read;
/// the clock goes on meanwhile. Setting the hour halts the clock until the
/// tenths are set. Its time is the local time shifted by the offsets that
/// the settings left, less the time it spent halted.
pub struct TOD {
    read_lock: bool,
    locked_val: TimeOfDay,
    write_lock: bool,
    hour_offset: i64,
    minute_offset: i64,
    second_offset: i64,
    millis_offset: i64,
    halt_offset: i64,
    last_halt: Option<std::time::Instant>,
}

/// What a clock holds, its moment of halting aside.
pub struct TODView {
    pub read_lock: bool,
    pub locked_val: TimeOfDay,
    pub write_lock: bool,
    pub hour_offset: i64,
    pub minute_offset: i64,
    pub second_offset: i64,
    pub millis_offset: i64,
    pub halt_offset: i64,
    pub halted_since_known: bool,
}

impl View for TOD {
    type V = TODView;

    closed spec fn view(&self) -> TODView {
        TODView {
            read_lock: self.read_lock,
            locked_val: self.locked_val,
            write_lock: self.write_lock,
            hour_offset: self.hour_offset,
            minute_offset: self.minute_offset,
            second_offset: self.second_offset,
            millis_offset: self.millis_offset,
            halt_offset: self.halt_offset,
            halted_since_known: self.last_halt is Some,
        }
    }
}

impl TODView {
    /// A halted clock knows since when; the offsets stay in chrono's range.
    pub open spec fn wf(self) -> bool {
        &&& self.write_lock == self.halted_since_known
        &&& self.locked_val.valid()
        &&& -1_000_000_000 <= self.hour_offset <= 1_000_000_000
        &&& -1_000_000_000 <= self.minute_offset <= 1_000_000_000
        &&& -1_000_000_000 <= self.second_offset <= 1_000_000_000
        &&& -1_000_000_000 <= self.millis_offset <= 1_000_000_000
        &&& 0 <= self.halt_offset
    }

    /// Reads return the frozen value.
    pub open spec fn is_locked(self) -> bool {
        self.read_lock || self.write_lock
    }

    /// The shift from the local time, in milliseconds, reduced to a day.
    pub open spec fn total_offset(self) -> i64 {
        ((self.hour_offset + self.minute_offset + self.second_offset + self.millis_offset
            - self.halt_offset + DAYS_BASE as int) % (DAY_MILLIS as int)) as i64
    }

    /// The clock's time when the local time is `now`.
    pub open spec fn shifted(self, now: TimeOfDay) -> TimeOfDay {
        let p = naive_time_add_millis(now.secs, now.frac, self.total_offset());
        TimeOfDay { secs: p.0, frac: p.1 }
    }

    /// A value that a read of the time can give: the frozen one if the
    /// clock is locked, else the shifted local time at some moment.
    pub open spec fn may_read(self, t: TimeOfDay) -> bool {
        if self.is_locked() {
            t == self.locked_val
        } else {
            exists|now: TimeOfDay| now.valid() && t == #[trigger] self.shifted(now)
        }
    }
}

impl TOD {
    /// A clock set to the local time, halted: it ticks once the tenths are set.
    pub fn new() -> (r: Self)
        ensures
            r@ == (TODView {
                read_lock: false,
                locked_val: r@.locked_val,
                write_lock: true,
                hour_offset: 0,
                minute_offset: 0,
                second_offset: 0,
                millis_offset: 0,
                halt_offset: 0,
                halted_since_known: true,
            }),
            r@.wf(),
    {
        TOD {
            read_lock: false,
            write_lock: true,
            locked_val: local_time(),
            hour_offset: 0,
            minute_offset: 0,
            second_offset: 0,
            millis_offset: 0,
            halt_offset: 0,
            last_halt: Some(instant_now()),
        }
    }

    fn local_now(&self) -> (r: TimeOfDay)
        requires
            self@.wf(),
        ensures
            r.valid(),
            exists|now: TimeOfDay| now.valid() && r == #[trigger] self@.shifted(now),
    {
        let now = local_time();
        let sum: i128 = self.hour_offset as i128 + self.minute_offset as i128
            + self.second_offset as i128 + self.millis_offset as i128 - self.halt_offset as i128
            + DAYS_BASE;
        let total: u128 = (sum as u128) % (DAY_MILLIS as u128);
        let r = time_add_millis(now, total as i64);
        assert(r == self@.shifted(now));
        r
    }

    fn is_locked(&self) -> (r: bool)
        ensures
            r == self@.is_locked(),
    {
        self.read_lock || self.write_lock
    }

    fn lock_read(&mut self)
        requires
            old(self)@.wf(),
        ensures
            final(self)@.wf(),
            final(self)@.is_locked(),
            old(self)@.is_locked() ==> final(self)@ == old(self)@,
            !old(self)@.is_locked() ==> final(self)@ == (TODView {
                read_lock: true,
                locked_val: final(self)@.locked_val,
                ..old(self)@
            }) && old(self)@.may_read(final(self)@.locked_val),
    {
        if !self.is_locked() {
            let v = self.local_now();
            self.read_lock = true;
            self.locked_val = v;
        }
    }

    fn lock_write(&mut self)
        requires
            old(self)@.wf(),
        ensures
            final(self)@ == (TODView {
                write_lock: true,
                halted_since_known: true,
                ..old(self)@
            }),
    {
        if !self.write_lock {
            self.write_lock = true;
            self.last_halt = Some(instant_now());
        }
    }

    fn unlock_read(&mut self)
        ensures
            final(self)@ == (TODView { read_lock: false, ..old(self)@ }),
    {
        self.read_lock = false;
    }

    /// Lets the clock tick again and adds the time it spent halted to the
    /// halt offset (which stays at `i64::MAX` milliseconds at most).
    fn unlock_write(&mut self)
        requires
            old(self)@.wf(),
            old(self)@.write_lock,
        ensures
            final(self)@.wf(),
            final(self)@ == (TODView {
                write_lock: false,
                halted_since_known: false,
                halt_offset: final(self)@.halt_offset,
                ..old(self)@
            }),
            final(self)@.halt_offset >= old(self)@.halt_offset,
    {
        self.write_lock = false;
        let elapsed: u128 = match &self.last_halt {
            Some(i) => whole_millis(&elapsed_since(i)),
            None => 0,
        };
        let room: u128 = (i64::MAX - self.halt_offset) as u128;
        if elapsed <= room {
            self.halt_offset = self.halt_offset + elapsed as i64;
        } else {
            self.halt_offset = i64::MAX;
        }
        self.last_halt = None;
    }

    fn time(&self) -> (r: TimeOfDay)
        requires
            self@.wf(),
        ensures
            r.valid(),
            self@.may_read(r),
    {
        if self.is_locked() {
            self.locked_val
        } else {
            self.local_now()
        }
    }

    /// The hour in BCD on a 12-hour clock, bit 7 set after noon. Reading it
    /// freezes the values that reads return until the tenths are read.
    pub fn hour(&mut self) -> (r: u8)
        requires
            old(self)@.wf(),
        ensures
            final(self)@.wf(),
            final(self)@.is_locked(),
            old(self)@.is_locked() ==> final(self)@ == old(self)@,
            !old(self)@.is_locked() ==> final(self)@ == (TODView {
                read_lock: true,
                locked_val: final(self)@.locked_val,
                ..old(self)@
            }),
            old(self)@.may_read(final(self)@.locked_val),
            r == spec_hour_register(final(self)@.locked_val),
    {
        self.lock_read();
        let t = self.time();
        let (pm, hour) = t.hour12();
        let pm_flag: u8 = if pm {
            128
        } else {
            0
        };
        let bcd = dec_to_bcd(hour as u8);
        assert(bcd | pm_flag == bcd + pm_flag) by (bit_vector)
            requires
                bcd == spec_dec_to_bcd(hour as u8),
                1 <= hour <= 12,
                pm_flag == 0 || pm_flag == 128,
        ;
        bcd | pm_flag
    }

    /// The minute in BCD.
    pub fn minute(&self) -> (r: u8)
        requires
            self@.wf(),
        ensures
            exists|t: TimeOfDay|
                t.valid() && self@.may_read(t) && r == spec_dec_to_bcd(#[trigger] t.spec_minute() as u8),
    {
        let t = self.time();
        dec_to_bcd(t.minute() as u8)
    }

    /// The second in BCD.
    pub fn second(&self) -> (r: u8)
        requires
            self@.wf(),
        ensures
            exists|t: TimeOfDay|
                t.valid() && self@.may_read(t) && r == spec_dec_to_bcd(#[trigger] t.spec_second() as u8),
    {
        let t = self.time();
        dec_to_bcd(t.second() as u8)
    }

    /// The tenth of the second in BCD. Reading it ends the freeze that
    /// reading the hour began.
    pub fn tenth(&mut self) -> (r: u8)
        requires
            old(self)@.wf(),
        ensures
            final(self)@ == (TODView { read_lock: false, ..old(self)@ }),
            exists|t: TimeOfDay|
                t.valid() && old(self)@.may_read(t) && r == spec_dec_to_bcd(#[trigger] t.spec_tenth() as u8),
    {
        let t = self.time();
        let tenth = (t.nanosecond() / 100_000_000) % 10;
        self.unlock_read();
        let r = dec_to_bcd(tenth as u8);
        assert(r == spec_dec_to_bcd(t.spec_tenth() as u8));
        r
    }

    /// Sets the hour from its register value (BCD, bit 7 for after noon)
    /// and halts the clock until the tenths are set.
    pub fn set_hour(&mut self, hour: u8)
        requires
            old(self)@.wf(),
        ensures
            final(self)@.wf(),
            exists|now: TimeOfDay|
                now.valid() && final(self)@.hour_offset == 3_600_000 * (spec_hour_from_register(hour)
                    - #[trigger] now.spec_hour()),
            final(self)@ == (TODView {
                hour_offset: final(self)@.hour_offset,
                write_lock: true,
                halted_since_known: true,
                ..old(self)@
            }),
    {
        let hour_dec: i64 = bcd_to_dec(hour & 0b01111111) as i64 + 12 * (hour >> 7u8) as i64;
        assert((hour & 0x7f) == hour % 128 && hour >> 7u8 == hour / 128) by (bit_vector);
        let now = local_time();
        self.hour_offset = 3_600_000 * (hour_dec - now.hour() as i64);
        self.lock_write();
    }

    /// Sets the minute from its BCD register value.
    pub fn set_minute(&mut self, minute: u8)
        requires
            old(self)@.wf(),
        ensures
            final(self)@.wf(),
            exists|now: TimeOfDay|
                now.valid() && final(self)@.minute_offset == 60_000 * (spec_bcd_to_dec(minute)
                    - #[trigger] now.spec_minute()),
            final(self)@ == (TODView { minute_offset: final(self)@.minute_offset, ..old(self)@ }),
    {
        let now = local_time();
        self.minute_offset = 60_000 * (bcd_to_dec(minute) as i64 - now.minute() as i64);
    }

    /// Sets the second from its BCD register value.
    pub fn set_second(&mut self, second: u8)
        requires
            old(self)@.wf(),
        ensures
            final(self)@.wf(),
            exists|now: TimeOfDay|
                now.valid() && final(self)@.second_offset == 1_000 * (spec_bcd_to_dec(second)
                    - #[trigger] now.spec_second()),
            final(self)@ == (TODView { second_offset: final(self)@.second_offset, ..old(self)@ }),
    {
        let now = local_time();
        self.second_offset = 1_000 * (bcd_to_dec(second) as i64 - now.second() as i64);
    }

    /// Sets the tenths (ten milliseconds per unit of `val`) and lets a
    /// halted clock tick again.
    pub fn set_tenth(&mut self, val: u8)
        requires
            old(self)@.wf(),
            old(self)@.write_lock,
        ensures
            final(self)@.wf(),
            final(self)@ == (TODView {
                millis_offset: (val * 10) as i64,
                write_lock: false,
                halted_since_known: false,
                halt_offset: final(self)@.halt_offset,
                ..old(self)@
            }),
            final(self)@.halt_offset >= old(self)@.halt_offset,
    {
        self.millis_offset = val as i64 * 10;
        self.unlock_write();
    }
}

} // verus!
