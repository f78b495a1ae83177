use vstd::prelude::*;
use crate::emulator::abstractions::Addr;

pub mod cia_6526;
pub mod tod;

use tod::{local_time, TimeOfDay};

verus! {

/// bcd-numbers' `BCD::<1>::new(value).get_number()`: `new` encodes the
/// number in BCD (at most 32 digits) and keeps its last byte, the last two
/// digits; `get_number` decodes them.
#[verifier::external_body]
fn bcd1_number(value: u128) -> (r: u128)
    requires
        value < 100_000_000_000_000_000_000_000_000_000_000,
    ensures
        r == value % 100,
{
    bcd_numbers::BCD::<1>::new(value).get_number()
}

/// bcd-numbers' `BCD::<2>::new(value).get_number()`: as above, keeping the
/// last two bytes, the last four digits.
#[verifier::external_body]
fn bcd2_number(value: u128) -> (r: u128)
    requires
        value < 100_000_000_000_000_000_000_000_000_000_000,
    ensures
        r == value % 10_000,
{
    bcd_numbers::BCD::<2>::new(value).get_number()
}

/// The value that a clock register reads at the local time `t`: the number
/// that the BCD round trip gives back (so the plain decimal value), with
/// bit 7 of the hours set after noon.
pub open spec fn spec_clock_register(addr: Addr, t: TimeOfDay) -> u8 {
    if addr == 0x08 {
        t.spec_tenth() as u8
    } else if addr == 0x09 {
        t.spec_second() as u8
    } else if addr == 0x0a {
        t.spec_minute() as u8
    } else {
        (t.spec_hour12().1 + if t.spec_hour12().0 {
            128int
        } else {
            0
        }) as u8
    }
}

/// The value of the clock register `addr` ($08-$0b) at the time of day `t`:
/// each field goes through its BCD round trip, and the hours carry bit 7
/// after noon.
pub fn clock_register(addr: Addr, t: TimeOfDay) -> (r: u8)
    requires
        t.valid(),
        0x08 <= addr <= 0x0b,
    ensures
        r == spec_clock_register(addr, t),
{
    if addr == 0x08 {
        bcd1_number(((t.nanosecond() / 100_000_000) % 10) as u128) as u8
    } else if addr == 0x09 {
        bcd1_number(t.second() as u128) as u8
    } else if addr == 0x0a {
        bcd1_number(t.minute() as u128) as u8
    } else {
        let (pm, hour) = t.hour12();
        let pm_flag: u8 = if pm {
            128
        } else {
            0
        };
        let bcd = bcd2_number(hour as u128) as u8;
        assert(bcd | pm_flag == bcd + pm_flag) by (bit_vector)
            requires
                1 <= bcd <= 12,
                pm_flag == 0 || pm_flag == 128,
        ;
        bcd | pm_flag
    }
}

/// The byte of a timer register: the low or high byte of timer A or B.
pub open spec fn timer_register(addr: Addr, timer_a: u16, timer_b: u16) -> u8 {
    if addr == 0x04 {
        (timer_a % 256) as u8
    } else if addr == 0x05 {
        (timer_a / 256) as u8
    } else if addr == 0x06 {
        (timer_b % 256) as u8
    } else {
        (timer_b / 256) as u8
    }
}

/// The CIA 6526 with a real-time clock read straight from the local time:
/// registers $08-$0b give the tenths, seconds, minutes and hours of the
/// host's clock; $04-$07 the two timers; the others are plain memory.
#[allow(non_camel_case_types)]
pub trait CIA_6526: Sized {
    spec fn spec_mem(&self) -> Seq<u8>;

    spec fn spec_timer_a(&self) -> u16;

    spec fn spec_timer_b(&self) -> u16;

    fn mem(&self) -> (r: &[u8])
        ensures
            r@ == self.spec_mem(),
    ;

    fn mem_mut(&mut self) -> (r: &mut [u8])
        ensures
            (*r)@ == old(self).spec_mem(),
            final(self).spec_mem() == final(r)@,
    ;

    fn timer_a(&self) -> (r: u16)
        ensures
            r == self.spec_timer_a(),
    ;

    fn timer_b(&self) -> (r: u16)
        ensures
            r == self.spec_timer_b(),
    ;

    /// `self` is what one tick made of `before`.
    spec fn ticked(&self, before: &Self) -> bool;

    fn tick(&mut self)
        ensures
            final(self).ticked(old(self)),
    ;

    /// Ticks `times` times: there is a chain of that many ticks from the old
    /// value to the new one.
    fn tick_times(&mut self, times: u8)
        ensures
            exists|chain: Seq<Self>|
                #![trigger chain.len()]
                chain.len() == times + 1 && chain[0] == *old(self) && chain[times as int]
                    == *final(self) && forall|i: int, j: int|
                    0 <= i < times && j == i + 1 ==> #[trigger] chain[j].ticked(&chain[i]),
    {
        let mut i: u8 = 0;
        let ghost mut chain: Seq<Self> = seq![*self];
        while i < times
            invariant
                i <= times,
                chain.len() == i + 1,
                chain[0] == *old(self),
                chain[i as int] == *self,
                forall|a: int, b: int|
                    0 <= a < i && b == a + 1 ==> #[trigger] chain[b].ticked(&chain[a]),
            decreases times - i,
        {
            self.tick();
            proof {
                chain = chain.push(*self);
            }
            i = i + 1;
        }
        assert(chain.len() == times + 1);
    }

    /// Reads a register.
    fn read_byte(&self, addr: Addr) -> (r: u8)
        requires
            !(0x04 <= addr <= 0x0b) ==> (addr as int) < self.spec_mem().len(),
        ensures
            0x08 <= addr <= 0x0b ==> exists|t: TimeOfDay|
                t.valid() && t.frac < 1_000_000_000 && r == #[trigger] spec_clock_register(addr, t),
            0x04 <= addr <= 0x07 ==> r == timer_register(
                addr,
                self.spec_timer_a(),
                self.spec_timer_b(),
            ),
            !(0x04 <= addr <= 0x0b) ==> r == self.spec_mem()[addr as int],
    {
        if 0x08 <= addr && addr <= 0x0b {
            clock_register(addr, local_time())
        } else if 0x04 <= addr && addr <= 0x07 {
            if addr == 0x04 {
                (self.timer_a() % 256) as u8
            } else if addr == 0x05 {
                (self.timer_a() / 256) as u8
            } else if addr == 0x06 {
                (self.timer_b() % 256) as u8
            } else {
                (self.timer_b() / 256) as u8
            }
        } else {
            self.mem()[addr as usize]
        }
    }

    /// Writes a register: every register is stored as plain memory.
    fn write_byte(&mut self, addr: Addr, val: u8)
        requires
            (addr as int) < old(self).spec_mem().len(),
        ensures
            final(self).spec_mem() == old(self).spec_mem().update(addr as int, val),
    {
        let m = self.mem_mut();
        m[addr as usize] = val;
    }

    /// The four address lines of the chip.
    fn address_width(&self) -> (r: u16)
        ensures
            r == 4,
    {
        4
    }
}

} // verus!
