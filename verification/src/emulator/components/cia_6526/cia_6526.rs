use vstd::prelude::*;
use super::tod::{spec_hour_register, TimeOfDay, TODView, TOD};
use crate::emulator::abstractions::{Addr, Addressable, Tickable};
use crate::utils::spec_dec_to_bcd;

verus! {

/// The registers of the time-of-day clock: tenths, seconds, minutes, hours.
pub open spec fn is_tod_register(addr: Addr) -> bool {
    0x08 <= addr <= 0x0b
}

/// The registers of the two timers, low byte first.
pub open spec fn is_timer_register(addr: Addr) -> bool {
    0x04 <= addr <= 0x07
}

/// The byte of a timer register: the low or high byte of timer A or B.
pub open spec fn spec_timer_byte(addr: Addr, timer_a: u16, timer_b: u16) -> u8 {
    if addr == 0x04 {
        (timer_a % 256) as u8
    } else if addr == 0x05 {
        (timer_a / 256) as u8
    } else if addr == 0x06 {
        (timer_b % 256) as u8
    } else {
        (timer_b / 256) as u8
    }
}

/// The CIA 6526 complex interface adapter, as far as it is emulated: ports
/// and flags in plain registers, the two timers read through `timer_a` and
/// `timer_b`, and the time-of-day clock in registers $08-$0b.
#[allow(non_camel_case_types)]
pub trait CIA_6526: Addressable + Tickable {
    spec fn spec_mem(&self) -> Seq<u8>;

    spec fn spec_tod(&self) -> TODView;

    spec fn spec_timer_a(&self) -> u16;

    spec fn spec_timer_b(&self) -> u16;

    fn mem(&self) -> (r: &[u8])
        ensures
            r@ == self.spec_mem(),
    ;

    fn mem_mut(&mut self) -> (r: &mut [u8])
        ensures
            (*r)@ == old(self).spec_mem(),
            final(self).spec_mem() == final(r)@,
            final(self).spec_tod() == old(self).spec_tod(),
    ;

    fn timer_a(&self) -> (r: u16)
        ensures
            r == self.spec_timer_a(),
    ;

    fn timer_b(&self) -> (r: u16)
        ensures
            r == self.spec_timer_b(),
    ;

    fn tod(&self) -> (r: &TOD)
        ensures
            r@ == self.spec_tod(),
    ;

    fn tod_mut(&mut self) -> (r: &mut TOD)
        ensures
            (*r)@ == old(self).spec_tod(),
            final(self).spec_tod() == final(r)@,
            final(self).spec_mem() == old(self).spec_mem(),
    ;

    /// Reads a register. The clock registers give BCD values; reading the
    /// hours freezes the clock reads until the tenths are read.
    fn read_byte(&mut self, addr: Addr) -> (r: u8)
        requires
            old(self).spec_tod().wf(),
            !is_tod_register(addr) && !is_timer_register(addr) ==> (addr as int) < old(self).spec_mem().len(),
        ensures
            final(self).spec_mem() == old(self).spec_mem(),
            final(self).spec_tod().wf(),
            addr == 0x0b ==> r == spec_hour_register(final(self).spec_tod().locked_val)
                && final(self).spec_tod().is_locked(),
            addr == 0x08 ==> final(self).spec_tod() == (TODView {
                read_lock: false,
                ..old(self).spec_tod()
            }) && exists|t: TimeOfDay|
                t.valid() && old(self).spec_tod().may_read(t) && r == spec_dec_to_bcd(
                    #[trigger] t.spec_tenth() as u8,
                ),
            addr == 0x09 ==> exists|t: TimeOfDay|
                t.valid() && old(self).spec_tod().may_read(t) && r == spec_dec_to_bcd(
                    #[trigger] t.spec_second() as u8,
                ),
            addr == 0x0a ==> exists|t: TimeOfDay|
                t.valid() && old(self).spec_tod().may_read(t) && r == spec_dec_to_bcd(
                    #[trigger] t.spec_minute() as u8,
                ),
            addr != 0x08 && addr != 0x0b ==> final(self).spec_tod() == old(self).spec_tod(),
            is_timer_register(addr) ==> r == spec_timer_byte(
                addr,
                old(self).spec_timer_a(),
                old(self).spec_timer_b(),
            ),
            !is_tod_register(addr) && !is_timer_register(addr) ==> r == old(self).spec_mem()[addr as int],
    {
        if 0x08 <= addr && addr <= 0x0b {
            if addr == 0x08 {
                self.tod_mut().tenth()
            } else if addr == 0x09 {
                self.tod().second()
            } else if addr == 0x0a {
                self.tod().minute()
            } else {
                self.tod_mut().hour()
            }
        } else if 0x04 <= addr && addr <= 0x07 {
            if addr == 0x04 {
                (self.timer_a() % 256) as u8
            } else if addr == 0x05 {
                (self.timer_a() / 256) as u8
            } else if addr == 0x06 {
                (self.timer_b() % 256) as u8
            } else {
                (self.timer_b() / 256) as u8
            }
        } else {
            self.mem()[addr as usize]
        }
    }

    /// Writes a register. The clock registers take BCD values: setting the
    /// hours halts the clock, setting the tenths lets it tick again.
    fn write_byte(&mut self, addr: Addr, val: u8)
        requires
            old(self).spec_tod().wf(),
            addr == 0x08 ==> old(self).spec_tod().write_lock,
            !is_tod_register(addr) ==> (addr as int) < old(self).spec_mem().len(),
        ensures
            final(self).spec_tod().wf(),
            is_tod_register(addr) ==> final(self).spec_mem() == old(self).spec_mem(),
            !is_tod_register(addr) ==> final(self).spec_mem() == old(self).spec_mem().update(
                addr as int,
                val,
            ) && final(self).spec_tod() == old(self).spec_tod(),
            addr == 0x0b ==> final(self).spec_tod().write_lock,
            addr == 0x08 ==> !final(self).spec_tod().write_lock && final(self).spec_tod().millis_offset == val * 10,
    {
        if 0x08 <= addr && addr <= 0x0b {
            if addr == 0x08 {
                self.tod_mut().set_tenth(val);
            } else if addr == 0x09 {
                self.tod_mut().set_second(val);
            } else if addr == 0x0a {
                self.tod_mut().set_minute(val);
            } else {
                self.tod_mut().set_hour(val);
            }
        } else {
            let m = self.mem_mut();
            m[addr as usize] = val;
        }
    }

    /// The four address lines of the chip.
    fn address_width(&self) -> u16
        returns
            4u16,
    {
        4
    }
}

} // verus!
