use vstd::prelude::*;
use crate::emulator::abstractions::{Addr, AddressResolver, Addressable, RAM};

verus! {

// The C64 bank switching table: for each of the 32 modes (the three low
// bits of the processor port at $0001, then the cartridge lines as bits 3
// and 4), the device that serves each of the seven address ranges
//   $0000-$0fff, $1000-$7fff, $8000-$9fff, $a000-$bfff,
//   $c000-$cfff, $d000-$dfff, $e000-$ffff.
// Devices: 0 RAM, 1 cartridge ROM (lo), 2 BASIC ROM, 3 cartridge ROM (hi),
// 4 I/O, 5 character ROM, 6 KERNAL ROM, 7 nothing.

/// The slot of the RAM.
pub const DEV_RAM: u8 = 0;
/// The slot of the low cartridge ROM.
pub const DEV_CARTRIDGE: u8 = 1;
/// The slot of the BASIC ROM.
pub const DEV_BASIC: u8 = 2;
/// The slot of the high cartridge ROM.
pub const DEV_CARTRIDGE_HI: u8 = 3;
/// The slot of the I/O chips.
pub const DEV_IO: u8 = 4;
/// The slot of the character ROM.
pub const DEV_CHARGEN: u8 = 5;
/// The slot of the KERNAL ROM.
pub const DEV_KERNAL: u8 = 6;
/// No device serves the range.
pub const DEV_NONE: u8 = 7;

/// The row of the bank switching table for `mode`.
pub open spec fn bank_row(mode: u8) -> Seq<u8> {
    if mode == 2 || mode == 10 || mode == 26 {
        if mode == 2 {
            seq![0u8, 0, 0, 3, 0, 5, 6]
        } else {
            seq![0u8, 0, 0, 0, 0, 5, 6]
        }
    } else if mode == 3 {
        seq![0u8, 0, 1, 3, 0, 5, 6]
    } else if mode == 5 || mode == 13 || mode == 29 {
        seq![0u8, 0, 0, 0, 0, 4, 0]
    } else if mode == 6 {
        seq![0u8, 0, 0, 3, 0, 4, 6]
    } else if mode == 7 {
        seq![0u8, 0, 1, 3, 0, 4, 6]
    } else if mode == 9 || mode == 25 {
        seq![0u8, 0, 0, 0, 0, 5, 0]
    } else if mode == 11 {
        seq![0u8, 0, 1, 2, 0, 5, 6]
    } else if mode == 14 || mode == 30 {
        seq![0u8, 0, 0, 0, 0, 4, 6]
    } else if mode == 15 {
        seq![0u8, 0, 1, 2, 0, 4, 6]
    } else if 16 <= mode <= 23 {
        seq![0u8, 7, 1, 7, 7, 4, 3]
    } else if mode == 27 {
        seq![0u8, 0, 0, 2, 0, 5, 6]
    } else if mode == 31 {
        seq![0u8, 0, 0, 2, 0, 4, 6]
    } else {
        seq![0u8, 0, 0, 0, 0, 0, 0]
    }
}

/// The column of the bank switching table that holds `addr`.
pub open spec fn bank_column(addr: Addr) -> int {
    if addr <= 0x0fff {
        0
    } else if addr <= 0x7fff {
        1
    } else if addr <= 0x9fff {
        2
    } else if addr <= 0xbfff {
        3
    } else if addr <= 0xcfff {
        4
    } else if addr <= 0xdfff {
        5
    } else {
        6
    }
}

/// The mode from the processor port byte and the two cartridge lines, which
/// are high when no cartridge is plugged in.
pub open spec fn spec_mode(port: u8, pin8: bool, pin9: bool) -> u8 {
    ((port % 8) + (if pin8 {
        8int
    } else {
        0
    }) + (if pin9 {
        16int
    } else {
        0
    })) as u8
}

fn bank_entry(mode: u8, column: usize) -> (r: u8)
    requires
        mode < 32,
        column < 7,
    ensures
        r == bank_row(mode)[column as int],
        r <= 7,
{
    let row: [u8; 7] = if mode == 2 {
        [0, 0, 0, 3, 0, 5, 6]
    } else if mode == 10 || mode == 26 {
        [0, 0, 0, 0, 0, 5, 6]
    } else if mode == 3 {
        [0, 0, 1, 3, 0, 5, 6]
    } else if mode == 5 || mode == 13 || mode == 29 {
        [0, 0, 0, 0, 0, 4, 0]
    } else if mode == 6 {
        [0, 0, 0, 3, 0, 4, 6]
    } else if mode == 7 {
        [0, 0, 1, 3, 0, 4, 6]
    } else if mode == 9 || mode == 25 {
        [0, 0, 0, 0, 0, 5, 0]
    } else if mode == 11 {
        [0, 0, 1, 2, 0, 5, 6]
    } else if mode == 14 || mode == 30 {
        [0, 0, 0, 0, 0, 4, 6]
    } else if mode == 15 {
        [0, 0, 1, 2, 0, 4, 6]
    } else if 16 <= mode && mode <= 23 {
        [0, 7, 1, 7, 7, 4, 3]
    } else if mode == 27 {
        [0, 0, 0, 2, 0, 5, 6]
    } else if mode == 31 {
        [0, 0, 0, 2, 0, 4, 6]
    } else {
        [0, 0, 0, 0, 0, 0, 0]
    };
    assert(row@ =~= bank_row(mode));
    row[column]
}

fn column_of(addr: Addr) -> (r: usize)
    ensures
        r == bank_column(addr),
{
    if addr <= 0x0fff {
        0
    } else if addr <= 0x7fff {
        1
    } else if addr <= 0x9fff {
        2
    } else if addr <= 0xbfff {
        3
    } else if addr <= 0xcfff {
        4
    } else if addr <= 0xdfff {
        5
    } else {
        6
    }
}

/// The C64 programmable logic array: it routes each address to the device
/// that the current banking mode selects. The mode is read from the byte at
/// $0001 of the RAM and from which cartridge ROMs are present.
///
/// Reads of a range whose device is missing fall back to the RAM, and read
/// 0 where there is no RAM either. Writes always go to the RAM, except in
/// the I/O window, where they go to the I/O device. Only the CIA window
/// $dc00-$dcff of the I/O range is routed to the I/O device; the rest of it
/// is served by the RAM.
pub struct PLA_82S100<D: Addressable> {
    devices: Vec<Option<D>>,
}

impl<D: Addressable> PLA_82S100<D> {
    /// The seven device slots.
    pub closed spec fn slots(&self) -> Seq<Option<D>> {
        self.devices@
    }

    /// The seven slots are there.
    pub open spec fn wf(&self) -> bool {
        self.slots().len() == 7
    }

    /// The device in slot `id`.
    pub open spec fn slot(&self, id: u8) -> Option<D> {
        self.slots()[id as int]
    }

    /// The banking mode; with no RAM it is not read.
    pub open spec fn spec_current_mode(&self) -> u8 {
        spec_mode(
            self.slot(DEV_RAM)->0.spec_read(1),
            self.slot(DEV_CARTRIDGE) is None,
            self.slot(DEV_CARTRIDGE_HI) is None,
        )
    }

    /// The mode can be read: there is no RAM, or the RAM can be read at $0001.
    pub open spec fn mode_readable(&self) -> bool {
        self.slot(DEV_RAM) is Some ==> self.slot(DEV_RAM)->0.read_ok(1)
    }

    /// The slot that the bank switching table gives for `addr`.
    pub open spec fn spec_device_id(&self, addr: Addr) -> u8 {
        if self.slot(DEV_RAM) is None {
            DEV_RAM
        } else {
            let id = bank_row(self.spec_current_mode())[bank_column(addr)];
            if id == DEV_IO && (addr < 0xdc00 || addr > 0xdcff) {
                DEV_RAM
            } else {
                id
            }
        }
    }

    /// The slot that a read of `addr` goes to: the selected one if it holds a
    /// device, else the RAM's.
    pub open spec fn read_slot(&self, addr: Addr) -> u8 {
        let id = self.spec_device_id(addr);
        if self.slot(id) is Some {
            id
        } else {
            DEV_RAM
        }
    }

    /// The slot that a write of `addr` goes to: the I/O device in its window,
    /// else the RAM.
    pub open spec fn write_slot(&self, addr: Addr) -> u8 {
        if self.spec_device_id(addr) == DEV_IO {
            DEV_IO
        } else {
            DEV_RAM
        }
    }

    /// The address that the device in slot `id` sees for `addr`: the ROMs
    /// are addressed from the start of their range.
    pub open spec fn spec_internal_addr(addr: Addr, id: u8) -> Addr {
        if id == DEV_BASIC {
            (addr - 0xa000) as Addr
        } else if id == DEV_CHARGEN {
            (addr - 0xd000) as Addr
        } else if id == DEV_KERNAL {
            (addr - 0xe000) as Addr
        } else {
            addr
        }
    }

    /// An empty array: no device is linked.
    pub fn new() -> (r: Self)
        ensures
            r.wf(),
            forall|i: int| 0 <= i < 7 ==> #[trigger] r.slots()[i] is None,
    {
        let mut devices: Vec<Option<D>> = Vec::new();
        let mut i: usize = 0;
        while i < 7
            invariant
                i <= 7,
                devices@.len() == i,
                forall|k: int| 0 <= k < i ==> #[trigger] devices@[k] is None,
            decreases 7 - i,
        {
            devices.push(None);
            i = i + 1;
        }
        PLA_82S100 { devices }
    }

    /// Puts `dev` in slot `id`, in place of what was there.
    pub(crate) fn link_dev(&mut self, id: usize, dev: D) -> (r: &mut Self)
        requires
            old(self).wf(),
            id < 7,
        ensures
            (*r).slots() == old(self).slots().update(id as int, Some(dev)),
            *final(self) == *final(r),
    {
        self.devices.set(id, Some(dev));
        self
    }

    /// Links the RAM.
    pub fn link_ram(&mut self, dev: D) -> (r: &mut Self)
        requires
            old(self).wf(),
        ensures
            (*r).slots() == old(self).slots().update(DEV_RAM as int, Some(dev)),
            *final(self) == *final(r),
    {
        self.link_dev(0, dev)
    }

    /// Links the BASIC ROM.
    pub fn link_basic(&mut self, dev: D) -> (r: &mut Self)
        requires
            old(self).wf(),
        ensures
            (*r).slots() == old(self).slots().update(DEV_BASIC as int, Some(dev)),
            *final(self) == *final(r),
    {
        self.link_dev(2, dev)
    }

    /// Links the KERNAL ROM.
    pub fn link_kernal(&mut self, dev: D) -> (r: &mut Self)
        requires
            old(self).wf(),
        ensures
            (*r).slots() == old(self).slots().update(DEV_KERNAL as int, Some(dev)),
            *final(self) == *final(r),
    {
        self.link_dev(6, dev)
    }

    /// Links the character ROM.
    pub fn link_chargen(&mut self, dev: D) -> (r: &mut Self)
        requires
            old(self).wf(),
        ensures
            (*r).slots() == old(self).slots().update(DEV_CHARGEN as int, Some(dev)),
            *final(self) == *final(r),
    {
        self.link_dev(5, dev)
    }

    /// Links the (low) cartridge ROM.
    pub fn link_cartridge(&mut self, dev: D) -> (r: &mut Self)
        requires
            old(self).wf(),
        ensures
            (*r).slots() == old(self).slots().update(DEV_CARTRIDGE as int, Some(dev)),
            *final(self) == *final(r),
    {
        self.link_dev(1, dev)
    }

    /// Links the I/O device.
    pub fn link_io(&mut self, dev: D) -> (r: &mut Self)
        requires
            old(self).wf(),
        ensures
            (*r).slots() == old(self).slots().update(DEV_IO as int, Some(dev)),
            *final(self) == *final(r),
    {
        self.link_dev(4, dev)
    }

    /// Sets the banking mode: writes `mode` to the processor port at $0001.
    pub(crate) fn set_mode(&mut self, mode: u8)
        requires
            old(self).write_ok(1),
        ensures
            final(self).spec_wrote(old(self), 1, mode),
    {
        self.write_byte(1, mode);
    }

    fn has_device(&self, dev_id: usize) -> (r: bool)
        requires
            self.wf(),
            dev_id < 7,
        ensures
            r == self.slots()[dev_id as int] is Some,
    {
        self.devices[dev_id].is_some()
    }

    fn get_device_id(&self, addr: Addr) -> (r: u8)
        requires
            self.wf(),
            self.mode_readable(),
        ensures
            r == self.spec_device_id(addr),
            r <= 7,
    {
        let pin8 = !self.has_device(1);
        let pin9 = !self.has_device(3);
        let port: u8 = match &self.devices[0] {
            Some(ram) => ram.read_byte(0x0001),
            None => {
                return 0;
            },
        };
        let flag: u8 = (port & 0b111) | ((pin8 as u8) << 3u8) | ((pin9 as u8) << 4u8);
        assert(flag == spec_mode(port, pin8, pin9) && flag < 32) by {
            let p8: u8 = if pin8 { 1 } else { 0 };
            let p9: u8 = if pin9 { 1 } else { 0 };
            assert(p8 <= 1 && p9 <= 1 ==> (port & 7) | (p8 << 3u8) | (p9 << 4u8) == (port % 8)
                + 8 * p8 + 16 * p9) by (bit_vector);
        }
        let dev_id = bank_entry(flag, column_of(addr));
        if dev_id == 4 && (addr < 0xdc00 || addr > 0xdcff) {
            return 0;
        }
        dev_id
    }

    fn internal_addr(addr: Addr, id: u8) -> (r: Addr)
        requires
            id == DEV_BASIC ==> addr >= 0xa000,
            id == DEV_CHARGEN ==> addr >= 0xd000,
            id == DEV_KERNAL ==> addr >= 0xe000,
        ensures
            r == Self::spec_internal_addr(addr, id),
    {
        if id == 2 {
            addr - 0xa000
        } else if id == 5 {
            addr - 0xd000
        } else if id == 6 {
            addr - 0xe000
        } else {
            addr
        }
    }
}

/// The table names a device in 0..=7; the BASIC ROM only in $a000-$bfff,
/// the character ROM only in $d000-$dfff and the KERNAL only in $e000-$ffff.
pub proof fn lemma_bank_table(mode: u8, column: int)
    requires
        mode < 32,
        0 <= column < 7,
    ensures
        bank_row(mode).len() == 7,
        bank_row(mode)[column] <= 7,
        bank_row(mode)[column] == DEV_BASIC ==> column == 3,
        bank_row(mode)[column] == DEV_CHARGEN ==> column == 5,
        bank_row(mode)[column] == DEV_KERNAL ==> column == 6,
        bank_row(mode)[0] == DEV_RAM,
{
}

/// The C64 memory map without a cartridge. Of the processor port byte at
/// $0001, the low three bits are LORAM (bit 0), HIRAM (bit 1) and CHAREN
/// (bit 2). $e000-$ffff is the KERNAL ROM while HIRAM is set, RAM otherwise;
/// $a000-$bfff is the BASIC ROM while LORAM and HIRAM are both set, RAM
/// otherwise; $d000-$dfff is RAM while LORAM and HIRAM are both clear, else
/// I/O (its CIA window, RAM elsewhere) while CHAREN is set, else the
/// character ROM; every other address is RAM.
pub proof fn lemma_c64_memory_map<D: Addressable>(pla: &PLA_82S100<D>, addr: Addr)
    requires
        pla.wf(),
        pla.slot(DEV_RAM) is Some,
        pla.slot(DEV_CARTRIDGE) is None,
        pla.slot(DEV_CARTRIDGE_HI) is None,
    ensures
        ({
            let bits = pla.slot(DEV_RAM)->0.spec_read(1) % 8;
            let loram = bits % 2 == 1;
            let hiram = bits % 4 >= 2;
            let charen = bits >= 4;
            let id = pla.spec_device_id(addr);
            &&& addr >= 0xe000 ==> id == if hiram {
                DEV_KERNAL
            } else {
                DEV_RAM
            }
            &&& 0xa000 <= addr <= 0xbfff ==> id == if loram && hiram {
                DEV_BASIC
            } else {
                DEV_RAM
            }
            &&& 0xd000 <= addr <= 0xdfff ==> id == if !loram && !hiram {
                DEV_RAM
            } else if charen {
                if 0xdc00 <= addr <= 0xdcff {
                    DEV_IO
                } else {
                    DEV_RAM
                }
            } else {
                DEV_CHARGEN
            }
            &&& (addr < 0xa000 || 0xc000 <= addr <= 0xcfff) ==> id == DEV_RAM
        }),
{
    let bits = pla.slot(DEV_RAM)->0.spec_read(1) % 8;
    assert(pla.spec_current_mode() == bits + 24);
}

/// Without a cartridge and with HIRAM set, a read of $e000-$ffff gives the
/// byte of the KERNAL ROM, addressed from the start of the range.
pub proof fn lemma_kernal_read<D: Addressable>(pla: &PLA_82S100<D>, addr: Addr)
    requires
        pla.wf(),
        pla.slot(DEV_RAM) is Some,
        pla.slot(DEV_CARTRIDGE) is None,
        pla.slot(DEV_CARTRIDGE_HI) is None,
        pla.slot(DEV_KERNAL) is Some,
        (pla.slot(DEV_RAM)->0.spec_read(1) % 8) % 4 >= 2,
        addr >= 0xe000,
    ensures
        pla.spec_read(addr) == pla.slot(DEV_KERNAL)->0.spec_read((addr - 0xe000) as Addr),
{
    lemma_c64_memory_map(pla, addr);
}

impl<D: Addressable> Addressable for PLA_82S100<D> {
    open spec fn spec_read(&self, addr: Addr) -> u8 {
        if self.spec_device_id(addr) == DEV_NONE {
            0
        } else {
            match self.slot(self.read_slot(addr)) {
                Some(d) => d.spec_read(Self::spec_internal_addr(addr, self.read_slot(addr))),
                None => 0,
            }
        }
    }

    open spec fn read_ok(&self, addr: Addr) -> bool {
        &&& self.wf()
        &&& self.mode_readable()
        &&& (self.spec_device_id(addr) != DEV_NONE && self.slot(self.read_slot(addr)) is Some)
            ==> self.slot(self.read_slot(addr))->0.read_ok(
            Self::spec_internal_addr(addr, self.read_slot(addr)),
        )
    }

    open spec fn write_ok(&self, addr: Addr) -> bool {
        &&& self.wf()
        &&& self.mode_readable()
        &&& self.slot(self.write_slot(addr)) is Some ==> self.slot(self.write_slot(addr))->0.write_ok(
            addr,
        )
    }

    open spec fn spec_wrote(&self, before: &Self, addr: Addr, value: u8) -> bool {
        let ws = before.write_slot(addr);
        &&& self.wf()
        &&& forall|i: u8| i < 7 && i != ws ==> #[trigger] self.slot(i) == before.slot(i)
        &&& before.slot(ws) is None ==> self.slot(ws) is None
        &&& before.slot(ws) is Some ==> self.slot(ws) is Some && self.slot(ws)->0.spec_wrote(
            &before.slot(ws)->0,
            addr,
            value,
        )
    }

    open spec fn spec_width(&self) -> u16 {
        16
    }

    fn read_byte(&self, addr: Addr) -> (r: u8) {
        let id = self.get_device_id(addr);
        if id == 7 {
            return 0;
        }
        let real_id: u8 = if self.has_device(id as usize) {
            id
        } else {
            0
        };
        proof {
            if self.slot(DEV_RAM) is Some {
                lemma_bank_table(self.spec_current_mode(), bank_column(addr));
            }
        }
        match &self.devices[real_id as usize] {
            Some(dev) => dev.read_byte(Self::internal_addr(addr, real_id)),
            None => 0,
        }
    }

    fn write_byte(&mut self, addr: Addr, value: u8) {
        let id = self.get_device_id(addr);
        let real_id: usize = if id == 4 {
            4
        } else {
            0
        };
        let ghost before = *self;
        match &mut self.devices[real_id] {
            Some(dev) => dev.write_byte(addr, value),
            None => {},
        }
        assert(forall|i: u8| i < 7 && i != real_id ==> #[trigger] self.slot(i) == before.slot(i));
    }

    fn address_width(&self) -> (r: u16) {
        16
    }
}

impl<D: Addressable> AddressResolver for PLA_82S100<D> {

}

impl<D: Addressable> Default for PLA_82S100<D> {
    fn default() -> (r: Self)
        ensures
            r.wf(),
            forall|i: int| 0 <= i < 7 ==> #[trigger] r.slots()[i] is None,
    {
        Self::new()
    }
}

/// Over a RAM, a read through the array gives back what a write through it
/// stored, wherever both reach the RAM: the write does not change the mode,
/// or it writes $0001, which always maps to the RAM.
pub proof fn lemma_pla_read_after_write<D: RAM>(
    before: PLA_82S100<D>,
    after: PLA_82S100<D>,
    addr: Addr,
    value: u8,
)
    requires
        before.write_ok(addr),
        after.spec_wrote(&before, addr, value),
        before.slot(DEV_RAM) is Some,
        before.spec_device_id(addr) == DEV_RAM,
    ensures
        after.spec_device_id(addr) == DEV_RAM,
        after.read_ok(addr),
        after.spec_read(addr) == value,
{
    let ram0 = before.slot(DEV_RAM)->0;
    let ram1 = after.slot(DEV_RAM)->0;
    assert(before.write_slot(addr) == DEV_RAM);
    ram1.lemma_read_after_write(&ram0, addr, value, addr);
    ram1.lemma_read_after_write(&ram0, addr, value, 1);
    assert(after.slot(DEV_CARTRIDGE_HI) == before.slot(DEV_CARTRIDGE_HI));
    assert(after.slot(DEV_CARTRIDGE) == before.slot(DEV_CARTRIDGE));
    if addr != 1 {
        assert(after.spec_current_mode() == before.spec_current_mode());
    } else {
        lemma_bank_table(after.spec_current_mode(), 0);
    }
}

} // verus!
