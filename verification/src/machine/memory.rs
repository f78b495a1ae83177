use vstd::prelude::*;

verus! {

/// A 16-bit address.
pub type Addr = u16;

/// What a memory holds: the RAM bytes, a 64 KiB ROM image, and for each
/// address whether a ROM byte has been loaded there.
pub struct MemView {
    pub ram: Seq<u8>,
    pub rom: Seq<u8>,
    pub rom_mask: Seq<bool>,
}

/// The address that follows `addr`, wrapping from $ffff to $0000.
pub open spec fn next_addr(addr: u16, n: int) -> u16 {
    ((addr as int + n) % 0x10000) as u16
}

impl MemView {
    pub open spec fn wf(self) -> bool {
        self.rom.len() == 0x10000 && self.rom_mask.len() == 0x10000
    }

    /// An address is RAM when it lies within the RAM and no ROM byte covers it.
    pub open spec fn is_ram(self, addr: u16) -> bool {
        (addr as int) < self.ram.len() && !self.is_rom(addr)
    }

    /// A ROM byte has been loaded at `addr`.
    pub open spec fn is_rom(self, addr: u16) -> bool {
        (addr as int) < self.rom_mask.len() && (addr as int) < self.rom.len()
            && self.rom_mask[addr as int]
    }

    /// A read gives the ROM byte where one was loaded, else the RAM byte, else 0.
    pub open spec fn read(self, addr: u16) -> u8 {
        if self.is_rom(addr) {
            self.rom[addr as int]
        } else if (addr as int) < self.ram.len() {
            self.ram[addr as int]
        } else {
            0
        }
    }

    /// A write always lands in RAM (also under a ROM byte); beyond the RAM it is lost.
    pub open spec fn write(self, addr: u16, val: u8) -> MemView {
        if (addr as int) < self.ram.len() {
            MemView { ram: self.ram.update(addr as int, val), ..self }
        } else {
            self
        }
    }

    /// The little-endian word at `addr` and the address after it.
    pub open spec fn read_word(self, addr: u16) -> u16 {
        (self.read(addr) as int + 256 * self.read(next_addr(addr, 1)) as int) as u16
    }

    /// The bytes of `data` written one after the other from `addr` on.
    pub open spec fn write_seq(self, addr: u16, data: Seq<u8>) -> MemView
        decreases data.len(),
    {
        if data.len() == 0 {
            self
        } else {
            self.write_seq(addr, data.drop_last()).write(
                next_addr(addr, data.len() - 1),
                data.last(),
            )
        }
    }

    /// The bytes of `data` loaded as ROM from `addr` on.
    pub open spec fn load_rom(self, addr: int, data: Seq<u8>) -> MemView {
        MemView {
            rom: Seq::new(
                0x10000,
                |i: int|
                    if addr <= i < addr + data.len() {
                        data[i - addr]
                    } else {
                        self.rom[i]
                    },
            ),
            rom_mask: Seq::new(
                0x10000,
                |i: int| (addr <= i < addr + data.len()) || self.rom_mask[i],
            ),
            ..self
        }
    }
}

/// A byte-addressed memory of the 6502.
pub trait Memory {
    spec fn mem_view(&self) -> MemView;

    /// The size of the RAM in bytes.
    fn size(&self) -> (r: usize)
        ensures
            r == self.mem_view().ram.len(),
    ;

    fn read_byte(&self, addr: Addr) -> (r: u8)
        ensures
            r == self.mem_view().read(addr),
    ;

    fn write_byte(&mut self, addr: Addr, val: u8)
        ensures
            final(self).mem_view() == old(self).mem_view().write(addr, val),
    ;

    /// Loads a ROM image that ends at $ffff.
    fn init_rom(&mut self, data: &[u8])
        requires
            old(self).mem_view().wf(),
            data@.len() <= 0x10000,
        ensures
            final(self).mem_view() == old(self).mem_view().load_rom(
                0x10000 - data@.len(),
                data@,
            ),
    ;

    /// Loads a ROM image at `addr`.
    fn init_rom_at_addr(&mut self, addr: Addr, data: &[u8])
        requires
            old(self).mem_view().wf(),
            addr + data@.len() <= 0x10000,
        ensures
            final(self).mem_view() == old(self).mem_view().load_rom(addr as int, data@),
    ;

    /// Reads the little-endian word at `addr`.
    fn read_word(&self, addr: Addr) -> (r: u16)
        ensures
            r == self.mem_view().read_word(addr),
    {
        let lo = self.read_byte(addr) as u16;
        let hi = self.read_byte(addr.wrapping_add(1)) as u16;
        assert(hi * 256 + lo <= 0xffff) by (nonlinear_arith)
            requires
                hi <= 255,
                lo <= 255,
        ;
        lo + hi * 256
    }

    /// Writes `data` byte by byte from `addr` on, wrapping past $ffff.
    fn write(&mut self, addr: Addr, data: &[u8])
        ensures
            final(self).mem_view() == old(self).mem_view().write_seq(addr, data@),
    {
        let mut idx = addr;
        let mut i: usize = 0;
        while i < data.len()
            invariant
                i <= data@.len(),
                idx == next_addr(addr, i as int),
                self.mem_view() == old(self).mem_view().write_seq(addr, data@.take(i as int)),
            decreases data.len() - i,
        {
            self.write_byte(idx, data[i]);
            assert(data@.take(i + 1).drop_last() =~= data@.take(i as int));
            idx = idx.wrapping_add(1);
            i = i + 1;
        }
        assert(data@.take(data@.len() as int) =~= data@);
    }

    /// The bytes from `from` up to, not including, `to`.
    fn fragment(&self, from: Addr, to: Addr) -> (r: Vec<u8>)
        requires
            from <= to,
        ensures
            r@.len() == to - from,
            forall|i: int| 0 <= i < r@.len() ==> r@[i] == self.mem_view().read((from + i) as u16),
    {
        let mut vec: Vec<u8> = Vec::with_capacity((to - from) as usize);
        let mut a = from;
        while a < to
            invariant
                from <= a <= to,
                vec@.len() == a - from,
                forall|i: int|
                    0 <= i < vec@.len() ==> vec@[i] == self.mem_view().read((from + i) as u16),
            decreases to - a,
        {
            vec.push(self.read_byte(a));
            a = a + 1;
        }
        vec
    }
}

/// The memory of the generic 6502 machine: RAM of the configured size and a
/// 64 KiB ROM space into which images can be loaded.
pub struct MOS6502Memory {
    ram: Vec<u8>,
    rom: Vec<u8>,
    rom_mask: Vec<bool>,
}

impl MOS6502Memory {
    pub closed spec fn view_mem(&self) -> MemView {
        MemView { ram: self.ram@, rom: self.rom@, rom_mask: self.rom_mask@ }
    }

    /// A memory of `size` zeroed RAM bytes and no ROM.
    pub fn new(size: usize) -> (r: Self)
        ensures
            r.mem_view().ram == Seq::new(size as nat, |i: int| 0u8),
            r.mem_view().rom_mask == Seq::new(0x10000, |i: int| false),
            r.mem_view().wf(),
    {
        let ram = vec![0u8; size];
        let rom = vec![0u8; 0x10000];
        let rom_mask = vec![false; 0x10000];
        assert(ram@ =~= Seq::new(size as nat, |i: int| 0u8));
        assert(rom_mask@ =~= Seq::new(0x10000, |i: int| false));
        MOS6502Memory { ram, rom, rom_mask }
    }

    fn load(&mut self, addr: usize, data: &[u8])
        requires
            old(self).view_mem().wf(),
            addr + data@.len() <= 0x10000,
        ensures
            final(self).view_mem() == old(self).view_mem().load_rom(addr as int, data@),
    {
        let mut i: usize = 0;
        while i < data.len()
            invariant
                i <= data@.len(),
                addr + data@.len() <= 0x10000,
                self.ram@ == old(self).ram@,
                self.rom@.len() == 0x10000,
                self.rom_mask@.len() == 0x10000,
                forall|j: int|
                    0 <= j < 0x10000 ==> #[trigger] self.rom@[j] == (if addr <= j < addr + i {
                        data@[j - addr]
                    } else {
                        old(self).rom@[j]
                    }),
                forall|j: int|
                    0 <= j < 0x10000 ==> #[trigger] self.rom_mask@[j] == ((addr <= j < addr + i)
                        || old(self).rom_mask@[j]),
            decreases data.len() - i,
        {
            self.rom.set(addr + i, data[i]);
            self.rom_mask.set(addr + i, true);
            i = i + 1;
        }
        assert(self.view_mem().rom =~= old(self).view_mem().load_rom(addr as int, data@).rom);
        assert(self.view_mem().rom_mask =~= old(self).view_mem().load_rom(
            addr as int,
            data@,
        ).rom_mask);
    }
}

impl Memory for MOS6502Memory {
    open spec fn mem_view(&self) -> MemView {
        self.view_mem()
    }

    fn size(&self) -> (r: usize) {
        self.ram.len()
    }

    fn read_byte(&self, addr: Addr) -> (r: u8) {
        let a = addr as usize;
        if a < self.rom_mask.len() && a < self.rom.len() && self.rom_mask[a] {
            self.rom[a]
        } else if a < self.ram.len() {
            self.ram[a]
        } else {
            0
        }
    }

    fn write_byte(&mut self, addr: Addr, val: u8) {
        let a = addr as usize;
        if a < self.ram.len() {
            self.ram.set(a, val);
        }
    }

    fn init_rom(&mut self, data: &[u8]) {
        self.load(0x10000 - data.len(), data);
    }

    fn init_rom_at_addr(&mut self, addr: Addr, data: &[u8]) {
        self.load(addr as usize, data);
    }
}

/// A byte written to RAM reads back, and no other address changes.
pub proof fn lemma_read_after_write(m: MemView, addr: u16, val: u8, other: u16)
    requires
        m.wf(),
        m.is_ram(addr),
    ensures
        m.write(addr, val).read(addr) == val,
        other != addr ==> m.write(addr, val).read(other) == m.read(other),
{
}

} // verus!
