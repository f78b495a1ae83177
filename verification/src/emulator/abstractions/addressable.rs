use vstd::prelude::*;

verus! {

/// An address on a component's address bus.
pub type Addr = u16;

/// A device that can be read and written by address.
pub trait Addressable {
    /// The byte that a read at `addr` returns.
    spec fn spec_read(&self, addr: Addr) -> u8;

    /// A read at `addr` is possible.
    spec fn read_ok(&self, addr: Addr) -> bool;

    /// A write at `addr` is possible.
    spec fn write_ok(&self, addr: Addr) -> bool;

    /// `self` is what `old` becomes after writing `value` at `addr`.
    spec fn spec_wrote(&self, old: &Self, addr: Addr, value: u8) -> bool;

    /// The width of the address bus in bits.
    spec fn spec_width(&self) -> u16;

    fn read_byte(&self, addr: Addr) -> (r: u8)
        requires
            self.read_ok(addr),
        ensures
            r == self.spec_read(addr),
    ;

    fn write_byte(&mut self, addr: Addr, value: u8)
        requires
            old(self).write_ok(addr),
        ensures
            final(self).spec_wrote(old(self), addr, value),
    ;

    fn address_width(&self) -> (r: u16)
        ensures
            r == self.spec_width(),
    ;
}

/// A device that resolves addresses to the devices behind it; it offers
/// reads of ranges and of words.
pub trait AddressResolver: Addressable {
    /// The bytes from `from` up to, not including, `to`.
    fn fragment(&self, from: Addr, to: Addr) -> (r: Vec<u8>)
        requires
            from <= to,
            forall|a: Addr| from <= a < to ==> #[trigger] self.read_ok(a),
        ensures
            r@.len() == to - from,
            forall|i: int| 0 <= i < r@.len() ==> r@[i] == self.spec_read((from + i) as Addr),
    {
        let mut vec: Vec<u8> = Vec::with_capacity((to - from) as usize);
        let mut a = from;
        while a < to
            invariant
                from <= a <= to,
                vec@.len() == a - from,
                forall|b: Addr| from <= b < to ==> #[trigger] self.read_ok(b),
                forall|i: int|
                    0 <= i < vec@.len() ==> vec@[i] == self.spec_read((from + i) as Addr),
            decreases to - a,
        {
            vec.push(self.read_byte(a));
            a = a + 1;
        }
        vec
    }

    /// The little-endian word at `addr`.
    fn read_word(&self, addr: Addr) -> (r: u16)
        requires
            self.read_ok(addr),
            self.read_ok(((addr + 1) % 0x10000) as Addr),
        ensures
            r == self.spec_read(addr) + 256 * self.spec_read(((addr + 1) % 0x10000) as Addr),
    {
        let lo = self.read_byte(addr) as u16;
        let hi = self.read_byte(addr.wrapping_add(1)) as u16;
        assert(hi * 256 + lo <= 0xffff) by (nonlinear_arith)
            requires
                hi <= 255,
                lo <= 255,
        ;
        lo + 256 * hi
    }
}

/// A memory made of a plain array of bytes.
pub struct ArrayMemory {
    cells: Vec<u8>,
    width: u16,
}

impl View for ArrayMemory {
    type V = Seq<u8>;

    closed spec fn view(&self) -> Seq<u8> {
        self.cells@
    }
}

impl ArrayMemory {
    pub closed spec fn spec_width_of(&self) -> u16 {
        self.width
    }

    /// `size` zeroed bytes on an address bus `width` bits wide.
    pub fn new(size: usize, width: u16) -> (r: Self)
        ensures
            r@ == Seq::new(size as nat, |i: int| 0u8),
            r.spec_width_of() == width,
    {
        let cells = vec![0u8; size];
        assert(cells@ =~= Seq::new(size as nat, |i: int| 0u8));
        ArrayMemory { cells, width }
    }

    /// A memory holding a copy of `data`.
    pub fn from_data(data: &[u8], width: u16) -> (r: Self)
        ensures
            r@ == data@,
            r.spec_width_of() == width,
    {
        let mut cells: Vec<u8> = Vec::with_capacity(data.len());
        let mut i: usize = 0;
        while i < data.len()
            invariant
                i <= data@.len(),
                cells@ == data@.take(i as int),
            decreases data.len() - i,
        {
            cells.push(data[i]);
            i = i + 1;
            assert(cells@ =~= data@.take(i as int));
        }
        assert(data@.take(data@.len() as int) =~= data@);
        ArrayMemory { cells, width }
    }

    /// The number of bytes.
    pub fn len(&self) -> (r: usize)
        ensures
            r == self@.len(),
    {
        self.cells.len()
    }
}

impl Addressable for ArrayMemory {
    open spec fn spec_read(&self, addr: Addr) -> u8 {
        self@[addr as int]
    }

    open spec fn read_ok(&self, addr: Addr) -> bool {
        (addr as int) < self@.len()
    }

    open spec fn write_ok(&self, addr: Addr) -> bool {
        (addr as int) < self@.len()
    }

    open spec fn spec_wrote(&self, old: &Self, addr: Addr, value: u8) -> bool {
        self@ == old@.update(addr as int, value) && self.spec_width_of() == old.spec_width_of()
    }

    open spec fn spec_width(&self) -> u16 {
        self.spec_width_of()
    }

    fn read_byte(&self, addr: Addr) -> (r: u8) {
        self.cells[addr as usize]
    }

    fn write_byte(&mut self, addr: Addr, value: u8) {
        self.cells.set(addr as usize, value);
    }

    fn address_width(&self) -> (r: u16) {
        self.width
    }
}

impl AddressResolver for ArrayMemory {

}

impl crate::emulator::abstractions::ram::RAM for ArrayMemory {
    proof fn lemma_write_keeps_writable(&self, before: &Self, addr: Addr, value: u8, other: Addr) {
    }

    proof fn lemma_read_after_write(&self, before: &Self, addr: Addr, value: u8, other: Addr) {
    }
}

} // verus!
