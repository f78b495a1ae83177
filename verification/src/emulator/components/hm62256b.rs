use vstd::prelude::*;
use crate::emulator::abstractions::pins::{
    direct_lines, lines_changed, lines_read, read_lines, set_tri_state_of_all, turn_to, valid_lines,
    with_tri_state, write_bits, write_lines,
};
use crate::emulator::abstractions::{
    Addr, Addressable, Component, Pin, PinDirection, PinStateChange, PinView, Pins, RAM,
};
use crate::text::same_text;

verus! {

/// The number of bytes of the HM62256B static RAM (32 KiB).
pub const HM62256B_SIZE: usize = 0x8000;

/// The storage of an HM62256B 32 KiB static RAM chip, addressed by 15 lines.
pub struct HM62256BLogic {
    data: Vec<u8>,
}

impl HM62256BLogic {
    /// There is a cell for every address of 15 bits.
    #[verifier::type_invariant]
    closed spec fn full_size(&self) -> bool {
        self.data@.len() == HM62256B_SIZE
    }
}

impl View for HM62256BLogic {
    type V = Seq<u8>;

    closed spec fn view(&self) -> Seq<u8> {
        self.data@
    }
}

impl HM62256BLogic {
    /// A chip whose cells all hold zero.
    pub fn new() -> (r: Self)
        ensures
            r@ == Seq::new(HM62256B_SIZE as nat, |i: int| 0u8),
    {
        let data = vec![0u8; HM62256B_SIZE];
        assert(data@ =~= Seq::new(HM62256B_SIZE as nat, |i: int| 0u8));
        HM62256BLogic { data }
    }

    /// The number of cells: one for every address of 15 bits.
    pub fn size(&self) -> (r: usize)
        ensures
            r == self@.len(),
            r == HM62256B_SIZE,
    {
        proof {
            use_type_invariant(self);
        }
        self.data.len()
    }

    /// Copies `data` into the cells from `addr` on.
    pub fn load(&mut self, addr: Addr, data: &[u8])
        requires
            addr + data@.len() <= old(self)@.len(),
        ensures
            final(self)@ == old(self)@.take(addr as int) + data@ + old(self)@.skip(
                addr + data@.len(),
            ),
    {
        proof {
            use_type_invariant(&*self);
        }
        let a = addr as usize;
        let size = self.data.len();
        let end = a + data.len();
        let mut i: usize = a;
        while i < end
            invariant
                a == addr,
                end == a + data@.len(),
                a <= i <= a + data@.len(),
                a + data@.len() <= old(self)@.len(),
                self@.len() == old(self)@.len(),
                old(self)@.len() == HM62256B_SIZE,
                forall|k: int|
                    0 <= k < self@.len() ==> #[trigger] self@[k] == if a <= k < i {
                        data@[k - a]
                    } else {
                        old(self)@[k]
                    },
            decreases end - i,
        {
            self.data[i] = data[i - a];
            i = i + 1;
        }
        assert(self@ =~= old(self)@.take(addr as int) + data@ + old(self)@.skip(
            addr + data@.len(),
        ));
    }
}

impl Addressable for HM62256BLogic {
    open spec fn spec_read(&self, addr: Addr) -> u8 {
        self@[addr as int]
    }

    open spec fn read_ok(&self, addr: Addr) -> bool {
        (addr as int) < self@.len()
    }

    open spec fn write_ok(&self, addr: Addr) -> bool {
        (addr as int) < self@.len()
    }

    open spec fn spec_wrote(&self, old: &Self, addr: Addr, value: u8) -> bool {
        self@ == old@.update(addr as int, value)
    }

    open spec fn spec_width(&self) -> u16 {
        15
    }

    fn read_byte(&self, addr: Addr) -> (r: u8) {
        self.data[addr as usize]
    }

    fn write_byte(&mut self, addr: Addr, value: u8) {
        proof {
            use_type_invariant(&*self);
        }
        self.data[addr as usize] = value;
    }

    fn address_width(&self) -> (r: u16) {
        15
    }
}

impl RAM for HM62256BLogic {
    proof fn lemma_write_keeps_writable(&self, before: &Self, addr: Addr, value: u8, other: Addr) {
    }

    proof fn lemma_read_after_write(&self, before: &Self, addr: Addr, value: u8, other: Addr) {
    }
}


/// Where address line `k` of the chip stands among its pins (from 0).
pub open spec fn hm62256b_addr_position(k: int) -> int {
    if k < 8 {
        9 - k
    } else if k == 8 {
        24
    } else if k == 9 {
        23
    } else if k == 10 {
        20
    } else if k == 11 {
        22
    } else if k == 12 {
        1
    } else if k == 13 {
        25
    } else {
        0
    }
}

/// Where data line `k` of the chip stands among its pins (from 0).
pub open spec fn hm62256b_data_position(k: int) -> int {
    if k < 3 {
        10 + k
    } else {
        11 + k
    }
}

/// The name of a control pin (from 0).
pub open spec fn hm62256b_control_name(i: int) -> Seq<char> {
    if i == 13 {
        "VSS"@
    } else if i == 19 {
        "CS"@
    } else if i == 21 {
        "OE"@
    } else if i == 26 {
        "WE"@
    } else {
        "VCC"@
    }
}

/// The group of the pin at position `i`: `Some((true, k))` for address line
/// `k`, `Some((false, k))` for data line `k`, `None` for a control pin.
pub open spec fn hm62256b_line(i: int) -> Option<(bool, u8)> {
    if i == 0 {
        Some((true, 14u8))
    } else if i == 1 {
        Some((true, 12u8))
    } else if 2 <= i < 10 {
        Some((true, (9 - i) as u8))
    } else if 10 <= i < 13 {
        Some((false, (i - 10) as u8))
    } else if 14 <= i < 19 {
        Some((false, (i - 11) as u8))
    } else if i == 20 {
        Some((true, 10u8))
    } else if i == 22 {
        Some((true, 11u8))
    } else if i == 23 {
        Some((true, 9u8))
    } else if i == 24 {
        Some((true, 8u8))
    } else if i == 25 {
        Some((true, 13u8))
    } else {
        None
    }
}

/// The pin at position `i` (from 0) of a freshly made HM62256B:
/// ```text
///               HM62256B
///            ----------------
///    A14 --> |  1 *      28 | <-- VCC
///    A12 --> |  2 *      27 | <-- WE!
///     A7 --> |  3 *    * 26 | <-- A13
///     A6 --> |  4 *    * 25 | <-- A8
///     A5 --> |  5 *    * 24 | <-- A9
///     A4 --> |  6 *    * 23 | <-- A11
///     A3 --> |  7 *      22 | --- OE!
///     A2 --> |  8 *    * 21 | <-- A10
///     A1 --> |  9 *      20 | <-- CS!
///     A0 --> | 10 *    * 19 | <-> IO7
///    IO0 <-> | 11 *    * 18 | <-> IO6
///    IO1 <-> | 12 *    * 17 | <-> IO5
///    IO2 <-> | 13 *    * 16 | <-> IO4
///    GND <-- | 14      * 15 | <-> IO3
///            ----------------
///
///    * - tri-state, @ - async, ! - active on low
/// ```
/// Address line `k` is the input pin "A" of group `k`, at the position
/// `hm62256b_addr_position(k)`; data line `k` is the pin "D" of group `k`,
/// an output that is tri-state and bidirectional, at
/// `hm62256b_data_position(k)`; the other pins are the inputs VSS, CS, OE,
/// WE and VCC. Each pin carries its number as id and is low.
pub open spec fn hm62256b_layout(i: int) -> PinView {
    let line = hm62256b_line(i);
    PinView {
        id: Some((i + 1) as u8),
        inner_id: None,
        name: match line {
            Some((true, _)) => "A"@,
            Some((false, _)) => "D"@,
            None => hm62256b_control_name(i),
        },
        group_id: match line {
            Some((_, k)) => Some(k),
            None => None,
        },
        value: false,
        enabled: true,
        direction: if line matches Some((false, _)) {
            PinDirection::Output
        } else {
            PinDirection::Input
        },
        tri_state: line matches Some((false, _)),
        io: line matches Some((false, _)),
    }
}

fn control_name(i: usize) -> (r: &'static str)
    ensures
        r@ == hm62256b_control_name(i as int),
{
    if i == 13 {
        "VSS"
    } else if i == 19 {
        "CS"
    } else if i == 21 {
        "OE"
    } else if i == 26 {
        "WE"
    } else {
        "VCC"
    }
}

fn line_of(i: usize) -> (r: Option<(bool, u8)>)
    ensures
        r == hm62256b_line(i as int),
{
    if i == 0 {
        Some((true, 14u8))
    } else if i == 1 {
        Some((true, 12u8))
    } else if 2 <= i && i < 10 {
        Some((true, (9 - i) as u8))
    } else if 10 <= i && i < 13 {
        Some((false, (i - 10) as u8))
    } else if 14 <= i && i < 19 {
        Some((false, (i - 11) as u8))
    } else if i == 20 {
        Some((true, 10u8))
    } else if i == 22 {
        Some((true, 11u8))
    } else if i == 23 {
        Some((true, 9u8))
    } else if i == 24 {
        Some((true, 8u8))
    } else if i == 25 {
        Some((true, 13u8))
    } else {
        None
    }
}

/// Makes the pin at position `i` of the chip.
fn layout_pin(i: usize) -> (r: Pin)
    requires
        i < 28,
    ensures
        r@ == hm62256b_layout(i as int),
{
    let mut p = match line_of(i) {
        Some((true, k)) => {
            let mut p = Pin::new("A", PinDirection::Input, false, false);
            p.set_group_id(k);
            p
        },
        Some((false, k)) => {
            let mut p = Pin::new("D", PinDirection::Output, true, true);
            p.set_group_id(k);
            p
        },
        None => Pin::new(control_name(i), PinDirection::Input, false, false),
    };
    p.set_id((i + 1) as u8);
    p
}

fn addr_position(k: usize) -> (r: usize)
    requires
        k < 15,
    ensures
        r == hm62256b_addr_position(k as int),
{
    if k < 8 {
        9 - k
    } else if k == 8 {
        24
    } else if k == 9 {
        23
    } else if k == 10 {
        20
    } else if k == 11 {
        22
    } else if k == 12 {
        1
    } else if k == 13 {
        25
    } else {
        0
    }
}

/// The data lines of the chip: line `k` on the pin at
/// `hm62256b_data_position(k)`.
pub open spec fn hm62256b_data_lines() -> Seq<usize> {
    Seq::new(8, |k: int| hm62256b_data_position(k) as usize)
}

/// The address lines of the chip: line `k` on the pin at
/// `hm62256b_addr_position(k)`.
pub open spec fn hm62256b_addr_lines() -> Seq<usize> {
    Seq::new(15, |k: int| hm62256b_addr_position(k) as usize)
}

proof fn lemma_lines_valid()
    ensures
        valid_lines(28, hm62256b_data_lines()),
        valid_lines(28, hm62256b_addr_lines()),
{
}

fn data_lines() -> (r: Vec<usize>)
    ensures
        r@ == hm62256b_data_lines(),
{
    let mut v: Vec<usize> = Vec::new();
    let mut k: usize = 0;
    while k < 8
        invariant
            k <= 8,
            v@.len() == k,
            forall|j: int| 0 <= j < k ==> #[trigger] v@[j] == hm62256b_data_position(j) as usize,
        decreases 8 - k,
    {
        v.push(if k < 3 {
            10 + k
        } else {
            11 + k
        });
        k = k + 1;
    }
    assert(v@ =~= hm62256b_data_lines());
    v
}

fn addr_lines() -> (r: Vec<usize>)
    ensures
        r@ == hm62256b_addr_lines(),
{
    let mut v: Vec<usize> = Vec::new();
    let mut k: usize = 0;
    while k < 15
        invariant
            k <= 15,
            v@.len() == k,
            forall|j: int| 0 <= j < k ==> #[trigger] v@[j] == hm62256b_addr_position(j) as usize,
        decreases 15 - k,
    {
        v.push(addr_position(k));
        k = k + 1;
    }
    assert(v@ =~= hm62256b_addr_lines());
    v
}

/// The pins of the HM62256B static RAM. Its data and address buses are
/// read and written on these pins themselves, through the lines that
/// `hm62256b_data_lines` and `hm62256b_addr_lines` give.
pub struct HM62256BPins {
    pub pins: Vec<Pin>,
}

impl HM62256BPins {
    /// The pins of a freshly made chip, as `hm62256b_layout` gives them.
    pub open spec fn fresh(&self) -> bool {
        &&& self.pins@.len() == 28
        &&& forall|i: int| 0 <= i < 28 ==> (#[trigger] self.pins@[i])@ == hm62256b_layout(i)
    }

    pub fn new() -> (r: Self)
        ensures
            r.fresh(),
    {
        let mut pins: Vec<Pin> = Vec::new();
        let mut i: usize = 0;
        while i < 28
            invariant
                i <= 28,
                pins@.len() == i,
                forall|j: int| 0 <= j < i ==> (#[trigger] pins@[j])@ == hm62256b_layout(j),
            decreases 28 - i,
        {
            pins.push(layout_pin(i));
            i = i + 1;
        }
        HM62256BPins { pins }
    }

    /// The number on the address pins.
    pub fn read_addr(&self) -> (r: u16)
        requires
            self.pins@.len() == 28,
        ensures
            lines_read(self.pins@, hm62256b_addr_lines(), r),
    {
        proof {
            lemma_lines_valid();
        }
        read_lines(&self.pins, &addr_lines())
    }

    /// The number on the data pins.
    pub fn read_data(&self) -> (r: u16)
        requires
            self.pins@.len() == 28,
        ensures
            lines_read(self.pins@, hm62256b_data_lines(), r),
    {
        proof {
            lemma_lines_valid();
        }
        read_lines(&self.pins, &data_lines())
    }

    /// Writes bit `k` of `v` to data line `k`; input pins refuse the write.
    pub fn write_data(&mut self, v: u16)
        requires
            old(self).pins@.len() == 28,
        ensures
            lines_changed(final(self).pins@, old(self).pins@, hm62256b_data_lines(), write_bits(v)),
    {
        proof {
            lemma_lines_valid();
        }
        write_lines(&mut self.pins, &data_lines(), v);
    }

    /// Turns every data line to the direction `dir`.
    pub fn set_data_direction(&mut self, dir: PinDirection)
        requires
            old(self).pins@.len() == 28,
        ensures
            lines_changed(final(self).pins@, old(self).pins@, hm62256b_data_lines(), turn_to(dir)),
    {
        proof {
            lemma_lines_valid();
        }
        direct_lines(&mut self.pins, &data_lines(), dir);
    }
}

impl Pins for HM62256BPins {
    open spec fn spec_pins(&self) -> Seq<Pin> {
        self.pins@
    }

    fn pins(&self) -> (r: &Vec<Pin>) {
        &self.pins
    }

    fn pins_mut(&mut self) -> (r: &mut Vec<Pin>) {
        &mut self.pins
    }
}

/// An HM62256B static RAM: its pins and the storage behind them.
pub struct HM62256B<T> {
    pub pins: HM62256BPins,
    pub logic: T,
}

impl<T: RAM> HM62256B<T> {
    pub fn new(logic: T) -> (r: Self)
        ensures
            r.pins.fresh(),
            r.logic == logic,
    {
        HM62256B { pins: HM62256BPins::new(), logic }
    }
}

impl HM62256B<HM62256BLogic> {
    /// What the chip does on a change of `pin` while its address pins read
    /// `addr`. On a data line ("D") the byte on the data pins is stored at
    /// `addr`; on an address line ("A"), while WE (pin 27) is low, the byte
    /// stored at `addr` is written to the data pins; on CS every tri-state
    /// pin is enabled when CS is low and disabled when it is high; on WE the
    /// data pins turn output when WE is low and input when it is high. Any
    /// other pin changes nothing. An address beyond the storage stores and
    /// shows nothing.
    pub open spec fn reacted_at(&self, before: &Self, pin: PinView, addr: u16) -> bool {
        let pins = before.pins.pins@;
        let in_range = (addr as int) < before.logic@.len();
        if pin.name == "D"@ {
            &&& self.pins == before.pins
            &&& if in_range {
                exists|d: u16|
                    #[trigger] lines_read(pins, hm62256b_data_lines(), d) && self.logic@
                        == before.logic@.update(addr as int, d as u8)
            } else {
                self.logic == before.logic
            }
        } else if pin.name == "A"@ {
            &&& self.logic == before.logic
            &&& if in_range && !pins[26]@.value {
                lines_changed(
                    self.pins.pins@,
                    pins,
                    hm62256b_data_lines(),
                    write_bits(before.logic@[addr as int] as u16),
                )
            } else {
                self.pins == before.pins
            }
        } else if pin.name == "CS"@ {
            &&& self.logic == before.logic
            &&& self.pins.pins@.len() == pins.len()
            &&& forall|i: int|
                0 <= i < pins.len() ==> #[trigger] self.pins.pins@[i]@ == with_tri_state(
                    pins[i]@,
                    !pin.value,
                )
        } else if pin.name == "WE"@ {
            &&& self.logic == before.logic
            &&& lines_changed(
                self.pins.pins@,
                pins,
                hm62256b_data_lines(),
                turn_to(
                    if pin.value {
                        PinDirection::Input
                    } else {
                        PinDirection::Output
                    },
                ),
            )
        } else {
            *self == *before
        }
    }
}

impl PinStateChange for HM62256B<HM62256BLogic> {
    /// The chip reacts as `reacted_at` says, at the address on its address
    /// pins; a chip that has not its 28 pins does nothing.
    open spec fn reacted(&self, before: &Self, pin: PinView) -> bool {
        if before.pins.pins@.len() == 28 {
            exists|a: u16|
                #[trigger] lines_read(before.pins.pins@, hm62256b_addr_lines(), a)
                    && self.reacted_at(before, pin, a)
        } else {
            *self == *before
        }
    }

    /// Reacts to the change of a pin, by the pin's name without its group.
    fn on_state_change(&mut self, pin: &Pin) {
        if self.pins.pins.len() != 28 {
            return;
        }
        let addr = self.pins.read_addr();
        let in_range = (addr as usize) < self.logic.size();
        let name = pin.base_name();
        if same_text(name.as_str(), "D") {
            if in_range {
                let byte = self.pins.read_data();
                self.logic.write_byte(addr, byte as u8);
            }
        } else if same_text(name.as_str(), "A") {
            if in_range && self.pins.pins[26].low() {
                let byte = self.logic.read_byte(addr);
                self.pins.write_data(byte as u16);
            }
        } else if same_text(name.as_str(), "CS") {
            set_tri_state_of_all(&mut self.pins.pins, !pin.state());
        } else if same_text(name.as_str(), "WE") {
            self.pins.set_data_direction(PinDirection::from(!pin.state()));
        }
    }
}


/// `i` is the first of `pins` whose full name is `name`.
pub open spec fn first_named(pins: Seq<Pin>, name: Seq<char>, i: int) -> bool {
    &&& 0 <= i < pins.len()
    &&& pins[i]@.full_name() == name
    &&& forall|j: int| 0 <= j < i ==> #[trigger] pins[j]@.full_name() != name
}

/// Where the first of `pins` whose full name is `name` stands.
pub open spec fn first_named_at(pins: Seq<Pin>, name: Seq<char>) -> int {
    choose|i: int| first_named(pins, name, i)
}

proof fn lemma_first_named_unique(pins: Seq<Pin>, name: Seq<char>, i: int)
    requires
        first_named(pins, name, i),
    ensures
        first_named_at(pins, name) == i,
{
    let c = first_named_at(pins, name);
    assert(first_named(pins, name, c));
    if c < i {
        assert(pins[c]@.full_name() != name);
    } else if c > i {
        assert(pins[i]@.full_name() != name);
    }
}

/// The position of the first pin whose full name is `name`.
fn find_pin(pins: &Vec<Pin>, name: &str) -> (r: Option<usize>)
    ensures
        match r {
            Some(i) => first_named(pins@, name@, i as int),
            None => forall|j: int| 0 <= j < pins@.len() ==> #[trigger] pins@[j]@.full_name() != name@,
        },
{
    let mut i: usize = 0;
    while i < pins.len()
        invariant
            i <= pins@.len(),
            forall|j: int| 0 <= j < i ==> #[trigger] pins@[j]@.full_name() != name@,
        decreases pins.len() - i,
    {
        let n = pins[i].name();
        if same_text(n.as_str(), name) {
            return Some(i);
        }
        i = i + 1;
    }
    None
}

impl Component for HM62256B<HM62256BLogic> {
    /// The pins are named by their full names ("A0", "D7", "CS", ...).
    open spec fn has_pin(&self, name: Seq<char>) -> bool {
        exists|i: int| #[trigger] first_named(self.pins.pins@, name, i)
    }

    /// The first pin with that full name.
    open spec fn pin(&self, name: Seq<char>) -> PinView {
        self.pins.pins@[first_named_at(self.pins.pins@, name)]@
    }

    open spec fn pin_replaced(&self, before: &Self, name: Seq<char>, p: PinView) -> bool {
        let k = first_named_at(before.pins.pins@, name);
        &&& self.logic == before.logic
        &&& self.pins.pins@.len() == before.pins.pins@.len()
        &&& self.pins.pins@[k]@ == p
        &&& forall|j: int|
            0 <= j < before.pins.pins@.len() && j != k ==> #[trigger] self.pins.pins@[j]
                == before.pins.pins@[j]
    }

    proof fn lemma_pin_replaced(&self, before: &Self, name: Seq<char>, p: PinView, other: Seq<char>) {
        let k = first_named_at(before.pins.pins@, name);
        assert(first_named(before.pins.pins@, name, k));
        assert forall|j: int|
            #![trigger self.pins.pins@[j]]
            #![trigger before.pins.pins@[j]]
            0 <= j < before.pins.pins@.len() implies self.pins.pins@[j]@.full_name()
                == before.pins.pins@[j]@.full_name() by {
            if j != k {
                assert(self.pins.pins@[j] == before.pins.pins@[j]);
            }
        }
        assert(first_named(self.pins.pins@, name, k));
        lemma_first_named_unique(self.pins.pins@, name, k);
        if before.has_pin(other) {
            let i = choose|i: int| #[trigger] first_named(before.pins.pins@, other, i);
            assert(first_named(self.pins.pins@, other, i));
            if other != name {
                lemma_first_named_unique(before.pins.pins@, other, i);
                lemma_first_named_unique(self.pins.pins@, other, i);
                assert(i != k);
            }
        }
        if self.has_pin(other) {
            let i = choose|i: int| #[trigger] first_named(self.pins.pins@, other, i);
            assert(first_named(before.pins.pins@, other, i));
        }
    }

    fn get_pin(&self, name: &str) -> (r: Option<&Pin>) {
        match find_pin(&self.pins.pins, name) {
            Some(i) => {
                proof {
                    lemma_first_named_unique(self.pins.pins@, name@, i as int);
                }
                Some(&self.pins.pins[i])
            },
            None => {
                assert forall|i: int| !first_named(self.pins.pins@, name@, i) by {
                    if 0 <= i < self.pins.pins@.len() {
                        assert(self.pins.pins@[i]@.full_name() != name@);
                    }
                }
                None
            },
        }
    }

    fn get_pin_mut(&mut self, name: &str) -> (r: Option<&mut Pin>) {
        match find_pin(&self.pins.pins, name) {
            Some(i) => {
                proof {
                    lemma_first_named_unique(self.pins.pins@, name@, i as int);
                }
                Some(&mut self.pins.pins[i])
            },
            None => {
                assert forall|i: int| !first_named(self.pins.pins@, name@, i) by {
                    if 0 <= i < self.pins.pins@.len() {
                        assert(self.pins.pins@[i]@.full_name() != name@);
                    }
                }
                None
            },
        }
    }
}

} // verus!
