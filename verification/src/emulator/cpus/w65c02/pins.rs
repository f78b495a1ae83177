use vstd::prelude::*;
use vstd::string::StringExecFns;
use crate::emulator::abstractions::pins::{
    lines_changed, lines_read, read_lines, valid_lines, write_bits, write_lines,
};
use crate::emulator::abstractions::{Pin, PinDirection, PinView, Pins};
use crate::text::{spec_decimal, with_number};

verus! {

/// The name of the pin at position `i` (from 0) of the W65C02, for the pins
/// that are not address or data lines.
pub open spec fn w65c02_control_name(i: int) -> Seq<char> {
    if i == 0 {
        "VP"@
    } else if i == 1 {
        "RDY"@
    } else if i == 2 {
        "PHI1O"@
    } else if i == 3 {
        "IRQ"@
    } else if i == 4 {
        "ML"@
    } else if i == 5 {
        "NMI"@
    } else if i == 6 {
        "SYNC"@
    } else if i == 7 {
        "VDD"@
    } else if i == 20 {
        "VSS"@
    } else if i == 33 {
        "RW"@
    } else if i == 34 {
        "NC"@
    } else if i == 35 {
        "BE"@
    } else if i == 36 {
        "PHI2"@
    } else if i == 37 {
        "SO"@
    } else if i == 38 {
        "PHI2O"@
    } else {
        "RES"@
    }
}

/// The pin at position `i` (from 0) of a freshly made W65C02:
/// ```text
///                W65C02
///            --------------
///     VP <-- |  1      40 | <-- RES
///   /RDY --> |  2      39 | --> PHI2O
///  PHI1O <-- |  3      38 | <-- SO
///    IRQ --> |  4      37 | <-- PHI2
///     ML <-- |  5     @36 | <-- BE
///    NMI --> |  6      35 | --- NC
///   SYNC <-- |  7     *34 | --> RW
///    VDD --> |  8     *33 | <-> D0
///     A0 <-- |  9*    *32 | <-> D1
///     A1 <-- | 10*    *31 | <-> D2
///     A2 <-- | 11*    *30 | <-> D3
///     A3 <-- | 12*    *29 | <-> D4
///     A4 <-- | 13*    *28 | <-> D5
///     A5 <-- | 14*    *27 | <-> D6
///     A6 <-- | 15*    *26 | <-> D7
///     A7 <-- | 16*     25 | --> A15
///     A8 <-- | 17*     24 | --> A14
///     A9 <-- | 18*     23 | --> A13
///    A10 <-- | 19*     22 | --> A12
///    A11 <-- | 20*     21 | <-- VSS
///            --------------
///
///    * - tri-state, @ - async, / - active on low
/// ```
/// Pins 9 to 20 are the address lines A0 to A11 (tri-state), 22 to 25 the
/// lines A12 to A15, and 26 to 33 the data lines D7 down to D0 (tri-state,
/// bidirectional). Each pin carries its number as id and is low.
pub open spec fn w65c02_layout(i: int) -> PinView {
    let name = if 8 <= i < 20 {
        "A"@ + spec_decimal((i - 8) as nat)
    } else if 21 <= i < 25 {
        "A"@ + spec_decimal((i - 9) as nat)
    } else if 25 <= i < 33 {
        "D"@ + spec_decimal((32 - i) as nat)
    } else {
        w65c02_control_name(i)
    };
    let output = i == 0 || i == 2 || i == 4 || i == 6 || 8 <= i < 20 || 21 <= i < 34 || i == 37
        || i == 38;
    PinView {
        id: Some((i + 1) as u8),
        inner_id: None,
        name,
        group_id: None,
        value: false,
        enabled: true,
        direction: if output {
            PinDirection::Output
        } else {
            PinDirection::Input
        },
        tri_state: 8 <= i < 20 || 25 <= i < 34,
        io: 25 <= i < 33,
    }
}

fn control_name(i: usize) -> (r: &'static str)
    ensures
        r@ == w65c02_control_name(i as int),
{
    if i == 0 {
        "VP"
    } else if i == 1 {
        "RDY"
    } else if i == 2 {
        "PHI1O"
    } else if i == 3 {
        "IRQ"
    } else if i == 4 {
        "ML"
    } else if i == 5 {
        "NMI"
    } else if i == 6 {
        "SYNC"
    } else if i == 7 {
        "VDD"
    } else if i == 20 {
        "VSS"
    } else if i == 33 {
        "RW"
    } else if i == 34 {
        "NC"
    } else if i == 35 {
        "BE"
    } else if i == 36 {
        "PHI2"
    } else if i == 37 {
        "SO"
    } else if i == 38 {
        "PHI2O"
    } else {
        "RES"
    }
}

/// Makes the pin at position `i` of the chip.
fn layout_pin(i: usize) -> (r: Pin)
    requires
        i < 40,
    ensures
        r@ == w65c02_layout(i as int),
{
    let name: String = if 8 <= i && i < 20 {
        with_number("A", (i - 8) as u64)
    } else if 21 <= i && i < 25 {
        with_number("A", (i - 9) as u64)
    } else if 25 <= i && i < 33 {
        with_number("D", (32 - i) as u64)
    } else {
        String::from_str(control_name(i))
    };
    let output = i == 0 || i == 2 || i == 4 || i == 6 || (8 <= i && i < 20) || (21 <= i && i
        < 34) || i == 37 || i == 38;
    let direction = if output {
        PinDirection::Output
    } else {
        PinDirection::Input
    };
    let tri_state = (8 <= i && i < 20) || (25 <= i && i < 34);
    let io = 25 <= i && i < 33;
    let mut p = Pin::new(name.as_str(), direction, tri_state, io);
    p.set_id((i + 1) as u8);
    p
}

/// The data lines: line `k` on pin `26 + k` (D7 down to D0).
pub open spec fn w65c02_data_lines() -> Seq<usize> {
    Seq::new(8, |k: int| (25 + k) as usize)
}

/// The address lines: line `k` on the pin of A`k` (pins 9 to 20, then 22
/// to 25).
pub open spec fn w65c02_addr_lines() -> Seq<usize> {
    Seq::new(
        16,
        |k: int|
            if k < 12 {
                (8 + k) as usize
            } else {
                (9 + k) as usize
            },
    )
}

proof fn lemma_lines_valid()
    ensures
        valid_lines(40, w65c02_data_lines()),
        valid_lines(40, w65c02_addr_lines()),
{
}

fn data_lines() -> (r: Vec<usize>)
    ensures
        r@ == w65c02_data_lines(),
{
    let mut v: Vec<usize> = Vec::new();
    let mut k: usize = 0;
    while k < 8
        invariant
            k <= 8,
            v@.len() == k,
            forall|j: int| 0 <= j < k ==> #[trigger] v@[j] == (25 + j) as usize,
        decreases 8 - k,
    {
        v.push(25 + k);
        k = k + 1;
    }
    assert(v@ =~= w65c02_data_lines());
    v
}

fn addr_lines() -> (r: Vec<usize>)
    ensures
        r@ == w65c02_addr_lines(),
{
    let mut v: Vec<usize> = Vec::new();
    let mut k: usize = 0;
    while k < 16
        invariant
            k <= 16,
            v@.len() == k,
            forall|j: int| 0 <= j < k ==> #[trigger] v@[j] == w65c02_addr_lines()[j],
        decreases 16 - k,
    {
        v.push(if k < 12 {
            8 + k
        } else {
            9 + k
        });
        k = k + 1;
    }
    assert(v@ =~= w65c02_addr_lines());
    v
}

/// The pins of the W65C02 processor. Its data and address buses are read
/// and written on these pins themselves, through the lines that
/// `w65c02_data_lines` and `w65c02_addr_lines` give.
#[allow(non_camel_case_types)]
pub struct W65C02_Pins {
    pub pins: Vec<Pin>,
}

impl W65C02_Pins {
    /// The 40 pins as `w65c02_layout` gives them.
    pub fn new() -> (r: Self)
        ensures
            r.spec_pins().len() == 40,
            forall|i: int| 0 <= i < 40 ==> (#[trigger] r.spec_pins()[i])@ == w65c02_layout(i),
    {
        let mut pins: Vec<Pin> = Vec::new();
        let mut i: usize = 0;
        while i < 40
            invariant
                i <= 40,
                pins@.len() == i,
                forall|j: int| 0 <= j < i ==> (#[trigger] pins@[j])@ == w65c02_layout(j),
            decreases 40 - i,
        {
            pins.push(layout_pin(i));
            i = i + 1;
        }
        W65C02_Pins { pins }
    }

    /// The number on the address pins.
    pub fn read_addr(&self) -> (r: u16)
        requires
            self.pins@.len() == 40,
        ensures
            lines_read(self.pins@, w65c02_addr_lines(), r),
    {
        proof {
            lemma_lines_valid();
        }
        read_lines(&self.pins, &addr_lines())
    }

    /// The number on the data pins.
    pub fn read_data(&self) -> (r: u16)
        requires
            self.pins@.len() == 40,
        ensures
            lines_read(self.pins@, w65c02_data_lines(), r),
    {
        proof {
            lemma_lines_valid();
        }
        read_lines(&self.pins, &data_lines())
    }

    /// Writes bit `k` of `v` to address line `k`.
    pub fn write_addr(&mut self, v: u16)
        requires
            old(self).pins@.len() == 40,
        ensures
            lines_changed(final(self).pins@, old(self).pins@, w65c02_addr_lines(), write_bits(v)),
    {
        proof {
            lemma_lines_valid();
        }
        write_lines(&mut self.pins, &addr_lines(), v);
    }

    /// Writes bit `k` of `v` to data line `k`; input pins refuse the write.
    pub fn write_data(&mut self, v: u16)
        requires
            old(self).pins@.len() == 40,
        ensures
            lines_changed(final(self).pins@, old(self).pins@, w65c02_data_lines(), write_bits(v)),
    {
        proof {
            lemma_lines_valid();
        }
        write_lines(&mut self.pins, &data_lines(), v);
    }
}

impl Pins for W65C02_Pins {
    closed spec fn spec_pins(&self) -> Seq<Pin> {
        self.pins@
    }

    fn pins(&self) -> (r: &Vec<Pin>) {
        &self.pins
    }

    fn pins_mut(&mut self) -> (r: &mut Vec<Pin>) {
        &mut self.pins
    }
}

} // verus!
