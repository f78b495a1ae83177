use vstd::prelude::*;
use super::pin::{Pin, PinDirection, PinView};
use super::port::{bit, Port};
use crate::text::same_text;

verus! {

/// What enabling or disabling a tri-state pin does; other pins stay as they are.
pub open spec fn with_tri_state(p: PinView, enable: bool) -> PinView {
    if p.tri_state {
        PinView { enabled: enable, ..p }
    } else {
        p
    }
}

/// The pins of a component, numbered from 1 as on the chip.
pub trait Pins {
    spec fn spec_pins(&self) -> Seq<Pin>;

    fn pins(&self) -> (r: &Vec<Pin>)
        ensures
            r@ == self.spec_pins(),
    ;

    fn pins_mut(&mut self) -> (r: &mut Vec<Pin>)
        ensures
            (*r)@ == old(self).spec_pins(),
            final(self).spec_pins() == final(r)@,
    ;

    /// The number of pins.
    fn size(&self) -> (r: usize)
        ensures
            r == self.spec_pins().len(),
    {
        self.pins().len()
    }

    /// The pin numbered `id`, counting from 1.
    fn by_id(&self, id: usize) -> (r: Option<&Pin>)
        ensures
            match r {
                Some(p) => 1 <= id <= self.spec_pins().len() && *p == self.spec_pins()[id - 1],
                None => !(1 <= id <= self.spec_pins().len()),
            },
    {
        let n = self.size();
        if id > 0 && id <= n {
            Some(&self.pins()[id - 1])
        } else {
            None
        }
    }

    /// The first pin whose full name is `name`.
    fn by_name(&self, name: &str) -> (r: Option<&Pin>)
        ensures
            match r {
                Some(p) => exists|i: int|
                    0 <= i < self.spec_pins().len() && *p == self.spec_pins()[i]
                        && p@.full_name() == name@ && forall|j: int|
                        0 <= j < i ==> #[trigger] self.spec_pins()[j]@.full_name() != name@,
                None => forall|i: int|
                    0 <= i < self.spec_pins().len() ==> #[trigger] self.spec_pins()[i]@.full_name()
                        != name@,
            },
    {
        let pins = self.pins();
        let mut i: usize = 0;
        while i < pins.len()
            invariant
                pins@ == self.spec_pins(),
                i <= pins@.len(),
                forall|j: int| 0 <= j < i ==> #[trigger] pins@[j]@.full_name() != name@,
            decreases pins.len() - i,
        {
            let n = pins[i].name();
            if same_text(n.as_str(), name) {
                return Some(&pins[i]);
            }
            i = i + 1;
        }
        None
    }

    /// Enables or disables every tri-state pin.
    fn set_all_tri_state(&mut self, enable: bool)
        ensures
            final(self).spec_pins().len() == old(self).spec_pins().len(),
            forall|i: int|
                0 <= i < old(self).spec_pins().len() ==> #[trigger] final(self).spec_pins()[i]@
                    == with_tri_state(old(self).spec_pins()[i]@, enable),
    {
        set_tri_state_of_all(self.pins_mut(), enable);
    }
}

/// Enables or disables every tri-state pin of `pins`.
pub fn set_tri_state_of_all(pins: &mut Vec<Pin>, enable: bool)
    ensures
        final(pins)@.len() == old(pins)@.len(),
        forall|i: int|
            0 <= i < old(pins)@.len() ==> #[trigger] final(pins)@[i]@ == with_tri_state(
                old(pins)@[i]@,
                enable,
            ),
{
    let ghost start = pins@;
    let mut i: usize = 0;
    while i < pins.len()
        invariant
            pins@.len() == start.len(),
            i <= start.len(),
            forall|j: int|
                0 <= j < start.len() ==> #[trigger] pins@[j]@ == if j < i {
                    with_tri_state(start[j]@, enable)
                } else {
                    start[j]@
                },
        decreases start.len() - i,
    {
        if pins[i].tri_state() {
            let mut p = pins[i].clone();
            let _ = p.set_enable(enable);
            pins.set(i, p);
        }
        i = i + 1;
    }
}


/// The positions `pos` name at most 16 pins of a chip of `n` pins, no two
/// alike: the lines of a bus, line `k` on pin `pos[k]`.
pub open spec fn valid_lines(n: nat, pos: Seq<usize>) -> bool {
    &&& pos.len() <= 16
    &&& forall|k: int| 0 <= k < pos.len() ==> (#[trigger] pos[k] as int) < n
    &&& forall|k: int, l: int| 0 <= k < l < pos.len() ==> #[trigger] pos[k] != #[trigger] pos[l]
}

/// `r` is what the lines `pos` of `pins` read: bit `k` is the state of the
/// pin of line `k`; the bits above the lines are clear.
pub open spec fn lines_read(pins: Seq<Pin>, pos: Seq<usize>, r: u16) -> bool {
    forall|i: int|
        0 <= i < 16 ==> #[trigger] bit(r, i) == (i < pos.len() && pins[pos[i] as int]@.value)
}

/// No line of `pos` is on pin `i`.
pub open spec fn off_lines(pos: Seq<usize>, i: int) -> bool {
    forall|k: int| 0 <= k < pos.len() ==> #[trigger] pos[k] as int != i
}

/// `after` is `before` with the pin of each line `k` changed by `f(k, ..)`;
/// the pins off the lines stay.
pub open spec fn lines_changed(
    after: Seq<Pin>,
    before: Seq<Pin>,
    pos: Seq<usize>,
    f: spec_fn(int, PinView) -> PinView,
) -> bool {
    &&& after.len() == before.len()
    &&& forall|k: int|
        0 <= k < pos.len() ==> #[trigger] after[pos[k] as int]@ == f(k, before[pos[k] as int]@)
    &&& forall|i: int| 0 <= i < before.len() && off_lines(pos, i) ==> #[trigger] after[i] == before[i]
}

/// Writing `v` to the lines: line `k` is written with bit `k`.
pub open spec fn write_bits(v: u16) -> spec_fn(int, PinView) -> PinView {
    |k: int, p: PinView| p.spec_write(bit(v, k)).0
}

/// Turning the lines to the direction `dir`.
pub open spec fn turn_to(dir: PinDirection) -> spec_fn(int, PinView) -> PinView {
    |k: int, p: PinView| PinView { direction: dir, ..p }
}

/// Two numbers with the same 16 bits are equal.
proof fn lemma_same_bits(a: u16, b: u16)
    requires
        forall|i: int| 0 <= i < 16 ==> #[trigger] bit(a, i) == bit(b, i),
    ensures
        a == b,
{
    assert(bit(a, 0) == bit(b, 0));
    assert(bit(a, 1) == bit(b, 1));
    assert(bit(a, 2) == bit(b, 2));
    assert(bit(a, 3) == bit(b, 3));
    assert(bit(a, 4) == bit(b, 4));
    assert(bit(a, 5) == bit(b, 5));
    assert(bit(a, 6) == bit(b, 6));
    assert(bit(a, 7) == bit(b, 7));
    assert(bit(a, 8) == bit(b, 8));
    assert(bit(a, 9) == bit(b, 9));
    assert(bit(a, 10) == bit(b, 10));
    assert(bit(a, 11) == bit(b, 11));
    assert(bit(a, 12) == bit(b, 12));
    assert(bit(a, 13) == bit(b, 13));
    assert(bit(a, 14) == bit(b, 14));
    assert(bit(a, 15) == bit(b, 15));
    assert(a == b) by (bit_vector)
        requires
            ((a >> 0u16) & 1 == 1) == ((b >> 0u16) & 1 == 1),
            ((a >> 1u16) & 1 == 1) == ((b >> 1u16) & 1 == 1),
            ((a >> 2u16) & 1 == 1) == ((b >> 2u16) & 1 == 1),
            ((a >> 3u16) & 1 == 1) == ((b >> 3u16) & 1 == 1),
            ((a >> 4u16) & 1 == 1) == ((b >> 4u16) & 1 == 1),
            ((a >> 5u16) & 1 == 1) == ((b >> 5u16) & 1 == 1),
            ((a >> 6u16) & 1 == 1) == ((b >> 6u16) & 1 == 1),
            ((a >> 7u16) & 1 == 1) == ((b >> 7u16) & 1 == 1),
            ((a >> 8u16) & 1 == 1) == ((b >> 8u16) & 1 == 1),
            ((a >> 9u16) & 1 == 1) == ((b >> 9u16) & 1 == 1),
            ((a >> 10u16) & 1 == 1) == ((b >> 10u16) & 1 == 1),
            ((a >> 11u16) & 1 == 1) == ((b >> 11u16) & 1 == 1),
            ((a >> 12u16) & 1 == 1) == ((b >> 12u16) & 1 == 1),
            ((a >> 13u16) & 1 == 1) == ((b >> 13u16) & 1 == 1),
            ((a >> 14u16) & 1 == 1) == ((b >> 14u16) & 1 == 1),
            ((a >> 15u16) & 1 == 1) == ((b >> 15u16) & 1 == 1),
    ;
}

/// The lines of a bus read one number only.
pub proof fn lemma_lines_read_unique(pins: Seq<Pin>, pos: Seq<usize>, a: u16, b: u16)
    requires
        lines_read(pins, pos, a),
        lines_read(pins, pos, b),
    ensures
        a == b,
{
    assert forall|i: int| 0 <= i < 16 implies #[trigger] bit(a, i) == bit(b, i) by {
        assert(bit(a, i) == (i < pos.len() && pins[pos[i] as int]@.value));
        assert(bit(b, i) == (i < pos.len() && pins[pos[i] as int]@.value));
    }
    lemma_same_bits(a, b);
}

/// The number that the lines `pos` of `pins` read.
pub fn read_lines(pins: &Vec<Pin>, pos: &Vec<usize>) -> (r: u16)
    requires
        valid_lines(pins@.len(), pos@),
    ensures
        lines_read(pins@, pos@, r),
{
    let mut v: Vec<Pin> = Vec::new();
    let mut k: usize = 0;
    while k < pos.len()
        invariant
            valid_lines(pins@.len(), pos@),
            k <= pos@.len(),
            v@.len() == k,
            forall|j: int| 0 <= j < k ==> (#[trigger] v@[j])@ == pins@[pos@[j] as int]@,
        decreases pos.len() - k,
    {
        v.push(pins[pos[k]].clone());
        k = k + 1;
    }
    let port = Port::from_pins(pos.len() as u8, v);
    let r = port.read();
    assert forall|i: int| 0 <= i < 16 implies #[trigger] bit(r, i) == (i < pos@.len()
        && pins@[pos@[i] as int]@.value) by {
        assert(port.reads(r));
        assert(bit(r, i) == (i < port.spec_width() && port.spec_pins()[i]@.value));
    }
    r
}

/// Writes bit `k` of `v` to the pin of line `k`; input pins refuse the write.
pub fn write_lines(pins: &mut Vec<Pin>, pos: &Vec<usize>, v: u16)
    requires
        valid_lines(old(pins)@.len(), pos@),
    ensures
        lines_changed(final(pins)@, old(pins)@, pos@, write_bits(v)),
{
    let mut k: usize = 0;
    while k < pos.len()
        invariant
            valid_lines(old(pins)@.len(), pos@),
            k <= pos@.len(),
            pins@.len() == old(pins)@.len(),
            forall|j: int|
                0 <= j < k ==> #[trigger] pins@[pos@[j] as int]@ == write_bits(v)(
                    j,
                    old(pins)@[pos@[j] as int]@,
                ),
            forall|i: int|
                0 <= i < pins@.len() && (forall|j: int| 0 <= j < k ==> #[trigger] pos@[j] as int != i)
                    ==> #[trigger] pins@[i] == old(pins)@[i],
        decreases pos.len() - k,
    {
        let at = pos[k];
        assert(forall|j: int| 0 <= j < k ==> #[trigger] pos@[j] as int != at);
        let b = (v >> (k as u16)) & 1 == 1;
        let mut p = pins[at].clone();
        let _ = p.write(b);
        pins.set(at, p);
        k = k + 1;
    }
}

/// Turns the pin of every line to the direction `dir`.
pub fn direct_lines(pins: &mut Vec<Pin>, pos: &Vec<usize>, dir: PinDirection)
    requires
        valid_lines(old(pins)@.len(), pos@),
    ensures
        lines_changed(final(pins)@, old(pins)@, pos@, turn_to(dir)),
{
    let mut k: usize = 0;
    while k < pos.len()
        invariant
            valid_lines(old(pins)@.len(), pos@),
            k <= pos@.len(),
            pins@.len() == old(pins)@.len(),
            forall|j: int|
                0 <= j < k ==> #[trigger] pins@[pos@[j] as int]@ == turn_to(dir)(
                    j,
                    old(pins)@[pos@[j] as int]@,
                ),
            forall|i: int|
                0 <= i < pins@.len() && (forall|j: int| 0 <= j < k ==> #[trigger] pos@[j] as int != i)
                    ==> #[trigger] pins@[i] == old(pins)@[i],
        decreases pos.len() - k,
    {
        let at = pos[k];
        assert(forall|j: int| 0 <= j < k ==> #[trigger] pos@[j] as int != at);
        let mut p = pins[at].clone();
        p.set_direction(dir);
        pins.set(at, p);
        k = k + 1;
    }
}

} // verus!
