use vstd::prelude::*;
use super::pin::{Pin, PinDirection, PinView};

verus! {

/// Bit `i` of `v` is set.
pub open spec fn bit(v: u16, i: int) -> bool {
    (v >> (i as u16)) & 1 == 1
}

/// Setting bit `i` of a value whose bits from `i` on are clear changes bit
/// `i` alone; the bits above it stay clear.
proof fn lemma_or_bit(s: u16, v: u16, i: u16, j: u16)
    requires
        v <= 1,
        i < 16,
        j < 16,
        s >> i == 0,
    ensures
        j == i ==> ((s | (v << i)) >> j) & 1 == v,
        j != i ==> ((s | (v << i)) >> j) & 1 == (s >> j) & 1,
        (s | (v << i)) >> (i + 1) == 0 || i == 15,
{
    assert(j == i ==> ((s | (v << i)) >> j) & 1 == v) by (bit_vector)
        requires
            v <= 1,
            i < 16,
            s >> i == 0,
    ;
    assert(j != i ==> ((s | (v << i)) >> j) & 1 == (s >> j) & 1) by (bit_vector)
        requires
            v <= 1,
            i < 16,
            j < 16,
    ;
    assert((s | (v << i)) >> (i + 1) == 0 || i == 15) by (bit_vector)
        requires
            v <= 1,
            i < 16,
            s >> i == 0,
    ;
}

/// Zero has no bit set.
proof fn lemma_zero_bits(j: u16)
    ensures
        (0u16 >> j) & 1 == 0,
        0u16 >> j == 0,
{
    assert((0u16 >> j) & 1 == 0) by (bit_vector);
    assert(0u16 >> j == 0) by (bit_vector);
}

/// `state & (1 << i)` is non-zero exactly when bit `i` is set.
proof fn lemma_mask_bit(state: u16, i: u16)
    requires
        i < 16,
    ensures
        (state & (1u16 << i) > 0) == ((state >> i) & 1 == 1),
{
    assert((state & (1u16 << i) > 0) == ((state >> i) & 1 == 1)) by (bit_vector)
        requires
            i < 16,
    ;
}

/// A group of up to 16 pins read and written together as one number, pin
/// `i` standing for bit `i`.
pub struct Port {
    width: u8,
    pins: Vec<Pin>,
}

impl Port {
    pub closed spec fn spec_width(&self) -> u8 {
        self.width
    }

    pub closed spec fn spec_pins(&self) -> Seq<Pin> {
        self.pins@
    }

    /// The width is at most 16 and there is a pin for every bit.
    pub open spec fn wf(&self) -> bool {
        &&& self.spec_width() <= 16
        &&& self.spec_pins().len() >= self.spec_width()
    }

    /// The number whose bit `i` is the state of pin `i`, for each `i`
    /// below the width; higher bits are clear.
    pub open spec fn reads(&self, r: u16) -> bool {
        forall|i: int|
            0 <= i < 16 ==> #[trigger] bit(r, i) == (i < self.spec_width()
                && self.spec_pins()[i]@.value)
    }

    /// `self` is `before` after `write(state)`: pin `i` of the width was
    /// written with bit `i` of `state`.
    pub open spec fn wrote(&self, before: &Port, state: u16) -> bool {
        &&& self.spec_width() == before.spec_width()
        &&& self.spec_pins().len() == before.spec_pins().len()
        &&& forall|i: int|
            0 <= i < before.spec_pins().len() ==> #[trigger] self.spec_pins()[i]@ == if i
                < before.spec_width() {
                before.spec_pins()[i]@.spec_write(bit(state, i)).0
            } else {
                before.spec_pins()[i]@
            }
    }

    /// `self` is `before` after `set_direction(dir)`.
    pub open spec fn directed(&self, before: &Port, dir: PinDirection) -> bool {
        &&& self.spec_width() == before.spec_width()
        &&& self.spec_pins().len() == before.spec_pins().len()
        &&& forall|i: int|
            0 <= i < before.spec_pins().len() ==> #[trigger] self.spec_pins()[i]@ == if i
                < before.spec_width() {
                PinView { direction: dir, ..before.spec_pins()[i]@ }
            } else {
                before.spec_pins()[i]@
            }
    }

    /// `width` unnamed pins of the given direction.
    pub fn new(width: u8, direction: PinDirection) -> (r: Self)
        requires
            width <= 16,
        ensures
            r.wf(),
            r.spec_width() == width,
            r.spec_pins().len() == width,
            forall|i: int|
                0 <= i < width ==> #[trigger] r.spec_pins()[i]@ == (PinView {
                    id: None,
                    inner_id: None,
                    name: ""@,
                    group_id: None,
                    value: false,
                    enabled: true,
                    direction,
                    tri_state: false,
                    io: false,
                }),
    {
        let mut v: Vec<Pin> = Vec::with_capacity(width as usize);
        let mut i: u8 = 0;
        while i < width
            invariant
                i <= width,
                v@.len() == i,
                forall|j: int|
                    0 <= j < i ==> #[trigger] v@[j]@ == (PinView {
                        id: None,
                        inner_id: None,
                        name: ""@,
                        group_id: None,
                        value: false,
                        enabled: true,
                        direction,
                        tri_state: false,
                        io: false,
                    }),
            decreases width - i,
        {
            proof {
                reveal_strlit("");
            }
            v.push(Pin::new("", direction, false, false));
            i = i + 1;
        }
        Port::from_pins(width, v)
    }

    /// A port over the given pins.
    pub fn from_pins(width: u8, pins: Vec<Pin>) -> (r: Self)
        requires
            width <= 16,
            pins@.len() >= width,
        ensures
            r.wf(),
            r.spec_width() == width,
            r.spec_pins() == pins@,
    {
        Port { width, pins }
    }

    pub fn width(&self) -> (r: u8)
        ensures
            r == self.spec_width(),
    {
        self.width
    }

    /// The states of the pins as a number.
    pub fn read(&self) -> (r: u16)
        requires
            self.wf(),
        ensures
            self.reads(r),
    {
        let mut s: u16 = 0;
        let mut i: u8 = 0;
        proof {
            lemma_zero_bits(0);
        }
        assert forall|j: int| 0 <= j < 16 implies !#[trigger] bit(0u16, j) by {
            lemma_zero_bits(j as u16);
        }
        while i < self.width
            invariant
                self.wf(),
                i <= self.spec_width(),
                i == 16 || s >> (i as u16) == 0,
                forall|j: int| 0 <= j < 16 ==> #[trigger] bit(s, j) == (j < i && self.spec_pins()[j]@.value),
            decreases self.width - i,
        {
            let v: u16 = if self.pins[i as usize].state() {
                1
            } else {
                0
            };
            let ghost prev = s;
            s = s | (v << (i as u16));
            proof {
                assert forall|j: int| 0 <= j < 16 implies #[trigger] bit(s, j) == (j < i + 1
                    && self.spec_pins()[j]@.value) by {
                    lemma_or_bit(prev, v, i as u16, j as u16);
                    assert(bit(prev, j) == (j < i && self.spec_pins()[j]@.value));
                    assert(s == prev | (v << (i as u16)));
                    if j == i {
                        assert((s >> (j as u16)) & 1 == v);
                    } else {
                        assert((s >> (j as u16)) & 1 == (prev >> (j as u16)) & 1);
                    }
                }
                lemma_or_bit(prev, v, i as u16, 0);
            }
            i = i + 1;
        }
        s
    }

    /// The directions of the pins as a number: bit `i` is set when pin `i`
    /// is an output.
    pub fn directions(&self) -> (r: u16)
        requires
            self.wf(),
        ensures
            forall|i: int|
                0 <= i < 16 ==> #[trigger] bit(r, i) == (i < self.spec_width()
                    && self.spec_pins()[i]@.direction == PinDirection::Output),
    {
        let mut s: u16 = 0;
        let mut i: u8 = 0;
        proof {
            lemma_zero_bits(0);
        }
        assert forall|j: int| 0 <= j < 16 implies !#[trigger] bit(0u16, j) by {
            lemma_zero_bits(j as u16);
        }
        while i < self.width
            invariant
                self.wf(),
                i <= self.spec_width(),
                i == 16 || s >> (i as u16) == 0,
                forall|j: int|
                    0 <= j < 16 ==> #[trigger] bit(s, j) == (j < i && self.spec_pins()[j]@.direction
                        == PinDirection::Output),
            decreases self.width - i,
        {
            let v: u16 = if self.pins[i as usize].is_output() {
                1
            } else {
                0
            };
            let ghost prev = s;
            s = s | (v << (i as u16));
            proof {
                assert forall|j: int| 0 <= j < 16 implies #[trigger] bit(s, j) == (j < i + 1
                    && self.spec_pins()[j]@.direction == PinDirection::Output) by {
                    lemma_or_bit(prev, v, i as u16, j as u16);
                    assert(bit(prev, j) == (j < i && self.spec_pins()[j]@.direction
                        == PinDirection::Output));
                    if j == i {
                        assert((s >> (j as u16)) & 1 == v);
                    } else {
                        assert((s >> (j as u16)) & 1 == (prev >> (j as u16)) & 1);
                    }
                }
                lemma_or_bit(prev, v, i as u16, 0);
            }
            i = i + 1;
        }
        s
    }

    /// Writes bit `i` of `state` to pin `i`, for each pin of the port; input
    /// pins refuse the write and keep their state.
    pub fn write(&mut self, state: u16)
        requires
            old(self).wf(),
        ensures
            final(self).wf(),
            final(self).wrote(old(self), state),
            final(self).spec_width() == old(self).spec_width(),
            final(self).spec_pins().len() == old(self).spec_pins().len(),
            forall|i: int|
                0 <= i < old(self).spec_pins().len() ==> #[trigger] final(self).spec_pins()[i]@
                    == if i < old(self).spec_width() {
                    old(self).spec_pins()[i]@.spec_write(bit(state, i)).0
                } else {
                    old(self).spec_pins()[i]@
                },
    {
        let mut i: u8 = 0;
        while i < self.width
            invariant
                self.wf(),
                self.spec_width() == old(self).spec_width(),
                i <= self.spec_width(),
                self.spec_pins().len() == old(self).spec_pins().len(),
                forall|j: int|
                    0 <= j < old(self).spec_pins().len() ==> #[trigger] self.spec_pins()[j]@ == if j
                        < i {
                        old(self).spec_pins()[j]@.spec_write(bit(state, j)).0
                    } else {
                        old(self).spec_pins()[j]@
                    },
            decreases self.width - i,
        {
            let flag: u16 = 1u16 << (i as u16);
            let val = state & flag;
            proof {
                lemma_mask_bit(state, i as u16);
            }
            let mut p = self.pins[i as usize].clone();
            let _ = p.write(val > 0);
            self.pins.set(i as usize, p);
            i = i + 1;
        }
    }

    /// Sets the direction of every pin.
    pub fn set_direction(&mut self, dir: PinDirection)
        requires
            old(self).wf(),
        ensures
            final(self).wf(),
            final(self).directed(old(self), dir),
            final(self).spec_width() == old(self).spec_width(),
            final(self).spec_pins().len() == old(self).spec_pins().len(),
            forall|i: int|
                0 <= i < old(self).spec_pins().len() ==> #[trigger] final(self).spec_pins()[i]@
                    == if i < old(self).spec_width() {
                    PinView { direction: dir, ..old(self).spec_pins()[i]@ }
                } else {
                    old(self).spec_pins()[i]@
                },
    {
        let mut i: u8 = 0;
        while i < self.width
            invariant
                self.wf(),
                self.spec_width() == old(self).spec_width(),
                i <= self.spec_width(),
                self.spec_pins().len() == old(self).spec_pins().len(),
                forall|j: int|
                    0 <= j < old(self).spec_pins().len() ==> #[trigger] self.spec_pins()[j]@ == if j
                        < i {
                        PinView { direction: dir, ..old(self).spec_pins()[j]@ }
                    } else {
                        old(self).spec_pins()[j]@
                    },
            decreases self.width - i,
        {
            let mut p = self.pins[i as usize].clone();
            p.set_direction(dir);
            self.pins.set(i as usize, p);
            i = i + 1;
        }
    }

    /// Sets the direction of pin `i` from bit `i` of `dirs`: set is output.
    pub fn set_directions(&mut self, dirs: u16)
        requires
            old(self).wf(),
        ensures
            final(self).wf(),
            final(self).spec_width() == old(self).spec_width(),
            final(self).spec_pins().len() == old(self).spec_pins().len(),
            forall|i: int|
                0 <= i < old(self).spec_pins().len() ==> #[trigger] final(self).spec_pins()[i]@
                    == if i < old(self).spec_width() {
                    PinView {
                        direction: if bit(dirs, i) {
                            PinDirection::Output
                        } else {
                            PinDirection::Input
                        },
                        ..old(self).spec_pins()[i]@
                    }
                } else {
                    old(self).spec_pins()[i]@
                },
    {
        let mut i: u8 = 0;
        while i < self.width
            invariant
                self.wf(),
                self.spec_width() == old(self).spec_width(),
                i <= self.spec_width(),
                self.spec_pins().len() == old(self).spec_pins().len(),
                forall|j: int|
                    0 <= j < old(self).spec_pins().len() ==> #[trigger] self.spec_pins()[j]@ == if j
                        < i {
                        PinView {
                            direction: if bit(dirs, j) {
                                PinDirection::Output
                            } else {
                                PinDirection::Input
                            },
                            ..old(self).spec_pins()[j]@
                        }
                    } else {
                        old(self).spec_pins()[j]@
                    },
            decreases self.width - i,
        {
            let flag: u16 = 1u16 << (i as u16);
            let val = dirs & flag;
            proof {
                lemma_mask_bit(dirs, i as u16);
            }
            let mut p = self.pins[i as usize].clone();
            p.set_direction(PinDirection::from(val > 0));
            self.pins.set(i as usize, p);
            i = i + 1;
        }
    }
}

/// On a port whose pins are all outputs, a read gives back what the last
/// write wrote, on the bits of the port's width.
pub proof fn lemma_port_read_after_write(before: Port, after: Port, state: u16, r: u16)
    requires
        before.wf(),
        forall|i: int|
            0 <= i < before.spec_width() ==> #[trigger] before.spec_pins()[i]@.direction
                == PinDirection::Output,
        after.spec_width() == before.spec_width(),
        after.spec_pins().len() == before.spec_pins().len(),
        forall|i: int|
            0 <= i < before.spec_pins().len() ==> #[trigger] after.spec_pins()[i]@ == if i
                < before.spec_width() {
                before.spec_pins()[i]@.spec_write(bit(state, i)).0
            } else {
                before.spec_pins()[i]@
            },
        after.reads(r),
    ensures
        forall|i: int| 0 <= i < 16 ==> #[trigger] bit(r, i) == (i < before.spec_width() && bit(state, i)),
{
    assert forall|i: int| 0 <= i < 16 implies #[trigger] bit(r, i) == (i < before.spec_width()
        && bit(state, i)) by {
        if i < before.spec_width() {
            assert(after.spec_pins()[i]@ == before.spec_pins()[i]@.spec_write(bit(state, i)).0);
        }
    }
}

} // verus!
