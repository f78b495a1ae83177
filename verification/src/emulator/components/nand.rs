use vstd::prelude::*;
use crate::emulator::abstractions::{Component, Pin, PinDirection, PinStateChange, PinView};
use crate::text::same_text;

verus! {

/// The pins of a NAND element: two inputs and one output.
pub struct NandPins {
    pub in1: Pin,
    pub in2: Pin,
    pub out: Pin,
}

impl NandPins {
    pub fn new() -> (r: Self)
        ensures
            r.in1@ == (PinView {
                id: None,
                inner_id: None,
                name: "in1"@,
                group_id: None,
                value: false,
                enabled: true,
                direction: PinDirection::Input,
                tri_state: false,
                io: false,
            }),
            r.in2@ == (PinView { name: "in2"@, ..r.in1@ }),
            r.out@ == (PinView { name: "out"@, direction: PinDirection::Output, ..r.in1@ }),
    {
        NandPins { in1: Pin::input("in1"), in2: Pin::input("in2"), out: Pin::output("out") }
    }
}

/// The logic of a NAND element: what it gives for two inputs. The ordinary
/// logic gives the negated conjunction; another may model a faulty part.
pub trait INand {
    /// The value the logic gives for the inputs.
    spec fn spec_execute(&self, in0: bool, in1: bool) -> bool;

    fn execute(&self, in0: bool, in1: bool) -> (r: bool)
        ensures
            r == self.spec_execute(in0, in1),
    ;
}

/// The ordinary NAND logic.
pub struct NandImpl;

impl INand for NandImpl {
    open spec fn spec_execute(&self, in0: bool, in1: bool) -> bool {
        !(in0 && in1)
    }

    fn execute(&self, in0: bool, in1: bool) -> (r: bool) {
        !(in0 && in1)
    }
}

/// A NAND element: pins and the logic that drives the output from the inputs.
pub struct Nand<T: INand> {
    pins: NandPins,
    logic: T,
}

impl<T: INand> Nand<T> {
    /// Its pins.
    pub closed spec fn spec_pins(&self) -> NandPins {
        self.pins
    }

    /// Its logic.
    pub closed spec fn spec_logic(&self) -> T {
        self.logic
    }

    pub fn new(logic: T) -> (r: Self)
        ensures
            r.spec_logic() == logic,
            r.spec_pins().in1@.name == "in1"@,
            r.spec_pins().in2@.name == "in2"@,
            r.spec_pins().out@.name == "out"@,
            r.spec_pins().in1@.direction == PinDirection::Input,
            r.spec_pins().in2@.direction == PinDirection::Input,
            r.spec_pins().out@.direction == PinDirection::Output,
            !r.spec_pins().in1@.value,
            !r.spec_pins().in2@.value,
            !r.spec_pins().out@.value,
            r.spec_pins().in1@.group_id is None && r.spec_pins().in1@.inner_id is None,
            r.spec_pins().in2@.group_id is None && r.spec_pins().in2@.inner_id is None,
            r.spec_pins().out@.group_id is None && r.spec_pins().out@.inner_id is None,
    {
        let pins = NandPins::new();
        Nand { pins, logic }
    }
}

impl<T: INand> PinStateChange for Nand<T> {
    /// The logic and the inputs stay; the output is written with what the
    /// logic gives for the two inputs.
    open spec fn reacted(&self, before: &Self, pin: PinView) -> bool {
        &&& self.spec_logic() == before.spec_logic()
        &&& self.spec_pins().in1 == before.spec_pins().in1
        &&& self.spec_pins().in2 == before.spec_pins().in2
        &&& self.spec_pins().out@ == before.spec_pins().out@.spec_write(
            before.spec_logic().spec_execute(
                before.spec_pins().in1@.value,
                before.spec_pins().in2@.value,
            ),
        ).0
    }

    /// Drives the output with the logic applied to the two inputs.
    fn on_state_change(&mut self, _pin: &Pin) {
        let val = self.logic.execute(self.pins.in1.read(), self.pins.in2.read());
        let _ = self.pins.out.write(val);
    }
}

impl<T: INand> Component for Nand<T> {
    /// The pins are named by their full names.
    open spec fn has_pin(&self, name: Seq<char>) -> bool {
        ||| name == self.spec_pins().in1@.full_name()
        ||| name == self.spec_pins().in2@.full_name()
        ||| name == self.spec_pins().out@.full_name()
    }

    /// The first pin, in the order in1, in2, out, with that full name.
    open spec fn pin(&self, name: Seq<char>) -> PinView {
        if name == self.spec_pins().in1@.full_name() {
            self.spec_pins().in1@
        } else if name == self.spec_pins().in2@.full_name() {
            self.spec_pins().in2@
        } else {
            self.spec_pins().out@
        }
    }

    closed spec fn pin_replaced(&self, before: &Self, name: Seq<char>, p: PinView) -> bool {
        &&& self.logic == before.logic
        &&& if name == before.pins.in1@.full_name() {
            self.pins.in1@ == p && self.pins.in2 == before.pins.in2 && self.pins.out
                == before.pins.out
        } else if name == before.pins.in2@.full_name() {
            self.pins.in2@ == p && self.pins.in1 == before.pins.in1 && self.pins.out
                == before.pins.out
        } else {
            self.pins.out@ == p && self.pins.in1 == before.pins.in1 && self.pins.in2
                == before.pins.in2
        }
    }

    proof fn lemma_pin_replaced(&self, before: &Self, name: Seq<char>, p: PinView, other: Seq<char>) {
    }

    fn get_pin(&self, name: &str) -> (r: Option<&Pin>) {
        let n = self.pins.in1.name();
        if same_text(n.as_str(), name) {
            return Some(&self.pins.in1);
        }
        let n = self.pins.in2.name();
        if same_text(n.as_str(), name) {
            return Some(&self.pins.in2);
        }
        let n = self.pins.out.name();
        if same_text(n.as_str(), name) {
            return Some(&self.pins.out);
        }
        None
    }

    fn get_pin_mut(&mut self, name: &str) -> (r: Option<&mut Pin>) {
        let n = self.pins.in1.name();
        if same_text(n.as_str(), name) {
            return Some(&mut self.pins.in1);
        }
        let n = self.pins.in2.name();
        if same_text(n.as_str(), name) {
            return Some(&mut self.pins.in2);
        }
        let n = self.pins.out.name();
        if same_text(n.as_str(), name) {
            return Some(&mut self.pins.out);
        }
        None
    }
}

} // verus!
