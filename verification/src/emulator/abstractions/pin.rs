use vstd::prelude::*;
use vstd::std_specs::convert::FromSpecImpl;
use vstd::string::StringExecFns;
use crate::emulator::EmulatorError;
use crate::text::{spec_decimal, with_number};

verus! {

/// The direction of a pin: read from outside, or driven by its component.
#[derive(Debug, PartialEq, Eq, Copy, Clone, Structural)]
pub enum PinDirection {
    Input,
    Output,
}

impl Default for PinDirection {
    fn default() -> (r: Self)
        ensures
            r == PinDirection::Input,
    {
        PinDirection::Input
    }
}

impl From<bool> for PinDirection {
    fn from(value: bool) -> (r: Self) {
        if value {
            PinDirection::Output
        } else {
            PinDirection::Input
        }
    }
}

impl FromSpecImpl<bool> for PinDirection {
    open spec fn obeys_from_spec() -> bool {
        true
    }

    open spec fn from_spec(value: bool) -> Self {
        if value {
            PinDirection::Output
        } else {
            PinDirection::Input
        }
    }
}

impl From<PinDirection> for bool {
    fn from(value: PinDirection) -> (r: bool) {
        value == PinDirection::Output
    }
}

impl FromSpecImpl<PinDirection> for bool {
    open spec fn obeys_from_spec() -> bool {
        true
    }

    open spec fn from_spec(value: PinDirection) -> bool {
        value == PinDirection::Output
    }
}

impl From<PinDirection> for u8 {
    fn from(value: PinDirection) -> (r: u8) {
        if value == PinDirection::Output {
            1
        } else {
            0
        }
    }
}

impl FromSpecImpl<PinDirection> for u8 {
    open spec fn obeys_from_spec() -> bool {
        true
    }

    open spec fn from_spec(value: PinDirection) -> u8 {
        if value == PinDirection::Output {
            1
        } else {
            0
        }
    }
}

/// A pin of a component. Its identifiers can be set once; writing to an
/// output pin reports whether its state changed, so that whoever drives the
/// pin can pass the change on to the pins linked to it.
#[derive(Debug)]
pub struct Pin {
    id: Option<u8>,
    inner_id: Option<u32>,
    name: String,
    group_id: Option<u8>,
    value: bool,
    enabled: bool,
    direction: PinDirection,
    tri_state: bool,
    io: bool,
}

/// What a pin holds.
pub struct PinView {
    pub id: Option<u8>,
    pub inner_id: Option<u32>,
    pub name: Seq<char>,
    pub group_id: Option<u8>,
    pub value: bool,
    pub enabled: bool,
    pub direction: PinDirection,
    pub tri_state: bool,
    pub io: bool,
}

impl View for Pin {
    type V = PinView;

    closed spec fn view(&self) -> PinView {
        PinView {
            id: self.id,
            inner_id: self.inner_id,
            name: self.name@,
            group_id: self.group_id,
            value: self.value,
            enabled: self.enabled,
            direction: self.direction,
            tri_state: self.tri_state,
            io: self.io,
        }
    }
}

impl PinView {
    /// The full name: the base name followed by the group id in decimal, if any.
    pub open spec fn full_name(self) -> Seq<char> {
        match self.group_id {
            Some(g) => self.name + spec_decimal(g as nat),
            None => self.name,
        }
    }

    pub open spec fn with_value(self, value: bool) -> PinView {
        PinView { value, ..self }
    }

    /// The outcome of writing `val`: an output pin takes the value and tells
    /// whether it changed; an input pin refuses (`None`).
    pub open spec fn spec_write(self, val: bool) -> (PinView, Option<bool>) {
        if self.direction == PinDirection::Output {
            (self.with_value(val), Some(self.value != val))
        } else {
            (self, None)
        }
    }
}

impl Pin {
    pub fn new(name: &str, direction: PinDirection, tri_state: bool, io: bool) -> (r: Self)
        ensures
            r@ == (PinView {
                id: None,
                inner_id: None,
                name: name@,
                group_id: None,
                value: false,
                enabled: true,
                direction,
                tri_state,
                io,
            }),
    {
        Pin {
            id: None,
            inner_id: None,
            name: String::from_str(name),
            group_id: None,
            value: false,
            enabled: true,
            direction,
            tri_state,
            io,
        }
    }

    /// A plain input pin.
    pub fn input(name: &str) -> (r: Self)
        ensures
            r@ == (PinView {
                id: None,
                inner_id: None,
                name: name@,
                group_id: None,
                value: false,
                enabled: true,
                direction: PinDirection::Input,
                tri_state: false,
                io: false,
            }),
    {
        Pin::new(name, PinDirection::Input, false, false)
    }

    /// A plain output pin.
    pub fn output(name: &str) -> (r: Self)
        ensures
            r@ == (PinView {
                id: None,
                inner_id: None,
                name: name@,
                group_id: None,
                value: false,
                enabled: true,
                direction: PinDirection::Output,
                tri_state: false,
                io: false,
            }),
    {
        Pin::new(name, PinDirection::Output, false, false)
    }

    /// Sets the id unless one is set already.
    pub fn set_id(&mut self, id: u8)
        ensures
            final(self)@ == (PinView {
                id: if old(self)@.id is Some {
                    old(self)@.id
                } else {
                    Some(id)
                },
                ..old(self)@
            }),
    {
        if self.id.is_none() {
            self.id = Some(id);
        }
    }

    /// Sets the group id unless one is set already.
    pub fn set_group_id(&mut self, id: u8)
        ensures
            final(self)@ == (PinView {
                group_id: if old(self)@.group_id is Some {
                    old(self)@.group_id
                } else {
                    Some(id)
                },
                ..old(self)@
            }),
    {
        if self.group_id.is_none() {
            self.group_id = Some(id);
        }
    }

    /// Enables or disables a tri-state pin; other pins refuse.
    pub fn set_enable(&mut self, val: bool) -> (r: Result<(), EmulatorError>)
        ensures
            old(self)@.tri_state ==> r is Ok && final(self)@ == (PinView {
                enabled: val,
                ..old(self)@
            }),
            !old(self)@.tri_state ==> r == Err::<(), EmulatorError>(EmulatorError::NotATriStatePin)
                && final(self)@ == old(self)@,
    {
        if !self.tri_state {
            return Err(EmulatorError::NotATriStatePin);
        }
        self.enabled = val;
        Ok(())
    }

    pub fn read(&self) -> (r: bool)
        ensures
            r == self@.value,
    {
        self.state()
    }

    /// The state as a bit.
    pub fn val(&self) -> (r: u8)
        ensures
            r == (if self@.value {
                1u8
            } else {
                0u8
            }),
    {
        if self.state() {
            1
        } else {
            0
        }
    }

    pub fn high(&self) -> (r: bool)
        ensures
            r == self@.value,
    {
        self.state()
    }

    pub fn low(&self) -> (r: bool)
        ensures
            r == !self@.value,
    {
        !self.state()
    }

    /// The name without the group id.
    pub fn base_name(&self) -> (r: String)
        ensures
            r@ == self@.name,
    {
        self.name.clone()
    }

    /// The name, followed by the group id where the pin belongs to a group.
    pub fn name(&self) -> (r: String)
        ensures
            r@ == self@.full_name(),
    {
        match self.group_id {
            Some(g) => with_number(self.name.as_str(), g as u64),
            None => self.name.clone(),
        }
    }

    /// The full name of a pin in a group.
    pub fn group_name(&self) -> (r: Option<String>)
        ensures
            match r {
                Some(n) => self@.group_id is Some && n@ == self@.full_name(),
                None => self@.group_id is None,
            },
    {
        let name = self.name();
        if self.group_id.is_some() {
            Some(name)
        } else {
            None
        }
    }

    pub fn is_output(&self) -> (r: bool)
        ensures
            r == (self@.direction == PinDirection::Output),
    {
        self.direction == PinDirection::Output
    }

    pub fn set_high(&mut self) -> (r: Result<bool, EmulatorError>)
        ensures
            final(self)@ == old(self)@.spec_write(true).0,
            match r {
                Ok(b) => old(self)@.spec_write(true).1 == Some(b),
                Err(e) => old(self)@.spec_write(true).1 is None && (e matches EmulatorError::CantWriteToReadPin(n) && n@ == old(self)@.full_name()),
            },
    {
        self.write(true)
    }

    pub fn set_low(&mut self) -> (r: Result<bool, EmulatorError>)
        ensures
            final(self)@ == old(self)@.spec_write(false).0,
            match r {
                Ok(b) => old(self)@.spec_write(false).1 == Some(b),
                Err(e) => old(self)@.spec_write(false).1 is None && (e matches EmulatorError::CantWriteToReadPin(n) && n@ == old(self)@.full_name()),
            },
    {
        self.write(false)
    }

    /// Writes the opposite of the current state.
    pub fn toggle(&mut self) -> (r: Result<bool, EmulatorError>)
        ensures
            final(self)@ == old(self)@.spec_write(!old(self)@.value).0,
            match r {
                Ok(b) => old(self)@.spec_write(!old(self)@.value).1 == Some(b),
                Err(e) => old(self)@.spec_write(!old(self)@.value).1 is None && (e matches EmulatorError::CantWriteToReadPin(n) && n@ == old(self)@.full_name()),
            },
    {
        let v = self.state();
        self.write(!v)
    }

    /// Every pin reports itself enabled.
    pub fn enabled(&self) -> (r: bool)
        ensures
            r,
    {
        true
    }

    pub fn state(&self) -> (r: bool)
        ensures
            r == self@.value,
    {
        self.value
    }

    pub fn direction(&self) -> (r: PinDirection)
        ensures
            r == self@.direction,
    {
        self.direction
    }

    /// Drives an output pin; tells whether its state changed. An input pin
    /// cannot be written.
    pub fn write(&mut self, val: bool) -> (r: Result<bool, EmulatorError>)
        ensures
            final(self)@ == old(self)@.spec_write(val).0,
            match r {
                Ok(b) => old(self)@.spec_write(val).1 == Some(b),
                Err(e) => old(self)@.spec_write(val).1 is None && (e matches EmulatorError::CantWriteToReadPin(n) && n@ == old(self)@.full_name()),
            },
    {
        if self.is_output() {
            if self.value == val {
                return Ok(false);
            }
            self.value = val;
            Ok(true)
        } else {
            Err(EmulatorError::CantWriteToReadPin(self.name()))
        }
    }

    /// Sets the state of an input pin from the pin that drives it; output
    /// pins keep their state.
    pub fn set_val(&mut self, val: bool)
        ensures
            old(self)@.direction != PinDirection::Output ==> final(self)@ == old(
                self,
            )@.with_value(val),
            old(self)@.direction == PinDirection::Output ==> final(self)@ == old(self)@,
    {
        if !self.is_output() {
            self.value = val;
        }
    }

    pub fn set_direction(&mut self, dir: PinDirection)
        ensures
            final(self)@ == (PinView { direction: dir, ..old(self)@ }),
    {
        self.direction = dir;
    }

    pub fn id(&self) -> (r: Option<u8>)
        ensures
            r == self@.id,
    {
        self.id
    }

    pub fn group_id(&self) -> (r: Option<u8>)
        ensures
            r == self@.group_id,
    {
        self.group_id
    }

    pub fn tri_state(&self) -> (r: bool)
        ensures
            r == self@.tri_state,
    {
        self.tri_state
    }

    pub fn enable(&mut self) -> (r: Result<(), EmulatorError>)
        ensures
            old(self)@.tri_state ==> r is Ok && final(self)@ == (PinView {
                enabled: true,
                ..old(self)@
            }),
            !old(self)@.tri_state ==> r is Err && final(self)@ == old(self)@,
    {
        self.set_enable(true)
    }

    pub fn disable(&mut self) -> (r: Result<(), EmulatorError>)
        ensures
            old(self)@.tri_state ==> r is Ok && final(self)@ == (PinView {
                enabled: false,
                ..old(self)@
            }),
            !old(self)@.tri_state ==> r is Err && final(self)@ == old(self)@,
    {
        self.set_enable(false)
    }

    pub fn inner_id(&self) -> (r: Option<u32>)
        ensures
            r == self@.inner_id,
    {
        self.inner_id
    }

    /// Sets the id under which a circuit knows the pin, unless one is set already.
    pub fn set_inner_id(&mut self, id: u32)
        ensures
            final(self)@ == (PinView {
                inner_id: if old(self)@.inner_id is Some {
                    old(self)@.inner_id
                } else {
                    Some(id)
                },
                ..old(self)@
            }),
    {
        if self.inner_id.is_none() {
            self.inner_id = Some(id);
        }
    }
}

impl Clone for Pin {
    fn clone(&self) -> (r: Self)
        ensures
            r@ == self@,
    {
        Pin {
            id: self.id,
            inner_id: self.inner_id,
            name: self.name.clone(),
            group_id: self.group_id,
            value: self.value,
            enabled: self.enabled,
            direction: self.direction,
            tri_state: self.tri_state,
            io: self.io,
        }
    }
}

/// Reacts to a change of state of a pin.
pub trait PinStateChange: Sized {
    /// `self` is what reacting to the change of a pin that now holds `pin`
    /// made of `before`.
    spec fn reacted(&self, before: &Self, pin: PinView) -> bool;

    fn on_state_change(&mut self, pin: &Pin)
        ensures
            final(self).reacted(old(self), pin@),
    ;
}

impl PinView {
    /// The pin after `set_val(val)`: an input pin takes the state, an output
    /// pin keeps its own.
    pub open spec fn spec_set_val(self, val: bool) -> PinView {
        if self.direction != PinDirection::Output {
            self.with_value(val)
        } else {
            self
        }
    }

    /// The pin after `set_inner_id(id)`: the id is set unless one is already.
    pub open spec fn spec_set_inner_id(self, id: u32) -> PinView {
        PinView {
            inner_id: if self.inner_id is Some {
                self.inner_id
            } else {
                Some(id)
            },
            ..self
        }
    }
}

/// Toggling an output pin twice gives it back its state; each toggle is a change.
pub proof fn lemma_toggle_twice(p: PinView)
    requires
        p.direction == PinDirection::Output,
    ensures
        p.spec_write(!p.value).0.spec_write(p.value).0 == p,
        p.spec_write(!p.value).1 == Some(true),
        p.spec_write(!p.value).0.spec_write(p.value).1 == Some(true),
{
}

/// Writing the state a pin already has changes nothing.
pub proof fn lemma_write_same(p: PinView)
    requires
        p.direction == PinDirection::Output,
    ensures
        p.spec_write(p.value) == (p, Some(false)),
{
}

} // verus!
