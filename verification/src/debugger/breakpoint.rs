use vstd::prelude::*;
use crate::machine::{Addr, MOS6502Machine};
use crate::mos6502::{Mnemonic, Operation};
use vstd::std_specs::cmp::PartialEqSpecImpl;

verus! {

/// A condition on which the debugger stops the machine.
#[derive(Debug, Copy, Clone)]
pub enum Breakpoint {
    Address(Addr),
    Interrupt,
    Instruction(Mnemonic),
    BRK,
    Opcode(u8),
    Byte((Addr, u8)),
}

impl PartialEq for Breakpoint {
    fn eq(&self, other: &Self) -> (r: bool) {
        match (self, other) {
            (Breakpoint::Address(a), Breakpoint::Address(b)) => *a == *b,
            (Breakpoint::Interrupt, Breakpoint::Interrupt) => true,
            (Breakpoint::Instruction(a), Breakpoint::Instruction(b)) => *a == *b,
            (Breakpoint::BRK, Breakpoint::BRK) => true,
            (Breakpoint::Opcode(a), Breakpoint::Opcode(b)) => *a == *b,
            (Breakpoint::Byte((a1, v1)), Breakpoint::Byte((a2, v2))) => *a1 == *a2 && *v1 == *v2,
            _ => false,
        }
    }
}

impl PartialEqSpecImpl for Breakpoint {
    open spec fn obeys_eq_spec() -> bool {
        true
    }

    open spec fn eq_spec(&self, other: &Self) -> bool {
        *self == *other
    }
}

impl Eq for Breakpoint {

}

impl Breakpoint {
    /// The breakpoint holds for the operation `op` about to run on the machine `m`.
    pub open spec fn spec_applies(self, op: &Operation, m: &MOS6502Machine) -> bool {
        match self {
            Breakpoint::Address(a) => a == m@.regs.counter,
            Breakpoint::Interrupt => false,
            Breakpoint::Instruction(mn) => op.def.mnemonic == mn,
            Breakpoint::BRK => op.def.mnemonic == Mnemonic::BRK,
            Breakpoint::Opcode(o) => op.def.opcode == o,
            Breakpoint::Byte((addr, val)) => addr == m@.regs.counter && val == m@.read(
                m@.regs.counter,
            ),
        }
    }

    /// Tells whether the breakpoint holds for `op` on `machine`; interrupt
    /// breakpoints are not implemented.
    pub fn applies(&self, op: &Operation, machine: &MOS6502Machine) -> (r: bool)
        requires
            !(*self is Interrupt),
        ensures
            r == self.spec_applies(op, machine),
    {
        match *self {
            Breakpoint::Address(a) => a == machine.PC(),
            Breakpoint::Interrupt => false,
            Breakpoint::Instruction(m) => op.def.mnemonic == m,
            Breakpoint::BRK => op.def.mnemonic == Mnemonic::BRK,
            Breakpoint::Opcode(o) => op.def.opcode == o,
            Breakpoint::Byte((addr, val)) => {
                addr == machine.PC() && val == machine.get_byte(machine.PC())
            },
        }
    }
}

} // verus!
