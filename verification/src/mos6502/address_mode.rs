use vstd::prelude::*;

verus! {

/// The addressing modes of the 6502 instruction set.
#[derive(Debug, Copy, Clone, PartialEq, Eq, Structural)]
pub enum AddressMode {
    Implicit,
    Accumulator,
    Immediate,
    Relative,
    ZeroPage,
    ZeroPageX,
    ZeroPageY,
    Absolute,
    AbsoluteX,
    AbsoluteY,
    Indirect,
    IndirectX,
    IndirectY,
}

} // verus!
