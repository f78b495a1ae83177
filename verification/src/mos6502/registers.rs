use vstd::prelude::*;
use super::ProcessorStatus;

verus! {

/// The registers of the 6502: program counter, stack pointer, accumulator,
/// the two index registers and the status register.
#[derive(Debug, Copy, Clone, PartialEq, Eq, Structural)]
pub struct Registers {
    pub counter: u16,
    pub stack: u8,
    pub accumulator: u8,
    pub x: u8,
    pub y: u8,
    pub status: ProcessorStatus,
}

impl Registers {
    pub open spec fn spec_new() -> Registers {
        Registers {
            counter: 0x0200,
            stack: 0xfa,
            accumulator: 0,
            x: 0,
            y: 0,
            status: ProcessorStatus::spec_new(),
        }
    }

    /// The registers at power-on: the program counter at $0200 and the stack pointer at $fa.
    pub fn new() -> (r: Self)
        ensures
            r == Self::spec_new(),
    {
        Registers {
            counter: 0x0200,
            stack: 0xfa,
            accumulator: 0,
            x: 0,
            y: 0,
            status: ProcessorStatus::new(),
        }
    }
}

impl Default for Registers {
    fn default() -> (r: Self)
        ensures
            r == (Registers {
                counter: 0,
                stack: 0,
                accumulator: 0,
                x: 0,
                y: 0,
                status: ProcessorStatus::spec_new(),
            }),
    {
        Registers { counter: 0, stack: 0, accumulator: 0, x: 0, y: 0, status: ProcessorStatus::new() }
    }
}

} // verus!
