use vstd::prelude::*;
use crate::machine::Addr;
use crate::mos6502::Registers;

verus! {

/// Something that listeners can be told about.
pub trait Event {

}

/// The processor's registers changed.
#[derive(Debug)]
pub struct CpuStateChangeEvent {
    pub registers: Registers,
}

impl CpuStateChangeEvent {
    pub fn new(r: Registers) -> (e: Self)
        ensures
            e.registers == r,
    {
        CpuStateChangeEvent { registers: r }
    }
}

impl Event for CpuStateChangeEvent {

}

/// A memory cell changed its value.
pub struct MemCellChangeEvent {
    pub new_val: u8,
    pub old_val: u8,
    pub addr: Addr,
}

impl Event for MemCellChangeEvent {

}

/// The machine moved on by one step.
pub struct NextEvent {}

impl Event for NextEvent {

}

} // verus!
