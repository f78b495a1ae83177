use std::collections::HashMap;
use vstd::prelude::*;
use super::opcodes_def::is_instruction_table;
use super::{define_operations, OpsMap, Registers};

verus! {

broadcast use vstd::std_specs::hash::group_hash_axioms;

/// The 6502 processor: its registers and its opcode table.
pub struct MOS6502 {
    pub registers: Registers,
    pub operations: OpsMap,
}

impl MOS6502 {
    /// A processor at power-on with the full instruction table.
    pub fn new() -> (r: Self)
        ensures
            r.registers == Registers::spec_new(),
            is_instruction_table(r.operations@),
    {
        let mut operations: OpsMap = HashMap::new();
        define_operations(&mut operations);
        MOS6502 { registers: Registers::new(), operations }
    }
}

} // verus!
