use vstd::prelude::*;
use vstd::string::StringExecFns;
use super::{AddressMode, Mnemonic};

verus! {

/// The static description of one opcode: its mnemonic, base cycle count,
/// whether crossing a page costs a cycle, its addressing mode and the name
/// of the routine that executes it.
#[derive(Debug)]
pub struct OperationDef {
    pub opcode: u8,
    pub mnemonic: Mnemonic,
    pub cycles: u8,
    pub page_boundary_cycle: bool,
    pub address_mode: AddressMode,
    pub fn_name: String,
}

impl Clone for OperationDef {
    fn clone(&self) -> (r: Self)
        ensures
            r == *self,
    {
        OperationDef {
            opcode: self.opcode,
            mnemonic: self.mnemonic,
            cycles: self.cycles,
            page_boundary_cycle: self.page_boundary_cycle,
            address_mode: self.address_mode,
            fn_name: self.fn_name.clone(),
        }
    }
}

impl Default for OperationDef {
    /// NOP is the default operation.
    fn default() -> (r: Self)
        ensures
            r.opcode == 0xea,
            r.mnemonic == Mnemonic::NOP,
            r.cycles == 2,
            !r.page_boundary_cycle,
            r.address_mode == AddressMode::Implicit,
            r.fn_name@ == "op_nop"@,
    {
        OperationDef {
            opcode: 0xea,
            mnemonic: Mnemonic::NOP,
            cycles: 2,
            page_boundary_cycle: false,
            address_mode: AddressMode::Implicit,
            fn_name: String::from_str("op_nop"),
        }
    }
}

/// The number of bytes an instruction occupies in each addressing mode.
pub open spec fn spec_mode_len(mode: AddressMode) -> u8 {
    match mode {
        AddressMode::Implicit | AddressMode::Accumulator => 1,
        AddressMode::Immediate | AddressMode::Relative | AddressMode::ZeroPage
        | AddressMode::ZeroPageX | AddressMode::ZeroPageY | AddressMode::IndirectX
        | AddressMode::IndirectY => 2,
        AddressMode::Absolute | AddressMode::AbsoluteX | AddressMode::AbsoluteY
        | AddressMode::Indirect => 3,
    }
}

impl OperationDef {
    /// The length of the instruction in bytes, opcode included.
    pub fn len(&self) -> (r: u8)
        ensures
            r == spec_mode_len(self.address_mode),
            1 <= r <= 3,
    {
        match self.address_mode {
            AddressMode::Implicit | AddressMode::Accumulator => 1,
            AddressMode::Immediate | AddressMode::Relative | AddressMode::ZeroPage
            | AddressMode::ZeroPageX | AddressMode::ZeroPageY | AddressMode::IndirectX
            | AddressMode::IndirectY => 2,
            AddressMode::Absolute | AddressMode::AbsoluteX | AddressMode::AbsoluteY
            | AddressMode::Indirect => 3,
        }
    }

    /// The length of the operand in bytes.
    pub fn operand_len(&self) -> (r: u8)
        ensures
            r == spec_mode_len(self.address_mode) - 1,
            r <= 2,
    {
        self.len() - 1
    }
}

} // verus!
