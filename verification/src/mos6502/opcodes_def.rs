use std::collections::HashMap;
use vstd::prelude::*;
use vstd::string::StringExecFns;
use super::{AddressMode, Mnemonic, OperationDef};

verus! {

broadcast use vstd::std_specs::hash::group_hash_axioms;

/// The opcode table of a CPU: each opcode with its definition.
pub type OpsMap = HashMap<u8, OperationDef>;

/// The routine families that execute the instructions; an operation
/// definition names its family by `fn_name`.
#[derive(Debug, Copy, Clone, PartialEq, Eq, Structural)]
pub enum OpFamily {
    Arithmetic,
    Bit,
    Bitwise,
    Branch,
    Brk,
    Compare,
    Flag,
    IncDecMem,
    IncDecReg,
    Jmp,
    Jsr,
    Load,
    Nop,
    Pla,
    Plp,
    Push,
    Rotate,
    Rti,
    Rts,
    Shift,
    Store,
    Transfer,
}

/// The routine name under which a family is registered.
pub open spec fn family_name(f: OpFamily) -> Seq<char> {
    match f {
        OpFamily::Arithmetic => "op_arithmetic"@,
        OpFamily::Bit => "op_bit"@,
        OpFamily::Bitwise => "op_bitwise"@,
        OpFamily::Branch => "op_branch"@,
        OpFamily::Brk => "op_brk"@,
        OpFamily::Compare => "op_compare"@,
        OpFamily::Flag => "op_flag"@,
        OpFamily::IncDecMem => "op_incdec_mem"@,
        OpFamily::IncDecReg => "op_incdec_reg"@,
        OpFamily::Jmp => "op_jmp"@,
        OpFamily::Jsr => "op_jsr"@,
        OpFamily::Load => "op_load"@,
        OpFamily::Nop => "op_nop"@,
        OpFamily::Pla => "op_pla"@,
        OpFamily::Plp => "op_plp"@,
        OpFamily::Push => "op_push"@,
        OpFamily::Rotate => "op_rotate"@,
        OpFamily::Rti => "op_rti"@,
        OpFamily::Rts => "op_rts"@,
        OpFamily::Shift => "op_shift"@,
        OpFamily::Store => "op_store"@,
        OpFamily::Transfer => "op_transfer"@,
    }
}

impl OpFamily {
    /// The routine name under which the family is registered.
    pub fn name(&self) -> (r: &'static str)
        ensures
            r@ == family_name(*self),
    {
        match self {
            OpFamily::Arithmetic => "op_arithmetic",
            OpFamily::Bit => "op_bit",
            OpFamily::Bitwise => "op_bitwise",
            OpFamily::Branch => "op_branch",
            OpFamily::Brk => "op_brk",
            OpFamily::Compare => "op_compare",
            OpFamily::Flag => "op_flag",
            OpFamily::IncDecMem => "op_incdec_mem",
            OpFamily::IncDecReg => "op_incdec_reg",
            OpFamily::Jmp => "op_jmp",
            OpFamily::Jsr => "op_jsr",
            OpFamily::Load => "op_load",
            OpFamily::Nop => "op_nop",
            OpFamily::Pla => "op_pla",
            OpFamily::Plp => "op_plp",
            OpFamily::Push => "op_push",
            OpFamily::Rotate => "op_rotate",
            OpFamily::Rti => "op_rti",
            OpFamily::Rts => "op_rts",
            OpFamily::Shift => "op_shift",
            OpFamily::Store => "op_store",
            OpFamily::Transfer => "op_transfer",
        }
    }
}

/// One row of the opcode table.
#[derive(Debug, Copy, Clone, PartialEq, Eq, Structural)]
pub struct OpEntry {
    pub mnemonic: Mnemonic,
    pub cycles: u8,
    pub boundary: bool,
    pub mode: AddressMode,
    pub family: OpFamily,
}

/// The documented 6502 instruction set (and the three illegal NOPs that the
/// emulator accepts), one row per opcode; undefined opcodes have no row.
pub open spec fn spec_op_entry(opcode: u8) -> Option<OpEntry> {
    match opcode {
        0x00 => Some(OpEntry { mnemonic: Mnemonic::BRK, cycles: 7, boundary: false, mode: AddressMode::Implicit, family: OpFamily::Brk }),
        0x01 => Some(OpEntry { mnemonic: Mnemonic::ORA, cycles: 6, boundary: false, mode: AddressMode::IndirectX, family: OpFamily::Bitwise }),
        0x04 => Some(OpEntry { mnemonic: Mnemonic::NOP, cycles: 3, boundary: false, mode: AddressMode::ZeroPage, family: OpFamily::Nop }),
        0x05 => Some(OpEntry { mnemonic: Mnemonic::ORA, cycles: 3, boundary: false, mode: AddressMode::ZeroPage, family: OpFamily::Bitwise }),
        0x06 => Some(OpEntry { mnemonic: Mnemonic::ASL, cycles: 5, boundary: false, mode: AddressMode::ZeroPage, family: OpFamily::Shift }),
        0x08 => Some(OpEntry { mnemonic: Mnemonic::PHP, cycles: 3, boundary: false, mode: AddressMode::Implicit, family: OpFamily::Push }),
        0x09 => Some(OpEntry { mnemonic: Mnemonic::ORA, cycles: 2, boundary: false, mode: AddressMode::Immediate, family: OpFamily::Bitwise }),
        0x0a => Some(OpEntry { mnemonic: Mnemonic::ASL, cycles: 2, boundary: false, mode: AddressMode::Accumulator, family: OpFamily::Shift }),
        0x0d => Some(OpEntry { mnemonic: Mnemonic::ORA, cycles: 4, boundary: false, mode: AddressMode::Absolute, family: OpFamily::Bitwise }),
        0x0e => Some(OpEntry { mnemonic: Mnemonic::ASL, cycles: 6, boundary: false, mode: AddressMode::Absolute, family: OpFamily::Shift }),
        0x10 => Some(OpEntry { mnemonic: Mnemonic::BPL, cycles: 2, boundary: true, mode: AddressMode::Relative, family: OpFamily::Branch }),
        0x11 => Some(OpEntry { mnemonic: Mnemonic::ORA, cycles: 5, boundary: true, mode: AddressMode::IndirectY, family: OpFamily::Bitwise }),
        0x15 => Some(OpEntry { mnemonic: Mnemonic::ORA, cycles: 4, boundary: false, mode: AddressMode::ZeroPageX, family: OpFamily::Bitwise }),
        0x16 => Some(OpEntry { mnemonic: Mnemonic::ASL, cycles: 6, boundary: false, mode: AddressMode::ZeroPageX, family: OpFamily::Shift }),
        0x18 => Some(OpEntry { mnemonic: Mnemonic::CLC, cycles: 2, boundary: false, mode: AddressMode::Implicit, family: OpFamily::Flag }),
        0x19 => Some(OpEntry { mnemonic: Mnemonic::ORA, cycles: 4, boundary: true, mode: AddressMode::AbsoluteY, family: OpFamily::Bitwise }),
        0x1d => Some(OpEntry { mnemonic: Mnemonic::ORA, cycles: 4, boundary: true, mode: AddressMode::AbsoluteX, family: OpFamily::Bitwise }),
        0x1e => Some(OpEntry { mnemonic: Mnemonic::ASL, cycles: 7, boundary: false, mode: AddressMode::AbsoluteX, family: OpFamily::Shift }),
        0x20 => Some(OpEntry { mnemonic: Mnemonic::JSR, cycles: 6, boundary: false, mode: AddressMode::Absolute, family: OpFamily::Jsr }),
        0x21 => Some(OpEntry { mnemonic: Mnemonic::AND, cycles: 6, boundary: false, mode: AddressMode::IndirectX, family: OpFamily::Bitwise }),
        0x24 => Some(OpEntry { mnemonic: Mnemonic::BIT, cycles: 3, boundary: false, mode: AddressMode::ZeroPage, family: OpFamily::Bit }),
        0x25 => Some(OpEntry { mnemonic: Mnemonic::AND, cycles: 3, boundary: false, mode: AddressMode::ZeroPage, family: OpFamily::Bitwise }),
        0x26 => Some(OpEntry { mnemonic: Mnemonic::ROL, cycles: 5, boundary: false, mode: AddressMode::ZeroPage, family: OpFamily::Rotate }),
        0x28 => Some(OpEntry { mnemonic: Mnemonic::PLP, cycles: 4, boundary: false, mode: AddressMode::Implicit, family: OpFamily::Plp }),
        0x29 => Some(OpEntry { mnemonic: Mnemonic::AND, cycles: 2, boundary: false, mode: AddressMode::Immediate, family: OpFamily::Bitwise }),
        0x2a => Some(OpEntry { mnemonic: Mnemonic::ROL, cycles: 2, boundary: false, mode: AddressMode::Accumulator, family: OpFamily::Rotate }),
        0x2c => Some(OpEntry { mnemonic: Mnemonic::BIT, cycles: 4, boundary: false, mode: AddressMode::Absolute, family: OpFamily::Bit }),
        0x2d => Some(OpEntry { mnemonic: Mnemonic::AND, cycles: 4, boundary: false, mode: AddressMode::Absolute, family: OpFamily::Bitwise }),
        0x2e => Some(OpEntry { mnemonic: Mnemonic::ROL, cycles: 6, boundary: false, mode: AddressMode::Absolute, family: OpFamily::Rotate }),
        0x30 => Some(OpEntry { mnemonic: Mnemonic::BMI, cycles: 2, boundary: true, mode: AddressMode::Relative, family: OpFamily::Branch }),
        0x31 => Some(OpEntry { mnemonic: Mnemonic::AND, cycles: 5, boundary: true, mode: AddressMode::IndirectY, family: OpFamily::Bitwise }),
        0x34 => Some(OpEntry { mnemonic: Mnemonic::NOP, cycles: 4, boundary: false, mode: AddressMode::ZeroPageX, family: OpFamily::Nop }),
        0x35 => Some(OpEntry { mnemonic: Mnemonic::AND, cycles: 4, boundary: false, mode: AddressMode::ZeroPageX, family: OpFamily::Bitwise }),
        0x36 => Some(OpEntry { mnemonic: Mnemonic::ROL, cycles: 6, boundary: false, mode: AddressMode::ZeroPageX, family: OpFamily::Rotate }),
        0x38 => Some(OpEntry { mnemonic: Mnemonic::SEC, cycles: 2, boundary: false, mode: AddressMode::Implicit, family: OpFamily::Flag }),
        0x39 => Some(OpEntry { mnemonic: Mnemonic::AND, cycles: 4, boundary: true, mode: AddressMode::AbsoluteY, family: OpFamily::Bitwise }),
        0x3d => Some(OpEntry { mnemonic: Mnemonic::AND, cycles: 4, boundary: true, mode: AddressMode::AbsoluteX, family: OpFamily::Bitwise }),
        0x3e => Some(OpEntry { mnemonic: Mnemonic::ROL, cycles: 7, boundary: false, mode: AddressMode::AbsoluteX, family: OpFamily::Rotate }),
        0x40 => Some(OpEntry { mnemonic: Mnemonic::RTI, cycles: 6, boundary: false, mode: AddressMode::Implicit, family: OpFamily::Rti }),
        0x41 => Some(OpEntry { mnemonic: Mnemonic::EOR, cycles: 6, boundary: false, mode: AddressMode::IndirectX, family: OpFamily::Bitwise }),
        0x45 => Some(OpEntry { mnemonic: Mnemonic::EOR, cycles: 3, boundary: false, mode: AddressMode::ZeroPage, family: OpFamily::Bitwise }),
        0x46 => Some(OpEntry { mnemonic: Mnemonic::LSR, cycles: 5, boundary: false, mode: AddressMode::ZeroPage, family: OpFamily::Shift }),
        0x48 => Some(OpEntry { mnemonic: Mnemonic::PHA, cycles: 3, boundary: false, mode: AddressMode::Implicit, family: OpFamily::Push }),
        0x49 => Some(OpEntry { mnemonic: Mnemonic::EOR, cycles: 2, boundary: false, mode: AddressMode::Immediate, family: OpFamily::Bitwise }),
        0x4a => Some(OpEntry { mnemonic: Mnemonic::LSR, cycles: 2, boundary: false, mode: AddressMode::Accumulator, family: OpFamily::Shift }),
        0x4c => Some(OpEntry { mnemonic: Mnemonic::JMP, cycles: 3, boundary: false, mode: AddressMode::Absolute, family: OpFamily::Jmp }),
        0x4d => Some(OpEntry { mnemonic: Mnemonic::EOR, cycles: 4, boundary: false, mode: AddressMode::Absolute, family: OpFamily::Bitwise }),
        0x4e => Some(OpEntry { mnemonic: Mnemonic::LSR, cycles: 6, boundary: false, mode: AddressMode::Absolute, family: OpFamily::Shift }),
        0x50 => Some(OpEntry { mnemonic: Mnemonic::BVC, cycles: 2, boundary: true, mode: AddressMode::Relative, family: OpFamily::Branch }),
        0x51 => Some(OpEntry { mnemonic: Mnemonic::EOR, cycles: 5, boundary: true, mode: AddressMode::IndirectY, family: OpFamily::Bitwise }),
        0x55 => Some(OpEntry { mnemonic: Mnemonic::EOR, cycles: 4, boundary: false, mode: AddressMode::ZeroPageX, family: OpFamily::Bitwise }),
        0x56 => Some(OpEntry { mnemonic: Mnemonic::LSR, cycles: 6, boundary: false, mode: AddressMode::ZeroPageX, family: OpFamily::Shift }),
        0x58 => Some(OpEntry { mnemonic: Mnemonic::CLI, cycles: 2, boundary: false, mode: AddressMode::Implicit, family: OpFamily::Flag }),
        0x59 => Some(OpEntry { mnemonic: Mnemonic::EOR, cycles: 4, boundary: true, mode: AddressMode::AbsoluteY, family: OpFamily::Bitwise }),
        0x5d => Some(OpEntry { mnemonic: Mnemonic::EOR, cycles: 4, boundary: true, mode: AddressMode::AbsoluteX, family: OpFamily::Bitwise }),
        0x5e => Some(OpEntry { mnemonic: Mnemonic::LSR, cycles: 7, boundary: false, mode: AddressMode::AbsoluteX, family: OpFamily::Shift }),
        0x60 => Some(OpEntry { mnemonic: Mnemonic::RTS, cycles: 6, boundary: false, mode: AddressMode::Implicit, family: OpFamily::Rts }),
        0x61 => Some(OpEntry { mnemonic: Mnemonic::ADC, cycles: 6, boundary: false, mode: AddressMode::IndirectX, family: OpFamily::Arithmetic }),
        0x65 => Some(OpEntry { mnemonic: Mnemonic::ADC, cycles: 3, boundary: false, mode: AddressMode::ZeroPage, family: OpFamily::Arithmetic }),
        0x66 => Some(OpEntry { mnemonic: Mnemonic::ROR, cycles: 5, boundary: false, mode: AddressMode::ZeroPage, family: OpFamily::Rotate }),
        0x68 => Some(OpEntry { mnemonic: Mnemonic::PLA, cycles: 4, boundary: false, mode: AddressMode::Implicit, family: OpFamily::Pla }),
        0x69 => Some(OpEntry { mnemonic: Mnemonic::ADC, cycles: 2, boundary: false, mode: AddressMode::Immediate, family: OpFamily::Arithmetic }),
        0x6a => Some(OpEntry { mnemonic: Mnemonic::ROR, cycles: 2, boundary: false, mode: AddressMode::Accumulator, family: OpFamily::Rotate }),
        0x6c => Some(OpEntry { mnemonic: Mnemonic::JMP, cycles: 5, boundary: false, mode: AddressMode::Indirect, family: OpFamily::Jmp }),
        0x6d => Some(OpEntry { mnemonic: Mnemonic::ADC, cycles: 4, boundary: false, mode: AddressMode::Absolute, family: OpFamily::Arithmetic }),
        0x6e => Some(OpEntry { mnemonic: Mnemonic::ROR, cycles: 6, boundary: false, mode: AddressMode::Absolute, family: OpFamily::Rotate }),
        0x70 => Some(OpEntry { mnemonic: Mnemonic::BVS, cycles: 2, boundary: true, mode: AddressMode::Relative, family: OpFamily::Branch }),
        0x71 => Some(OpEntry { mnemonic: Mnemonic::ADC, cycles: 5, boundary: true, mode: AddressMode::IndirectY, family: OpFamily::Arithmetic }),
        0x75 => Some(OpEntry { mnemonic: Mnemonic::ADC, cycles: 4, boundary: false, mode: AddressMode::ZeroPageX, family: OpFamily::Arithmetic }),
        0x76 => Some(OpEntry { mnemonic: Mnemonic::ROR, cycles: 6, boundary: false, mode: AddressMode::ZeroPageX, family: OpFamily::Rotate }),
        0x78 => Some(OpEntry { mnemonic: Mnemonic::SEI, cycles: 2, boundary: false, mode: AddressMode::Implicit, family: OpFamily::Flag }),
        0x79 => Some(OpEntry { mnemonic: Mnemonic::ADC, cycles: 4, boundary: true, mode: AddressMode::AbsoluteY, family: OpFamily::Arithmetic }),
        0x7d => Some(OpEntry { mnemonic: Mnemonic::ADC, cycles: 4, boundary: true, mode: AddressMode::AbsoluteX, family: OpFamily::Arithmetic }),
        0x7e => Some(OpEntry { mnemonic: Mnemonic::ROR, cycles: 7, boundary: false, mode: AddressMode::AbsoluteX, family: OpFamily::Rotate }),
        0x80 => Some(OpEntry { mnemonic: Mnemonic::NOP, cycles: 2, boundary: false, mode: AddressMode::Immediate, family: OpFamily::Nop }),
        0x81 => Some(OpEntry { mnemonic: Mnemonic::STA, cycles: 6, boundary: false, mode: AddressMode::IndirectX, family: OpFamily::Store }),
        0x84 => Some(OpEntry { mnemonic: Mnemonic::STY, cycles: 3, boundary: false, mode: AddressMode::ZeroPage, family: OpFamily::Store }),
        0x85 => Some(OpEntry { mnemonic: Mnemonic::STA, cycles: 3, boundary: false, mode: AddressMode::ZeroPage, family: OpFamily::Store }),
        0x86 => Some(OpEntry { mnemonic: Mnemonic::STX, cycles: 3, boundary: false, mode: AddressMode::ZeroPage, family: OpFamily::Store }),
        0x88 => Some(OpEntry { mnemonic: Mnemonic::DEY, cycles: 2, boundary: false, mode: AddressMode::Implicit, family: OpFamily::IncDecReg }),
        0x8a => Some(OpEntry { mnemonic: Mnemonic::TXA, cycles: 2, boundary: false, mode: AddressMode::Implicit, family: OpFamily::Transfer }),
        0x8c => Some(OpEntry { mnemonic: Mnemonic::STY, cycles: 4, boundary: false, mode: AddressMode::Absolute, family: OpFamily::Store }),
        0x8d => Some(OpEntry { mnemonic: Mnemonic::STA, cycles: 4, boundary: false, mode: AddressMode::Absolute, family: OpFamily::Store }),
        0x8e => Some(OpEntry { mnemonic: Mnemonic::STX, cycles: 4, boundary: false, mode: AddressMode::Absolute, family: OpFamily::Store }),
        0x90 => Some(OpEntry { mnemonic: Mnemonic::BCC, cycles: 2, boundary: true, mode: AddressMode::Relative, family: OpFamily::Branch }),
        0x91 => Some(OpEntry { mnemonic: Mnemonic::STA, cycles: 6, boundary: false, mode: AddressMode::IndirectY, family: OpFamily::Store }),
        0x94 => Some(OpEntry { mnemonic: Mnemonic::STY, cycles: 4, boundary: false, mode: AddressMode::ZeroPageX, family: OpFamily::Store }),
        0x95 => Some(OpEntry { mnemonic: Mnemonic::STA, cycles: 4, boundary: false, mode: AddressMode::ZeroPageX, family: OpFamily::Store }),
        0x96 => Some(OpEntry { mnemonic: Mnemonic::STX, cycles: 4, boundary: false, mode: AddressMode::ZeroPageY, family: OpFamily::Store }),
        0x98 => Some(OpEntry { mnemonic: Mnemonic::TYA, cycles: 2, boundary: false, mode: AddressMode::Implicit, family: OpFamily::Transfer }),
        0x99 => Some(OpEntry { mnemonic: Mnemonic::STA, cycles: 5, boundary: false, mode: AddressMode::AbsoluteY, family: OpFamily::Store }),
        0x9a => Some(OpEntry { mnemonic: Mnemonic::TXS, cycles: 2, boundary: false, mode: AddressMode::Implicit, family: OpFamily::Transfer }),
        0x9d => Some(OpEntry { mnemonic: Mnemonic::STA, cycles: 5, boundary: false, mode: AddressMode::AbsoluteX, family: OpFamily::Store }),
        0xa0 => Some(OpEntry { mnemonic: Mnemonic::LDY, cycles: 2, boundary: false, mode: AddressMode::Immediate, family: OpFamily::Load }),
        0xa1 => Some(OpEntry { mnemonic: Mnemonic::LDA, cycles: 6, boundary: false, mode: AddressMode::IndirectX, family: OpFamily::Load }),
        0xa2 => Some(OpEntry { mnemonic: Mnemonic::LDX, cycles: 2, boundary: false, mode: AddressMode::Immediate, family: OpFamily::Load }),
        0xa4 => Some(OpEntry { mnemonic: Mnemonic::LDY, cycles: 3, boundary: false, mode: AddressMode::ZeroPage, family: OpFamily::Load }),
        0xa5 => Some(OpEntry { mnemonic: Mnemonic::LDA, cycles: 3, boundary: false, mode: AddressMode::ZeroPage, family: OpFamily::Load }),
        0xa6 => Some(OpEntry { mnemonic: Mnemonic::LDX, cycles: 3, boundary: false, mode: AddressMode::ZeroPage, family: OpFamily::Load }),
        0xa8 => Some(OpEntry { mnemonic: Mnemonic::TAY, cycles: 2, boundary: false, mode: AddressMode::Implicit, family: OpFamily::Transfer }),
        0xa9 => Some(OpEntry { mnemonic: Mnemonic::LDA, cycles: 2, boundary: false, mode: AddressMode::Immediate, family: OpFamily::Load }),
        0xaa => Some(OpEntry { mnemonic: Mnemonic::TAX, cycles: 2, boundary: false, mode: AddressMode::Implicit, family: OpFamily::Transfer }),
        0xac => Some(OpEntry { mnemonic: Mnemonic::LDY, cycles: 4, boundary: false, mode: AddressMode::Absolute, family: OpFamily::Load }),
        0xad => Some(OpEntry { mnemonic: Mnemonic::LDA, cycles: 4, boundary: false, mode: AddressMode::Absolute, family: OpFamily::Load }),
        0xae => Some(OpEntry { mnemonic: Mnemonic::LDX, cycles: 4, boundary: false, mode: AddressMode::Absolute, family: OpFamily::Load }),
        0xb0 => Some(OpEntry { mnemonic: Mnemonic::BCS, cycles: 2, boundary: true, mode: AddressMode::Relative, family: OpFamily::Branch }),
        0xb1 => Some(OpEntry { mnemonic: Mnemonic::LDA, cycles: 5, boundary: true, mode: AddressMode::IndirectY, family: OpFamily::Load }),
        0xb4 => Some(OpEntry { mnemonic: Mnemonic::LDY, cycles: 4, boundary: false, mode: AddressMode::ZeroPageX, family: OpFamily::Load }),
        0xb5 => Some(OpEntry { mnemonic: Mnemonic::LDA, cycles: 4, boundary: false, mode: AddressMode::ZeroPageX, family: OpFamily::Load }),
        0xb6 => Some(OpEntry { mnemonic: Mnemonic::LDX, cycles: 4, boundary: false, mode: AddressMode::ZeroPageY, family: OpFamily::Load }),
        0xb8 => Some(OpEntry { mnemonic: Mnemonic::CLV, cycles: 2, boundary: false, mode: AddressMode::Implicit, family: OpFamily::Flag }),
        0xb9 => Some(OpEntry { mnemonic: Mnemonic::LDA, cycles: 4, boundary: true, mode: AddressMode::AbsoluteY, family: OpFamily::Load }),
        0xba => Some(OpEntry { mnemonic: Mnemonic::TSX, cycles: 2, boundary: false, mode: AddressMode::Implicit, family: OpFamily::Transfer }),
        0xbc => Some(OpEntry { mnemonic: Mnemonic::LDY, cycles: 4, boundary: true, mode: AddressMode::AbsoluteX, family: OpFamily::Load }),
        0xbd => Some(OpEntry { mnemonic: Mnemonic::LDA, cycles: 4, boundary: true, mode: AddressMode::AbsoluteX, family: OpFamily::Load }),
        0xbe => Some(OpEntry { mnemonic: Mnemonic::LDX, cycles: 4, boundary: true, mode: AddressMode::AbsoluteY, family: OpFamily::Load }),
        0xc0 => Some(OpEntry { mnemonic: Mnemonic::CPY, cycles: 2, boundary: false, mode: AddressMode::Immediate, family: OpFamily::Compare }),
        0xc1 => Some(OpEntry { mnemonic: Mnemonic::CMP, cycles: 6, boundary: false, mode: AddressMode::IndirectX, family: OpFamily::Compare }),
        0xc4 => Some(OpEntry { mnemonic: Mnemonic::CPY, cycles: 3, boundary: false, mode: AddressMode::ZeroPage, family: OpFamily::Compare }),
        0xc5 => Some(OpEntry { mnemonic: Mnemonic::CMP, cycles: 3, boundary: false, mode: AddressMode::ZeroPage, family: OpFamily::Compare }),
        0xc6 => Some(OpEntry { mnemonic: Mnemonic::DEC, cycles: 5, boundary: false, mode: AddressMode::ZeroPage, family: OpFamily::IncDecMem }),
        0xc8 => Some(OpEntry { mnemonic: Mnemonic::INY, cycles: 2, boundary: false, mode: AddressMode::Implicit, family: OpFamily::IncDecReg }),
        0xc9 => Some(OpEntry { mnemonic: Mnemonic::CMP, cycles: 2, boundary: false, mode: AddressMode::Immediate, family: OpFamily::Compare }),
        0xca => Some(OpEntry { mnemonic: Mnemonic::DEX, cycles: 2, boundary: false, mode: AddressMode::Implicit, family: OpFamily::IncDecReg }),
        0xcc => Some(OpEntry { mnemonic: Mnemonic::CPY, cycles: 4, boundary: false, mode: AddressMode::Absolute, family: OpFamily::Compare }),
        0xcd => Some(OpEntry { mnemonic: Mnemonic::CMP, cycles: 4, boundary: false, mode: AddressMode::Absolute, family: OpFamily::Compare }),
        0xce => Some(OpEntry { mnemonic: Mnemonic::DEC, cycles: 6, boundary: false, mode: AddressMode::Absolute, family: OpFamily::IncDecMem }),
        0xd0 => Some(OpEntry { mnemonic: Mnemonic::BNE, cycles: 2, boundary: true, mode: AddressMode::Relative, family: OpFamily::Branch }),
        0xd1 => Some(OpEntry { mnemonic: Mnemonic::CMP, cycles: 5, boundary: true, mode: AddressMode::IndirectY, family: OpFamily::Compare }),
        0xd5 => Some(OpEntry { mnemonic: Mnemonic::CMP, cycles: 4, boundary: false, mode: AddressMode::ZeroPageX, family: OpFamily::Compare }),
        0xd6 => Some(OpEntry { mnemonic: Mnemonic::DEC, cycles: 6, boundary: false, mode: AddressMode::ZeroPageX, family: OpFamily::IncDecMem }),
        0xd8 => Some(OpEntry { mnemonic: Mnemonic::CLD, cycles: 2, boundary: false, mode: AddressMode::Implicit, family: OpFamily::Flag }),
        0xd9 => Some(OpEntry { mnemonic: Mnemonic::CMP, cycles: 4, boundary: true, mode: AddressMode::AbsoluteY, family: OpFamily::Compare }),
        0xdd => Some(OpEntry { mnemonic: Mnemonic::CMP, cycles: 4, boundary: true, mode: AddressMode::AbsoluteX, family: OpFamily::Compare }),
        0xde => Some(OpEntry { mnemonic: Mnemonic::DEC, cycles: 7, boundary: false, mode: AddressMode::AbsoluteX, family: OpFamily::IncDecMem }),
        0xe0 => Some(OpEntry { mnemonic: Mnemonic::CPX, cycles: 2, boundary: false, mode: AddressMode::Immediate, family: OpFamily::Compare }),
        0xe1 => Some(OpEntry { mnemonic: Mnemonic::SBC, cycles: 6, boundary: false, mode: AddressMode::IndirectX, family: OpFamily::Arithmetic }),
        0xe4 => Some(OpEntry { mnemonic: Mnemonic::CPX, cycles: 3, boundary: false, mode: AddressMode::ZeroPage, family: OpFamily::Compare }),
        0xe5 => Some(OpEntry { mnemonic: Mnemonic::SBC, cycles: 3, boundary: false, mode: AddressMode::ZeroPage, family: OpFamily::Arithmetic }),
        0xe6 => Some(OpEntry { mnemonic: Mnemonic::INC, cycles: 5, boundary: false, mode: AddressMode::ZeroPage, family: OpFamily::IncDecMem }),
        0xe8 => Some(OpEntry { mnemonic: Mnemonic::INX, cycles: 2, boundary: false, mode: AddressMode::Implicit, family: OpFamily::IncDecReg }),
        0xe9 => Some(OpEntry { mnemonic: Mnemonic::SBC, cycles: 2, boundary: false, mode: AddressMode::Immediate, family: OpFamily::Arithmetic }),
        0xea => Some(OpEntry { mnemonic: Mnemonic::NOP, cycles: 2, boundary: false, mode: AddressMode::Implicit, family: OpFamily::Nop }),
        0xec => Some(OpEntry { mnemonic: Mnemonic::CPX, cycles: 4, boundary: false, mode: AddressMode::Absolute, family: OpFamily::Compare }),
        0xed => Some(OpEntry { mnemonic: Mnemonic::SBC, cycles: 4, boundary: false, mode: AddressMode::Absolute, family: OpFamily::Arithmetic }),
        0xee => Some(OpEntry { mnemonic: Mnemonic::INC, cycles: 6, boundary: false, mode: AddressMode::Absolute, family: OpFamily::IncDecMem }),
        0xf0 => Some(OpEntry { mnemonic: Mnemonic::BEQ, cycles: 2, boundary: true, mode: AddressMode::Relative, family: OpFamily::Branch }),
        0xf1 => Some(OpEntry { mnemonic: Mnemonic::SBC, cycles: 5, boundary: true, mode: AddressMode::IndirectY, family: OpFamily::Arithmetic }),
        0xf5 => Some(OpEntry { mnemonic: Mnemonic::SBC, cycles: 4, boundary: false, mode: AddressMode::ZeroPageX, family: OpFamily::Arithmetic }),
        0xf6 => Some(OpEntry { mnemonic: Mnemonic::INC, cycles: 6, boundary: false, mode: AddressMode::ZeroPageX, family: OpFamily::IncDecMem }),
        0xf8 => Some(OpEntry { mnemonic: Mnemonic::SED, cycles: 2, boundary: false, mode: AddressMode::Implicit, family: OpFamily::Flag }),
        0xf9 => Some(OpEntry { mnemonic: Mnemonic::SBC, cycles: 4, boundary: true, mode: AddressMode::AbsoluteY, family: OpFamily::Arithmetic }),
        0xfd => Some(OpEntry { mnemonic: Mnemonic::SBC, cycles: 4, boundary: true, mode: AddressMode::AbsoluteX, family: OpFamily::Arithmetic }),
        0xfe => Some(OpEntry { mnemonic: Mnemonic::INC, cycles: 7, boundary: false, mode: AddressMode::AbsoluteX, family: OpFamily::IncDecMem }),
        _ => None,
    }
}

/// Looks an opcode up in the instruction table.
pub fn op_entry(opcode: u8) -> (r: Option<OpEntry>)
    ensures
        r == spec_op_entry(opcode),
{
    match opcode {
            0x00 => Some(OpEntry { mnemonic: Mnemonic::BRK, cycles: 7, boundary: false, mode: AddressMode::Implicit, family: OpFamily::Brk }),
            0x01 => Some(OpEntry { mnemonic: Mnemonic::ORA, cycles: 6, boundary: false, mode: AddressMode::IndirectX, family: OpFamily::Bitwise }),
            0x04 => Some(OpEntry { mnemonic: Mnemonic::NOP, cycles: 3, boundary: false, mode: AddressMode::ZeroPage, family: OpFamily::Nop }),
            0x05 => Some(OpEntry { mnemonic: Mnemonic::ORA, cycles: 3, boundary: false, mode: AddressMode::ZeroPage, family: OpFamily::Bitwise }),
            0x06 => Some(OpEntry { mnemonic: Mnemonic::ASL, cycles: 5, boundary: false, mode: AddressMode::ZeroPage, family: OpFamily::Shift }),
            0x08 => Some(OpEntry { mnemonic: Mnemonic::PHP, cycles: 3, boundary: false, mode: AddressMode::Implicit, family: OpFamily::Push }),
            0x09 => Some(OpEntry { mnemonic: Mnemonic::ORA, cycles: 2, boundary: false, mode: AddressMode::Immediate, family: OpFamily::Bitwise }),
            0x0a => Some(OpEntry { mnemonic: Mnemonic::ASL, cycles: 2, boundary: false, mode: AddressMode::Accumulator, family: OpFamily::Shift }),
            0x0d => Some(OpEntry { mnemonic: Mnemonic::ORA, cycles: 4, boundary: false, mode: AddressMode::Absolute, family: OpFamily::Bitwise }),
            0x0e => Some(OpEntry { mnemonic: Mnemonic::ASL, cycles: 6, boundary: false, mode: AddressMode::Absolute, family: OpFamily::Shift }),
            0x10 => Some(OpEntry { mnemonic: Mnemonic::BPL, cycles: 2, boundary: true, mode: AddressMode::Relative, family: OpFamily::Branch }),
            0x11 => Some(OpEntry { mnemonic: Mnemonic::ORA, cycles: 5, boundary: true, mode: AddressMode::IndirectY, family: OpFamily::Bitwise }),
            0x15 => Some(OpEntry { mnemonic: Mnemonic::ORA, cycles: 4, boundary: false, mode: AddressMode::ZeroPageX, family: OpFamily::Bitwise }),
            0x16 => Some(OpEntry { mnemonic: Mnemonic::ASL, cycles: 6, boundary: false, mode: AddressMode::ZeroPageX, family: OpFamily::Shift }),
            0x18 => Some(OpEntry { mnemonic: Mnemonic::CLC, cycles: 2, boundary: false, mode: AddressMode::Implicit, family: OpFamily::Flag }),
            0x19 => Some(OpEntry { mnemonic: Mnemonic::ORA, cycles: 4, boundary: true, mode: AddressMode::AbsoluteY, family: OpFamily::Bitwise }),
            0x1d => Some(OpEntry { mnemonic: Mnemonic::ORA, cycles: 4, boundary: true, mode: AddressMode::AbsoluteX, family: OpFamily::Bitwise }),
            0x1e => Some(OpEntry { mnemonic: Mnemonic::ASL, cycles: 7, boundary: false, mode: AddressMode::AbsoluteX, family: OpFamily::Shift }),
            0x20 => Some(OpEntry { mnemonic: Mnemonic::JSR, cycles: 6, boundary: false, mode: AddressMode::Absolute, family: OpFamily::Jsr }),
            0x21 => Some(OpEntry { mnemonic: Mnemonic::AND, cycles: 6, boundary: false, mode: AddressMode::IndirectX, family: OpFamily::Bitwise }),
            0x24 => Some(OpEntry { mnemonic: Mnemonic::BIT, cycles: 3, boundary: false, mode: AddressMode::ZeroPage, family: OpFamily::Bit }),
            0x25 => Some(OpEntry { mnemonic: Mnemonic::AND, cycles: 3, boundary: false, mode: AddressMode::ZeroPage, family: OpFamily::Bitwise }),
            0x26 => Some(OpEntry { mnemonic: Mnemonic::ROL, cycles: 5, boundary: false, mode: AddressMode::ZeroPage, family: OpFamily::Rotate }),
            0x28 => Some(OpEntry { mnemonic: Mnemonic::PLP, cycles: 4, boundary: false, mode: AddressMode::Implicit, family: OpFamily::Plp }),
            0x29 => Some(OpEntry { mnemonic: Mnemonic::AND, cycles: 2, boundary: false, mode: AddressMode::Immediate, family: OpFamily::Bitwise }),
            0x2a => Some(OpEntry { mnemonic: Mnemonic::ROL, cycles: 2, boundary: false, mode: AddressMode::Accumulator, family: OpFamily::Rotate }),
            0x2c => Some(OpEntry { mnemonic: Mnemonic::BIT, cycles: 4, boundary: false, mode: AddressMode::Absolute, family: OpFamily::Bit }),
            0x2d => Some(OpEntry { mnemonic: Mnemonic::AND, cycles: 4, boundary: false, mode: AddressMode::Absolute, family: OpFamily::Bitwise }),
            0x2e => Some(OpEntry { mnemonic: Mnemonic::ROL, cycles: 6, boundary: false, mode: AddressMode::Absolute, family: OpFamily::Rotate }),
            0x30 => Some(OpEntry { mnemonic: Mnemonic::BMI, cycles: 2, boundary: true, mode: AddressMode::Relative, family: OpFamily::Branch }),
            0x31 => Some(OpEntry { mnemonic: Mnemonic::AND, cycles: 5, boundary: true, mode: AddressMode::IndirectY, family: OpFamily::Bitwise }),
            0x34 => Some(OpEntry { mnemonic: Mnemonic::NOP, cycles: 4, boundary: false, mode: AddressMode::ZeroPageX, family: OpFamily::Nop }),
            0x35 => Some(OpEntry { mnemonic: Mnemonic::AND, cycles: 4, boundary: false, mode: AddressMode::ZeroPageX, family: OpFamily::Bitwise }),
            0x36 => Some(OpEntry { mnemonic: Mnemonic::ROL, cycles: 6, boundary: false, mode: AddressMode::ZeroPageX, family: OpFamily::Rotate }),
            0x38 => Some(OpEntry { mnemonic: Mnemonic::SEC, cycles: 2, boundary: false, mode: AddressMode::Implicit, family: OpFamily::Flag }),
            0x39 => Some(OpEntry { mnemonic: Mnemonic::AND, cycles: 4, boundary: true, mode: AddressMode::AbsoluteY, family: OpFamily::Bitwise }),
            0x3d => Some(OpEntry { mnemonic: Mnemonic::AND, cycles: 4, boundary: true, mode: AddressMode::AbsoluteX, family: OpFamily::Bitwise }),
            0x3e => Some(OpEntry { mnemonic: Mnemonic::ROL, cycles: 7, boundary: false, mode: AddressMode::AbsoluteX, family: OpFamily::Rotate }),
            0x40 => Some(OpEntry { mnemonic: Mnemonic::RTI, cycles: 6, boundary: false, mode: AddressMode::Implicit, family: OpFamily::Rti }),
            0x41 => Some(OpEntry { mnemonic: Mnemonic::EOR, cycles: 6, boundary: false, mode: AddressMode::IndirectX, family: OpFamily::Bitwise }),
            0x45 => Some(OpEntry { mnemonic: Mnemonic::EOR, cycles: 3, boundary: false, mode: AddressMode::ZeroPage, family: OpFamily::Bitwise }),
            0x46 => Some(OpEntry { mnemonic: Mnemonic::LSR, cycles: 5, boundary: false, mode: AddressMode::ZeroPage, family: OpFamily::Shift }),
            0x48 => Some(OpEntry { mnemonic: Mnemonic::PHA, cycles: 3, boundary: false, mode: AddressMode::Implicit, family: OpFamily::Push }),
            0x49 => Some(OpEntry { mnemonic: Mnemonic::EOR, cycles: 2, boundary: false, mode: AddressMode::Immediate, family: OpFamily::Bitwise }),
            0x4a => Some(OpEntry { mnemonic: Mnemonic::LSR, cycles: 2, boundary: false, mode: AddressMode::Accumulator, family: OpFamily::Shift }),
            0x4c => Some(OpEntry { mnemonic: Mnemonic::JMP, cycles: 3, boundary: false, mode: AddressMode::Absolute, family: OpFamily::Jmp }),
            0x4d => Some(OpEntry { mnemonic: Mnemonic::EOR, cycles: 4, boundary: false, mode: AddressMode::Absolute, family: OpFamily::Bitwise }),
            0x4e => Some(OpEntry { mnemonic: Mnemonic::LSR, cycles: 6, boundary: false, mode: AddressMode::Absolute, family: OpFamily::Shift }),
            0x50 => Some(OpEntry { mnemonic: Mnemonic::BVC, cycles: 2, boundary: true, mode: AddressMode::Relative, family: OpFamily::Branch }),
            0x51 => Some(OpEntry { mnemonic: Mnemonic::EOR, cycles: 5, boundary: true, mode: AddressMode::IndirectY, family: OpFamily::Bitwise }),
            0x55 => Some(OpEntry { mnemonic: Mnemonic::EOR, cycles: 4, boundary: false, mode: AddressMode::ZeroPageX, family: OpFamily::Bitwise }),
            0x56 => Some(OpEntry { mnemonic: Mnemonic::LSR, cycles: 6, boundary: false, mode: AddressMode::ZeroPageX, family: OpFamily::Shift }),
            0x58 => Some(OpEntry { mnemonic: Mnemonic::CLI, cycles: 2, boundary: false, mode: AddressMode::Implicit, family: OpFamily::Flag }),
            0x59 => Some(OpEntry { mnemonic: Mnemonic::EOR, cycles: 4, boundary: true, mode: AddressMode::AbsoluteY, family: OpFamily::Bitwise }),
            0x5d => Some(OpEntry { mnemonic: Mnemonic::EOR, cycles: 4, boundary: true, mode: AddressMode::AbsoluteX, family: OpFamily::Bitwise }),
            0x5e => Some(OpEntry { mnemonic: Mnemonic::LSR, cycles: 7, boundary: false, mode: AddressMode::AbsoluteX, family: OpFamily::Shift }),
            0x60 => Some(OpEntry { mnemonic: Mnemonic::RTS, cycles: 6, boundary: false, mode: AddressMode::Implicit, family: OpFamily::Rts }),
            0x61 => Some(OpEntry { mnemonic: Mnemonic::ADC, cycles: 6, boundary: false, mode: AddressMode::IndirectX, family: OpFamily::Arithmetic }),
            0x65 => Some(OpEntry { mnemonic: Mnemonic::ADC, cycles: 3, boundary: false, mode: AddressMode::ZeroPage, family: OpFamily::Arithmetic }),
            0x66 => Some(OpEntry { mnemonic: Mnemonic::ROR, cycles: 5, boundary: false, mode: AddressMode::ZeroPage, family: OpFamily::Rotate }),
            0x68 => Some(OpEntry { mnemonic: Mnemonic::PLA, cycles: 4, boundary: false, mode: AddressMode::Implicit, family: OpFamily::Pla }),
            0x69 => Some(OpEntry { mnemonic: Mnemonic::ADC, cycles: 2, boundary: false, mode: AddressMode::Immediate, family: OpFamily::Arithmetic }),
            0x6a => Some(OpEntry { mnemonic: Mnemonic::ROR, cycles: 2, boundary: false, mode: AddressMode::Accumulator, family: OpFamily::Rotate }),
            0x6c => Some(OpEntry { mnemonic: Mnemonic::JMP, cycles: 5, boundary: false, mode: AddressMode::Indirect, family: OpFamily::Jmp }),
            0x6d => Some(OpEntry { mnemonic: Mnemonic::ADC, cycles: 4, boundary: false, mode: AddressMode::Absolute, family: OpFamily::Arithmetic }),
            0x6e => Some(OpEntry { mnemonic: Mnemonic::ROR, cycles: 6, boundary: false, mode: AddressMode::Absolute, family: OpFamily::Rotate }),
            0x70 => Some(OpEntry { mnemonic: Mnemonic::BVS, cycles: 2, boundary: true, mode: AddressMode::Relative, family: OpFamily::Branch }),
            0x71 => Some(OpEntry { mnemonic: Mnemonic::ADC, cycles: 5, boundary: true, mode: AddressMode::IndirectY, family: OpFamily::Arithmetic }),
            0x75 => Some(OpEntry { mnemonic: Mnemonic::ADC, cycles: 4, boundary: false, mode: AddressMode::ZeroPageX, family: OpFamily::Arithmetic }),
            0x76 => Some(OpEntry { mnemonic: Mnemonic::ROR, cycles: 6, boundary: false, mode: AddressMode::ZeroPageX, family: OpFamily::Rotate }),
            0x78 => Some(OpEntry { mnemonic: Mnemonic::SEI, cycles: 2, boundary: false, mode: AddressMode::Implicit, family: OpFamily::Flag }),
            0x79 => Some(OpEntry { mnemonic: Mnemonic::ADC, cycles: 4, boundary: true, mode: AddressMode::AbsoluteY, family: OpFamily::Arithmetic }),
            0x7d => Some(OpEntry { mnemonic: Mnemonic::ADC, cycles: 4, boundary: true, mode: AddressMode::AbsoluteX, family: OpFamily::Arithmetic }),
            0x7e => Some(OpEntry { mnemonic: Mnemonic::ROR, cycles: 7, boundary: false, mode: AddressMode::AbsoluteX, family: OpFamily::Rotate }),
            0x80 => Some(OpEntry { mnemonic: Mnemonic::NOP, cycles: 2, boundary: false, mode: AddressMode::Immediate, family: OpFamily::Nop }),
            0x81 => Some(OpEntry { mnemonic: Mnemonic::STA, cycles: 6, boundary: false, mode: AddressMode::IndirectX, family: OpFamily::Store }),
            0x84 => Some(OpEntry { mnemonic: Mnemonic::STY, cycles: 3, boundary: false, mode: AddressMode::ZeroPage, family: OpFamily::Store }),
            0x85 => Some(OpEntry { mnemonic: Mnemonic::STA, cycles: 3, boundary: false, mode: AddressMode::ZeroPage, family: OpFamily::Store }),
            0x86 => Some(OpEntry { mnemonic: Mnemonic::STX, cycles: 3, boundary: false, mode: AddressMode::ZeroPage, family: OpFamily::Store }),
            0x88 => Some(OpEntry { mnemonic: Mnemonic::DEY, cycles: 2, boundary: false, mode: AddressMode::Implicit, family: OpFamily::IncDecReg }),
            0x8a => Some(OpEntry { mnemonic: Mnemonic::TXA, cycles: 2, boundary: false, mode: AddressMode::Implicit, family: OpFamily::Transfer }),
            0x8c => Some(OpEntry { mnemonic: Mnemonic::STY, cycles: 4, boundary: false, mode: AddressMode::Absolute, family: OpFamily::Store }),
            0x8d => Some(OpEntry { mnemonic: Mnemonic::STA, cycles: 4, boundary: false, mode: AddressMode::Absolute, family: OpFamily::Store }),
            0x8e => Some(OpEntry { mnemonic: Mnemonic::STX, cycles: 4, boundary: false, mode: AddressMode::Absolute, family: OpFamily::Store }),
            0x90 => Some(OpEntry { mnemonic: Mnemonic::BCC, cycles: 2, boundary: true, mode: AddressMode::Relative, family: OpFamily::Branch }),
            0x91 => Some(OpEntry { mnemonic: Mnemonic::STA, cycles: 6, boundary: false, mode: AddressMode::IndirectY, family: OpFamily::Store }),
            0x94 => Some(OpEntry { mnemonic: Mnemonic::STY, cycles: 4, boundary: false, mode: AddressMode::ZeroPageX, family: OpFamily::Store }),
            0x95 => Some(OpEntry { mnemonic: Mnemonic::STA, cycles: 4, boundary: false, mode: AddressMode::ZeroPageX, family: OpFamily::Store }),
            0x96 => Some(OpEntry { mnemonic: Mnemonic::STX, cycles: 4, boundary: false, mode: AddressMode::ZeroPageY, family: OpFamily::Store }),
            0x98 => Some(OpEntry { mnemonic: Mnemonic::TYA, cycles: 2, boundary: false, mode: AddressMode::Implicit, family: OpFamily::Transfer }),
            0x99 => Some(OpEntry { mnemonic: Mnemonic::STA, cycles: 5, boundary: false, mode: AddressMode::AbsoluteY, family: OpFamily::Store }),
            0x9a => Some(OpEntry { mnemonic: Mnemonic::TXS, cycles: 2, boundary: false, mode: AddressMode::Implicit, family: OpFamily::Transfer }),
            0x9d => Some(OpEntry { mnemonic: Mnemonic::STA, cycles: 5, boundary: false, mode: AddressMode::AbsoluteX, family: OpFamily::Store }),
            0xa0 => Some(OpEntry { mnemonic: Mnemonic::LDY, cycles: 2, boundary: false, mode: AddressMode::Immediate, family: OpFamily::Load }),
            0xa1 => Some(OpEntry { mnemonic: Mnemonic::LDA, cycles: 6, boundary: false, mode: AddressMode::IndirectX, family: OpFamily::Load }),
            0xa2 => Some(OpEntry { mnemonic: Mnemonic::LDX, cycles: 2, boundary: false, mode: AddressMode::Immediate, family: OpFamily::Load }),
            0xa4 => Some(OpEntry { mnemonic: Mnemonic::LDY, cycles: 3, boundary: false, mode: AddressMode::ZeroPage, family: OpFamily::Load }),
            0xa5 => Some(OpEntry { mnemonic: Mnemonic::LDA, cycles: 3, boundary: false, mode: AddressMode::ZeroPage, family: OpFamily::Load }),
            0xa6 => Some(OpEntry { mnemonic: Mnemonic::LDX, cycles: 3, boundary: false, mode: AddressMode::ZeroPage, family: OpFamily::Load }),
            0xa8 => Some(OpEntry { mnemonic: Mnemonic::TAY, cycles: 2, boundary: false, mode: AddressMode::Implicit, family: OpFamily::Transfer }),
            0xa9 => Some(OpEntry { mnemonic: Mnemonic::LDA, cycles: 2, boundary: false, mode: AddressMode::Immediate, family: OpFamily::Load }),
            0xaa => Some(OpEntry { mnemonic: Mnemonic::TAX, cycles: 2, boundary: false, mode: AddressMode::Implicit, family: OpFamily::Transfer }),
            0xac => Some(OpEntry { mnemonic: Mnemonic::LDY, cycles: 4, boundary: false, mode: AddressMode::Absolute, family: OpFamily::Load }),
            0xad => Some(OpEntry { mnemonic: Mnemonic::LDA, cycles: 4, boundary: false, mode: AddressMode::Absolute, family: OpFamily::Load }),
            0xae => Some(OpEntry { mnemonic: Mnemonic::LDX, cycles: 4, boundary: false, mode: AddressMode::Absolute, family: OpFamily::Load }),
            0xb0 => Some(OpEntry { mnemonic: Mnemonic::BCS, cycles: 2, boundary: true, mode: AddressMode::Relative, family: OpFamily::Branch }),
            0xb1 => Some(OpEntry { mnemonic: Mnemonic::LDA, cycles: 5, boundary: true, mode: AddressMode::IndirectY, family: OpFamily::Load }),
            0xb4 => Some(OpEntry { mnemonic: Mnemonic::LDY, cycles: 4, boundary: false, mode: AddressMode::ZeroPageX, family: OpFamily::Load }),
            0xb5 => Some(OpEntry { mnemonic: Mnemonic::LDA, cycles: 4, boundary: false, mode: AddressMode::ZeroPageX, family: OpFamily::Load }),
            0xb6 => Some(OpEntry { mnemonic: Mnemonic::LDX, cycles: 4, boundary: false, mode: AddressMode::ZeroPageY, family: OpFamily::Load }),
            0xb8 => Some(OpEntry { mnemonic: Mnemonic::CLV, cycles: 2, boundary: false, mode: AddressMode::Implicit, family: OpFamily::Flag }),
            0xb9 => Some(OpEntry { mnemonic: Mnemonic::LDA, cycles: 4, boundary: true, mode: AddressMode::AbsoluteY, family: OpFamily::Load }),
            0xba => Some(OpEntry { mnemonic: Mnemonic::TSX, cycles: 2, boundary: false, mode: AddressMode::Implicit, family: OpFamily::Transfer }),
            0xbc => Some(OpEntry { mnemonic: Mnemonic::LDY, cycles: 4, boundary: true, mode: AddressMode::AbsoluteX, family: OpFamily::Load }),
            0xbd => Some(OpEntry { mnemonic: Mnemonic::LDA, cycles: 4, boundary: true, mode: AddressMode::AbsoluteX, family: OpFamily::Load }),
            0xbe => Some(OpEntry { mnemonic: Mnemonic::LDX, cycles: 4, boundary: true, mode: AddressMode::AbsoluteY, family: OpFamily::Load }),
            0xc0 => Some(OpEntry { mnemonic: Mnemonic::CPY, cycles: 2, boundary: false, mode: AddressMode::Immediate, family: OpFamily::Compare }),
            0xc1 => Some(OpEntry { mnemonic: Mnemonic::CMP, cycles: 6, boundary: false, mode: AddressMode::IndirectX, family: OpFamily::Compare }),
            0xc4 => Some(OpEntry { mnemonic: Mnemonic::CPY, cycles: 3, boundary: false, mode: AddressMode::ZeroPage, family: OpFamily::Compare }),
            0xc5 => Some(OpEntry { mnemonic: Mnemonic::CMP, cycles: 3, boundary: false, mode: AddressMode::ZeroPage, family: OpFamily::Compare }),
            0xc6 => Some(OpEntry { mnemonic: Mnemonic::DEC, cycles: 5, boundary: false, mode: AddressMode::ZeroPage, family: OpFamily::IncDecMem }),
            0xc8 => Some(OpEntry { mnemonic: Mnemonic::INY, cycles: 2, boundary: false, mode: AddressMode::Implicit, family: OpFamily::IncDecReg }),
            0xc9 => Some(OpEntry { mnemonic: Mnemonic::CMP, cycles: 2, boundary: false, mode: AddressMode::Immediate, family: OpFamily::Compare }),
            0xca => Some(OpEntry { mnemonic: Mnemonic::DEX, cycles: 2, boundary: false, mode: AddressMode::Implicit, family: OpFamily::IncDecReg }),
            0xcc => Some(OpEntry { mnemonic: Mnemonic::CPY, cycles: 4, boundary: false, mode: AddressMode::Absolute, family: OpFamily::Compare }),
            0xcd => Some(OpEntry { mnemonic: Mnemonic::CMP, cycles: 4, boundary: false, mode: AddressMode::Absolute, family: OpFamily::Compare }),
            0xce => Some(OpEntry { mnemonic: Mnemonic::DEC, cycles: 6, boundary: false, mode: AddressMode::Absolute, family: OpFamily::IncDecMem }),
            0xd0 => Some(OpEntry { mnemonic: Mnemonic::BNE, cycles: 2, boundary: true, mode: AddressMode::Relative, family: OpFamily::Branch }),
            0xd1 => Some(OpEntry { mnemonic: Mnemonic::CMP, cycles: 5, boundary: true, mode: AddressMode::IndirectY, family: OpFamily::Compare }),
            0xd5 => Some(OpEntry { mnemonic: Mnemonic::CMP, cycles: 4, boundary: false, mode: AddressMode::ZeroPageX, family: OpFamily::Compare }),
            0xd6 => Some(OpEntry { mnemonic: Mnemonic::DEC, cycles: 6, boundary: false, mode: AddressMode::ZeroPageX, family: OpFamily::IncDecMem }),
            0xd8 => Some(OpEntry { mnemonic: Mnemonic::CLD, cycles: 2, boundary: false, mode: AddressMode::Implicit, family: OpFamily::Flag }),
            0xd9 => Some(OpEntry { mnemonic: Mnemonic::CMP, cycles: 4, boundary: true, mode: AddressMode::AbsoluteY, family: OpFamily::Compare }),
            0xdd => Some(OpEntry { mnemonic: Mnemonic::CMP, cycles: 4, boundary: true, mode: AddressMode::AbsoluteX, family: OpFamily::Compare }),
            0xde => Some(OpEntry { mnemonic: Mnemonic::DEC, cycles: 7, boundary: false, mode: AddressMode::AbsoluteX, family: OpFamily::IncDecMem }),
            0xe0 => Some(OpEntry { mnemonic: Mnemonic::CPX, cycles: 2, boundary: false, mode: AddressMode::Immediate, family: OpFamily::Compare }),
            0xe1 => Some(OpEntry { mnemonic: Mnemonic::SBC, cycles: 6, boundary: false, mode: AddressMode::IndirectX, family: OpFamily::Arithmetic }),
            0xe4 => Some(OpEntry { mnemonic: Mnemonic::CPX, cycles: 3, boundary: false, mode: AddressMode::ZeroPage, family: OpFamily::Compare }),
            0xe5 => Some(OpEntry { mnemonic: Mnemonic::SBC, cycles: 3, boundary: false, mode: AddressMode::ZeroPage, family: OpFamily::Arithmetic }),
            0xe6 => Some(OpEntry { mnemonic: Mnemonic::INC, cycles: 5, boundary: false, mode: AddressMode::ZeroPage, family: OpFamily::IncDecMem }),
            0xe8 => Some(OpEntry { mnemonic: Mnemonic::INX, cycles: 2, boundary: false, mode: AddressMode::Implicit, family: OpFamily::IncDecReg }),
            0xe9 => Some(OpEntry { mnemonic: Mnemonic::SBC, cycles: 2, boundary: false, mode: AddressMode::Immediate, family: OpFamily::Arithmetic }),
            0xea => Some(OpEntry { mnemonic: Mnemonic::NOP, cycles: 2, boundary: false, mode: AddressMode::Implicit, family: OpFamily::Nop }),
            0xec => Some(OpEntry { mnemonic: Mnemonic::CPX, cycles: 4, boundary: false, mode: AddressMode::Absolute, family: OpFamily::Compare }),
            0xed => Some(OpEntry { mnemonic: Mnemonic::SBC, cycles: 4, boundary: false, mode: AddressMode::Absolute, family: OpFamily::Arithmetic }),
            0xee => Some(OpEntry { mnemonic: Mnemonic::INC, cycles: 6, boundary: false, mode: AddressMode::Absolute, family: OpFamily::IncDecMem }),
            0xf0 => Some(OpEntry { mnemonic: Mnemonic::BEQ, cycles: 2, boundary: true, mode: AddressMode::Relative, family: OpFamily::Branch }),
            0xf1 => Some(OpEntry { mnemonic: Mnemonic::SBC, cycles: 5, boundary: true, mode: AddressMode::IndirectY, family: OpFamily::Arithmetic }),
            0xf5 => Some(OpEntry { mnemonic: Mnemonic::SBC, cycles: 4, boundary: false, mode: AddressMode::ZeroPageX, family: OpFamily::Arithmetic }),
            0xf6 => Some(OpEntry { mnemonic: Mnemonic::INC, cycles: 6, boundary: false, mode: AddressMode::ZeroPageX, family: OpFamily::IncDecMem }),
            0xf8 => Some(OpEntry { mnemonic: Mnemonic::SED, cycles: 2, boundary: false, mode: AddressMode::Implicit, family: OpFamily::Flag }),
            0xf9 => Some(OpEntry { mnemonic: Mnemonic::SBC, cycles: 4, boundary: true, mode: AddressMode::AbsoluteY, family: OpFamily::Arithmetic }),
            0xfd => Some(OpEntry { mnemonic: Mnemonic::SBC, cycles: 4, boundary: true, mode: AddressMode::AbsoluteX, family: OpFamily::Arithmetic }),
            0xfe => Some(OpEntry { mnemonic: Mnemonic::INC, cycles: 7, boundary: false, mode: AddressMode::AbsoluteX, family: OpFamily::IncDecMem }),
        _ => None,
    }
}

impl OperationDef {
    /// This definition is the table row `e` for `opcode`.
    pub open spec fn matches_entry(&self, opcode: u8, e: OpEntry) -> bool {
        &&& self.opcode == opcode
        &&& self.mnemonic == e.mnemonic
        &&& self.cycles == e.cycles
        &&& self.page_boundary_cycle == e.boundary
        &&& self.address_mode == e.mode
        &&& self.fn_name@ == family_name(e.family)
    }
}

impl OpEntry {
    /// The operation definition of this row for `opcode`.
    pub fn to_def(&self, opcode: u8) -> (d: OperationDef)
        ensures
            d.matches_entry(opcode, *self),
    {
        OperationDef {
            opcode,
            mnemonic: self.mnemonic,
            cycles: self.cycles,
            page_boundary_cycle: self.boundary,
            address_mode: self.mode,
            fn_name: String::from_str(self.family.name()),
        }
    }
}

/// `m` holds exactly the rows of the instruction table.
pub open spec fn is_instruction_table(m: Map<u8, OperationDef>) -> bool {
    &&& forall|k: u8| #[trigger] m.contains_key(k) <==> spec_op_entry(k) is Some
    &&& forall|k: u8|
        #[trigger] m.contains_key(k) ==> m[k].matches_entry(k, spec_op_entry(k)->0)
}

/// The number of opcodes below `n` that the instruction table defines.
pub open spec fn table_rows_below(n: int) -> nat
    decreases n,
{
    if n <= 0 {
        0
    } else {
        table_rows_below(n - 1) + if spec_op_entry((n - 1) as u8) is Some {
            1nat
        } else {
            0nat
        }
    }
}

proof fn lemma_table_rows_up_to_32()
    ensures
        table_rows_below(32) == 18,
{
    assert(table_rows_below(0) == 0);
    assert(table_rows_below(1) == 1);
    assert(table_rows_below(2) == 2);
    assert(table_rows_below(3) == 2);
    assert(table_rows_below(4) == 2);
    assert(table_rows_below(5) == 3);
    assert(table_rows_below(6) == 4);
    assert(table_rows_below(7) == 5);
    assert(table_rows_below(8) == 5);
    assert(table_rows_below(9) == 6);
    assert(table_rows_below(10) == 7);
    assert(table_rows_below(11) == 8);
    assert(table_rows_below(12) == 8);
    assert(table_rows_below(13) == 8);
    assert(table_rows_below(14) == 9);
    assert(table_rows_below(15) == 10);
    assert(table_rows_below(16) == 10);
    assert(table_rows_below(17) == 11);
    assert(table_rows_below(18) == 12);
    assert(table_rows_below(19) == 12);
    assert(table_rows_below(20) == 12);
    assert(table_rows_below(21) == 12);
    assert(table_rows_below(22) == 13);
    assert(table_rows_below(23) == 14);
    assert(table_rows_below(24) == 14);
    assert(table_rows_below(25) == 15);
    assert(table_rows_below(26) == 16);
    assert(table_rows_below(27) == 16);
    assert(table_rows_below(28) == 16);
    assert(table_rows_below(29) == 16);
    assert(table_rows_below(30) == 17);
    assert(table_rows_below(31) == 18);
    assert(table_rows_below(32) == 18);
}

proof fn lemma_table_rows_up_to_64()
    ensures
        table_rows_below(64) == 38,
{
    lemma_table_rows_up_to_32();
    assert(table_rows_below(33) == 19);
    assert(table_rows_below(34) == 20);
    assert(table_rows_below(35) == 20);
    assert(table_rows_below(36) == 20);
    assert(table_rows_below(37) == 21);
    assert(table_rows_below(38) == 22);
    assert(table_rows_below(39) == 23);
    assert(table_rows_below(40) == 23);
    assert(table_rows_below(41) == 24);
    assert(table_rows_below(42) == 25);
    assert(table_rows_below(43) == 26);
    assert(table_rows_below(44) == 26);
    assert(table_rows_below(45) == 27);
    assert(table_rows_below(46) == 28);
    assert(table_rows_below(47) == 29);
    assert(table_rows_below(48) == 29);
    assert(table_rows_below(49) == 30);
    assert(table_rows_below(50) == 31);
    assert(table_rows_below(51) == 31);
    assert(table_rows_below(52) == 31);
    assert(table_rows_below(53) == 32);
    assert(table_rows_below(54) == 33);
    assert(table_rows_below(55) == 34);
    assert(table_rows_below(56) == 34);
    assert(table_rows_below(57) == 35);
    assert(table_rows_below(58) == 36);
    assert(table_rows_below(59) == 36);
    assert(table_rows_below(60) == 36);
    assert(table_rows_below(61) == 36);
    assert(table_rows_below(62) == 37);
    assert(table_rows_below(63) == 38);
    assert(table_rows_below(64) == 38);
}

proof fn lemma_table_rows_up_to_96()
    ensures
        table_rows_below(96) == 56,
{
    lemma_table_rows_up_to_64();
    assert(table_rows_below(65) == 39);
    assert(table_rows_below(66) == 40);
    assert(table_rows_below(67) == 40);
    assert(table_rows_below(68) == 40);
    assert(table_rows_below(69) == 40);
    assert(table_rows_below(70) == 41);
    assert(table_rows_below(71) == 42);
    assert(table_rows_below(72) == 42);
    assert(table_rows_below(73) == 43);
    assert(table_rows_below(74) == 44);
    assert(table_rows_below(75) == 45);
    assert(table_rows_below(76) == 45);
    assert(table_rows_below(77) == 46);
    assert(table_rows_below(78) == 47);
    assert(table_rows_below(79) == 48);
    assert(table_rows_below(80) == 48);
    assert(table_rows_below(81) == 49);
    assert(table_rows_below(82) == 50);
    assert(table_rows_below(83) == 50);
    assert(table_rows_below(84) == 50);
    assert(table_rows_below(85) == 50);
    assert(table_rows_below(86) == 51);
    assert(table_rows_below(87) == 52);
    assert(table_rows_below(88) == 52);
    assert(table_rows_below(89) == 53);
    assert(table_rows_below(90) == 54);
    assert(table_rows_below(91) == 54);
    assert(table_rows_below(92) == 54);
    assert(table_rows_below(93) == 54);
    assert(table_rows_below(94) == 55);
    assert(table_rows_below(95) == 56);
    assert(table_rows_below(96) == 56);
}

proof fn lemma_table_rows_up_to_128()
    ensures
        table_rows_below(128) == 74,
{
    lemma_table_rows_up_to_96();
    assert(table_rows_below(97) == 57);
    assert(table_rows_below(98) == 58);
    assert(table_rows_below(99) == 58);
    assert(table_rows_below(100) == 58);
    assert(table_rows_below(101) == 58);
    assert(table_rows_below(102) == 59);
    assert(table_rows_below(103) == 60);
    assert(table_rows_below(104) == 60);
    assert(table_rows_below(105) == 61);
    assert(table_rows_below(106) == 62);
    assert(table_rows_below(107) == 63);
    assert(table_rows_below(108) == 63);
    assert(table_rows_below(109) == 64);
    assert(table_rows_below(110) == 65);
    assert(table_rows_below(111) == 66);
    assert(table_rows_below(112) == 66);
    assert(table_rows_below(113) == 67);
    assert(table_rows_below(114) == 68);
    assert(table_rows_below(115) == 68);
    assert(table_rows_below(116) == 68);
    assert(table_rows_below(117) == 68);
    assert(table_rows_below(118) == 69);
    assert(table_rows_below(119) == 70);
    assert(table_rows_below(120) == 70);
    assert(table_rows_below(121) == 71);
    assert(table_rows_below(122) == 72);
    assert(table_rows_below(123) == 72);
    assert(table_rows_below(124) == 72);
    assert(table_rows_below(125) == 72);
    assert(table_rows_below(126) == 73);
    assert(table_rows_below(127) == 74);
    assert(table_rows_below(128) == 74);
}

proof fn lemma_table_rows_up_to_160()
    ensures
        table_rows_below(160) == 93,
{
    lemma_table_rows_up_to_128();
    assert(table_rows_below(129) == 75);
    assert(table_rows_below(130) == 76);
    assert(table_rows_below(131) == 76);
    assert(table_rows_below(132) == 76);
    assert(table_rows_below(133) == 77);
    assert(table_rows_below(134) == 78);
    assert(table_rows_below(135) == 79);
    assert(table_rows_below(136) == 79);
    assert(table_rows_below(137) == 80);
    assert(table_rows_below(138) == 80);
    assert(table_rows_below(139) == 81);
    assert(table_rows_below(140) == 81);
    assert(table_rows_below(141) == 82);
    assert(table_rows_below(142) == 83);
    assert(table_rows_below(143) == 84);
    assert(table_rows_below(144) == 84);
    assert(table_rows_below(145) == 85);
    assert(table_rows_below(146) == 86);
    assert(table_rows_below(147) == 86);
    assert(table_rows_below(148) == 86);
    assert(table_rows_below(149) == 87);
    assert(table_rows_below(150) == 88);
    assert(table_rows_below(151) == 89);
    assert(table_rows_below(152) == 89);
    assert(table_rows_below(153) == 90);
    assert(table_rows_below(154) == 91);
    assert(table_rows_below(155) == 92);
    assert(table_rows_below(156) == 92);
    assert(table_rows_below(157) == 92);
    assert(table_rows_below(158) == 93);
    assert(table_rows_below(159) == 93);
    assert(table_rows_below(160) == 93);
}

proof fn lemma_table_rows_up_to_192()
    ensures
        table_rows_below(192) == 116,
{
    lemma_table_rows_up_to_160();
    assert(table_rows_below(161) == 94);
    assert(table_rows_below(162) == 95);
    assert(table_rows_below(163) == 96);
    assert(table_rows_below(164) == 96);
    assert(table_rows_below(165) == 97);
    assert(table_rows_below(166) == 98);
    assert(table_rows_below(167) == 99);
    assert(table_rows_below(168) == 99);
    assert(table_rows_below(169) == 100);
    assert(table_rows_below(170) == 101);
    assert(table_rows_below(171) == 102);
    assert(table_rows_below(172) == 102);
    assert(table_rows_below(173) == 103);
    assert(table_rows_below(174) == 104);
    assert(table_rows_below(175) == 105);
    assert(table_rows_below(176) == 105);
    assert(table_rows_below(177) == 106);
    assert(table_rows_below(178) == 107);
    assert(table_rows_below(179) == 107);
    assert(table_rows_below(180) == 107);
    assert(table_rows_below(181) == 108);
    assert(table_rows_below(182) == 109);
    assert(table_rows_below(183) == 110);
    assert(table_rows_below(184) == 110);
    assert(table_rows_below(185) == 111);
    assert(table_rows_below(186) == 112);
    assert(table_rows_below(187) == 113);
    assert(table_rows_below(188) == 113);
    assert(table_rows_below(189) == 114);
    assert(table_rows_below(190) == 115);
    assert(table_rows_below(191) == 116);
    assert(table_rows_below(192) == 116);
}

proof fn lemma_table_rows_up_to_224()
    ensures
        table_rows_below(224) == 135,
{
    lemma_table_rows_up_to_192();
    assert(table_rows_below(193) == 117);
    assert(table_rows_below(194) == 118);
    assert(table_rows_below(195) == 118);
    assert(table_rows_below(196) == 118);
    assert(table_rows_below(197) == 119);
    assert(table_rows_below(198) == 120);
    assert(table_rows_below(199) == 121);
    assert(table_rows_below(200) == 121);
    assert(table_rows_below(201) == 122);
    assert(table_rows_below(202) == 123);
    assert(table_rows_below(203) == 124);
    assert(table_rows_below(204) == 124);
    assert(table_rows_below(205) == 125);
    assert(table_rows_below(206) == 126);
    assert(table_rows_below(207) == 127);
    assert(table_rows_below(208) == 127);
    assert(table_rows_below(209) == 128);
    assert(table_rows_below(210) == 129);
    assert(table_rows_below(211) == 129);
    assert(table_rows_below(212) == 129);
    assert(table_rows_below(213) == 129);
    assert(table_rows_below(214) == 130);
    assert(table_rows_below(215) == 131);
    assert(table_rows_below(216) == 131);
    assert(table_rows_below(217) == 132);
    assert(table_rows_below(218) == 133);
    assert(table_rows_below(219) == 133);
    assert(table_rows_below(220) == 133);
    assert(table_rows_below(221) == 133);
    assert(table_rows_below(222) == 134);
    assert(table_rows_below(223) == 135);
    assert(table_rows_below(224) == 135);
}

proof fn lemma_table_rows_up_to_256()
    ensures
        table_rows_below(256) == 154,
{
    lemma_table_rows_up_to_224();
    assert(table_rows_below(225) == 136);
    assert(table_rows_below(226) == 137);
    assert(table_rows_below(227) == 137);
    assert(table_rows_below(228) == 137);
    assert(table_rows_below(229) == 138);
    assert(table_rows_below(230) == 139);
    assert(table_rows_below(231) == 140);
    assert(table_rows_below(232) == 140);
    assert(table_rows_below(233) == 141);
    assert(table_rows_below(234) == 142);
    assert(table_rows_below(235) == 143);
    assert(table_rows_below(236) == 143);
    assert(table_rows_below(237) == 144);
    assert(table_rows_below(238) == 145);
    assert(table_rows_below(239) == 146);
    assert(table_rows_below(240) == 146);
    assert(table_rows_below(241) == 147);
    assert(table_rows_below(242) == 148);
    assert(table_rows_below(243) == 148);
    assert(table_rows_below(244) == 148);
    assert(table_rows_below(245) == 148);
    assert(table_rows_below(246) == 149);
    assert(table_rows_below(247) == 150);
    assert(table_rows_below(248) == 150);
    assert(table_rows_below(249) == 151);
    assert(table_rows_below(250) == 152);
    assert(table_rows_below(251) == 152);
    assert(table_rows_below(252) == 152);
    assert(table_rows_below(253) == 152);
    assert(table_rows_below(254) == 153);
    assert(table_rows_below(255) == 154);
    assert(table_rows_below(256) == 154);
}

/// The instruction table has 154 rows: the 151 documented opcodes and three
/// illegal NOPs.
pub proof fn lemma_table_size()
    ensures
        table_rows_below(256) == 154,
{
    lemma_table_rows_up_to_256();
}

/// Adds the instruction table to `o`, which must not define any of its opcodes
/// yet: `o` grows by one entry for each row of the table.
pub fn define_operations(o: &mut OpsMap)
    requires
        forall|k: u8| #[trigger] spec_op_entry(k) is Some ==> !old(o)@.contains_key(k),
    ensures
        forall|k: u8| #[trigger]
            final(o)@.contains_key(k) <==> (old(o)@.contains_key(k) || spec_op_entry(k) is Some),
        forall|k: u8|
            #[trigger] spec_op_entry(k) is Some ==> final(o)@[k].matches_entry(
                k,
                spec_op_entry(k)->0,
            ),
        forall|k: u8|
            #[trigger] old(o)@.contains_key(k) ==> final(o)@[k] == old(o)@[k],
        final(o)@.len() == old(o)@.len() + table_rows_below(256),
{
    broadcast use vstd::std_specs::hash::axiom_hashmap_view_finite_dom;

    let mut i: u16 = 0;
    while i < 256
        invariant
            i <= 256,
            forall|k: u8| #[trigger] spec_op_entry(k) is Some ==> !old(o)@.contains_key(k),
            forall|k: u8| #[trigger]
                o@.contains_key(k) <==> (old(o)@.contains_key(k) || (k < i && spec_op_entry(
                    k,
                ) is Some)),
            forall|k: u8|
                #[trigger] spec_op_entry(k) is Some && k < i ==> o@[k].matches_entry(
                    k,
                    spec_op_entry(k)->0,
                ),
            forall|k: u8| #[trigger] old(o)@.contains_key(k) ==> o@[k] == old(o)@[k],
            o@.len() == old(o)@.len() + table_rows_below(i as int),
        decreases 256 - i,
    {
        let opcode = i as u8;
        match op_entry(opcode) {
            Some(e) => {
                let d = e.to_def(opcode);
                assert(!o@.contains_key(opcode));
                assert(o@.dom().finite());
                o.insert(opcode, d);
            },
            None => {},
        }
        i = i + 1;
    }
}

} // verus!
