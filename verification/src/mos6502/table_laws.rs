use vstd::prelude::*;
use super::opcodes_def::{family_name, is_instruction_table, spec_op_entry, OpEntry, OpFamily};
use super::opcodes_impl::{
    carry_bit, is_branch, spec_execute, spec_execute_ok, spec_family_of, spec_get_val,
};
use super::operation_def::spec_mode_len;
use super::{AddressMode, Mnemonic, OperationDef};
use crate::machine::machine::{
    spec_decode_address_ok, spec_fetch, spec_next, spec_next_ok, MachineView,
};
use crate::machine::memory::next_addr;
use crate::utils::spec_bcd_to_dec;

verus! {

/// Each routine name leads back to its family.
pub proof fn lemma_family_of_name(f: OpFamily)
    ensures
        spec_family_of(family_name(f)) == Some(f),
{
    reveal_strlit("op_arithmetic");
    reveal_strlit("op_bit");
    reveal_strlit("op_bitwise");
    reveal_strlit("op_branch");
    reveal_strlit("op_brk");
    reveal_strlit("op_compare");
    reveal_strlit("op_flag");
    reveal_strlit("op_incdec_mem");
    reveal_strlit("op_incdec_reg");
    reveal_strlit("op_jmp");
    reveal_strlit("op_jsr");
    reveal_strlit("op_load");
    reveal_strlit("op_nop");
    reveal_strlit("op_pla");
    reveal_strlit("op_plp");
    reveal_strlit("op_push");
    reveal_strlit("op_rotate");
    reveal_strlit("op_rti");
    reveal_strlit("op_rts");
    reveal_strlit("op_shift");
    reveal_strlit("op_store");
    reveal_strlit("op_transfer");
    match f {
        OpFamily::Arithmetic => {
        },
        OpFamily::Bit => {
            assert(family_name(OpFamily::Bit).len() != family_name(OpFamily::Arithmetic).len());
        },
        OpFamily::Bitwise => {
            assert(family_name(OpFamily::Bitwise).len() != family_name(OpFamily::Arithmetic).len());
            assert(family_name(OpFamily::Bitwise).len() != family_name(OpFamily::Bit).len());
        },
        OpFamily::Branch => {
            assert(family_name(OpFamily::Branch).len() != family_name(OpFamily::Arithmetic).len());
            assert(family_name(OpFamily::Branch).len() != family_name(OpFamily::Bit).len());
            assert(family_name(OpFamily::Branch).len() != family_name(OpFamily::Bitwise).len());
        },
        OpFamily::Brk => {
            assert(family_name(OpFamily::Brk).len() != family_name(OpFamily::Arithmetic).len());
            assert(family_name(OpFamily::Brk)[4] != family_name(OpFamily::Bit)[4]);
            assert(family_name(OpFamily::Brk).len() != family_name(OpFamily::Bitwise).len());
            assert(family_name(OpFamily::Brk).len() != family_name(OpFamily::Branch).len());
        },
        OpFamily::Compare => {
            assert(family_name(OpFamily::Compare).len() != family_name(OpFamily::Arithmetic).len());
            assert(family_name(OpFamily::Compare).len() != family_name(OpFamily::Bit).len());
            assert(family_name(OpFamily::Compare)[3] != family_name(OpFamily::Bitwise)[3]);
            assert(family_name(OpFamily::Compare).len() != family_name(OpFamily::Branch).len());
            assert(family_name(OpFamily::Compare).len() != family_name(OpFamily::Brk).len());
        },
        OpFamily::Flag => {
            assert(family_name(OpFamily::Flag).len() != family_name(OpFamily::Arithmetic).len());
            assert(family_name(OpFamily::Flag).len() != family_name(OpFamily::Bit).len());
            assert(family_name(OpFamily::Flag).len() != family_name(OpFamily::Bitwise).len());
            assert(family_name(OpFamily::Flag).len() != family_name(OpFamily::Branch).len());
            assert(family_name(OpFamily::Flag).len() != family_name(OpFamily::Brk).len());
            assert(family_name(OpFamily::Flag).len() != family_name(OpFamily::Compare).len());
        },
        OpFamily::IncDecMem => {
            assert(family_name(OpFamily::IncDecMem)[3] != family_name(OpFamily::Arithmetic)[3]);
            assert(family_name(OpFamily::IncDecMem).len() != family_name(OpFamily::Bit).len());
            assert(family_name(OpFamily::IncDecMem).len() != family_name(OpFamily::Bitwise).len());
            assert(family_name(OpFamily::IncDecMem).len() != family_name(OpFamily::Branch).len());
            assert(family_name(OpFamily::IncDecMem).len() != family_name(OpFamily::Brk).len());
            assert(family_name(OpFamily::IncDecMem).len() != family_name(OpFamily::Compare).len());
            assert(family_name(OpFamily::IncDecMem).len() != family_name(OpFamily::Flag).len());
        },
        OpFamily::IncDecReg => {
            assert(family_name(OpFamily::IncDecReg)[3] != family_name(OpFamily::Arithmetic)[3]);
            assert(family_name(OpFamily::IncDecReg).len() != family_name(OpFamily::Bit).len());
            assert(family_name(OpFamily::IncDecReg).len() != family_name(OpFamily::Bitwise).len());
            assert(family_name(OpFamily::IncDecReg).len() != family_name(OpFamily::Branch).len());
            assert(family_name(OpFamily::IncDecReg).len() != family_name(OpFamily::Brk).len());
            assert(family_name(OpFamily::IncDecReg).len() != family_name(OpFamily::Compare).len());
            assert(family_name(OpFamily::IncDecReg).len() != family_name(OpFamily::Flag).len());
            assert(family_name(OpFamily::IncDecReg)[10] != family_name(OpFamily::IncDecMem)[10]);
        },
        OpFamily::Jmp => {
            assert(family_name(OpFamily::Jmp).len() != family_name(OpFamily::Arithmetic).len());
            assert(family_name(OpFamily::Jmp)[3] != family_name(OpFamily::Bit)[3]);
            assert(family_name(OpFamily::Jmp).len() != family_name(OpFamily::Bitwise).len());
            assert(family_name(OpFamily::Jmp).len() != family_name(OpFamily::Branch).len());
            assert(family_name(OpFamily::Jmp)[3] != family_name(OpFamily::Brk)[3]);
            assert(family_name(OpFamily::Jmp).len() != family_name(OpFamily::Compare).len());
            assert(family_name(OpFamily::Jmp).len() != family_name(OpFamily::Flag).len());
            assert(family_name(OpFamily::Jmp).len() != family_name(OpFamily::IncDecMem).len());
            assert(family_name(OpFamily::Jmp).len() != family_name(OpFamily::IncDecReg).len());
        },
        OpFamily::Jsr => {
            assert(family_name(OpFamily::Jsr).len() != family_name(OpFamily::Arithmetic).len());
            assert(family_name(OpFamily::Jsr)[3] != family_name(OpFamily::Bit)[3]);
            assert(family_name(OpFamily::Jsr).len() != family_name(OpFamily::Bitwise).len());
            assert(family_name(OpFamily::Jsr).len() != family_name(OpFamily::Branch).len());
            assert(family_name(OpFamily::Jsr)[3] != family_name(OpFamily::Brk)[3]);
            assert(family_name(OpFamily::Jsr).len() != family_name(OpFamily::Compare).len());
            assert(family_name(OpFamily::Jsr).len() != family_name(OpFamily::Flag).len());
            assert(family_name(OpFamily::Jsr).len() != family_name(OpFamily::IncDecMem).len());
            assert(family_name(OpFamily::Jsr).len() != family_name(OpFamily::IncDecReg).len());
            assert(family_name(OpFamily::Jsr)[4] != family_name(OpFamily::Jmp)[4]);
        },
        OpFamily::Load => {
            assert(family_name(OpFamily::Load).len() != family_name(OpFamily::Arithmetic).len());
            assert(family_name(OpFamily::Load).len() != family_name(OpFamily::Bit).len());
            assert(family_name(OpFamily::Load).len() != family_name(OpFamily::Bitwise).len());
            assert(family_name(OpFamily::Load).len() != family_name(OpFamily::Branch).len());
            assert(family_name(OpFamily::Load).len() != family_name(OpFamily::Brk).len());
            assert(family_name(OpFamily::Load).len() != family_name(OpFamily::Compare).len());
            assert(family_name(OpFamily::Load)[3] != family_name(OpFamily::Flag)[3]);
            assert(family_name(OpFamily::Load).len() != family_name(OpFamily::IncDecMem).len());
            assert(family_name(OpFamily::Load).len() != family_name(OpFamily::IncDecReg).len());
            assert(family_name(OpFamily::Load).len() != family_name(OpFamily::Jmp).len());
            assert(family_name(OpFamily::Load).len() != family_name(OpFamily::Jsr).len());
        },
        OpFamily::Nop => {
            assert(family_name(OpFamily::Nop).len() != family_name(OpFamily::Arithmetic).len());
            assert(family_name(OpFamily::Nop)[3] != family_name(OpFamily::Bit)[3]);
            assert(family_name(OpFamily::Nop).len() != family_name(OpFamily::Bitwise).len());
            assert(family_name(OpFamily::Nop).len() != family_name(OpFamily::Branch).len());
            assert(family_name(OpFamily::Nop)[3] != family_name(OpFamily::Brk)[3]);
            assert(family_name(OpFamily::Nop).len() != family_name(OpFamily::Compare).len());
            assert(family_name(OpFamily::Nop).len() != family_name(OpFamily::Flag).len());
            assert(family_name(OpFamily::Nop).len() != family_name(OpFamily::IncDecMem).len());
            assert(family_name(OpFamily::Nop).len() != family_name(OpFamily::IncDecReg).len());
            assert(family_name(OpFamily::Nop)[3] != family_name(OpFamily::Jmp)[3]);
            assert(family_name(OpFamily::Nop)[3] != family_name(OpFamily::Jsr)[3]);
            assert(family_name(OpFamily::Nop).len() != family_name(OpFamily::Load).len());
        },
        OpFamily::Pla => {
            assert(family_name(OpFamily::Pla).len() != family_name(OpFamily::Arithmetic).len());
            assert(family_name(OpFamily::Pla)[3] != family_name(OpFamily::Bit)[3]);
            assert(family_name(OpFamily::Pla).len() != family_name(OpFamily::Bitwise).len());
            assert(family_name(OpFamily::Pla).len() != family_name(OpFamily::Branch).len());
            assert(family_name(OpFamily::Pla)[3] != family_name(OpFamily::Brk)[3]);
            assert(family_name(OpFamily::Pla).len() != family_name(OpFamily::Compare).len());
            assert(family_name(OpFamily::Pla).len() != family_name(OpFamily::Flag).len());
            assert(family_name(OpFamily::Pla).len() != family_name(OpFamily::IncDecMem).len());
            assert(family_name(OpFamily::Pla).len() != family_name(OpFamily::IncDecReg).len());
            assert(family_name(OpFamily::Pla)[3] != family_name(OpFamily::Jmp)[3]);
            assert(family_name(OpFamily::Pla)[3] != family_name(OpFamily::Jsr)[3]);
            assert(family_name(OpFamily::Pla).len() != family_name(OpFamily::Load).len());
            assert(family_name(OpFamily::Pla)[3] != family_name(OpFamily::Nop)[3]);
        },
        OpFamily::Plp => {
            assert(family_name(OpFamily::Plp).len() != family_name(OpFamily::Arithmetic).len());
            assert(family_name(OpFamily::Plp)[3] != family_name(OpFamily::Bit)[3]);
            assert(family_name(OpFamily::Plp).len() != family_name(OpFamily::Bitwise).len());
            assert(family_name(OpFamily::Plp).len() != family_name(OpFamily::Branch).len());
            assert(family_name(OpFamily::Plp)[3] != family_name(OpFamily::Brk)[3]);
            assert(family_name(OpFamily::Plp).len() != family_name(OpFamily::Compare).len());
            assert(family_name(OpFamily::Plp).len() != family_name(OpFamily::Flag).len());
            assert(family_name(OpFamily::Plp).len() != family_name(OpFamily::IncDecMem).len());
            assert(family_name(OpFamily::Plp).len() != family_name(OpFamily::IncDecReg).len());
            assert(family_name(OpFamily::Plp)[3] != family_name(OpFamily::Jmp)[3]);
            assert(family_name(OpFamily::Plp)[3] != family_name(OpFamily::Jsr)[3]);
            assert(family_name(OpFamily::Plp).len() != family_name(OpFamily::Load).len());
            assert(family_name(OpFamily::Plp)[3] != family_name(OpFamily::Nop)[3]);
            assert(family_name(OpFamily::Plp)[5] != family_name(OpFamily::Pla)[5]);
        },
        OpFamily::Push => {
            assert(family_name(OpFamily::Push).len() != family_name(OpFamily::Arithmetic).len());
            assert(family_name(OpFamily::Push).len() != family_name(OpFamily::Bit).len());
            assert(family_name(OpFamily::Push).len() != family_name(OpFamily::Bitwise).len());
            assert(family_name(OpFamily::Push).len() != family_name(OpFamily::Branch).len());
            assert(family_name(OpFamily::Push).len() != family_name(OpFamily::Brk).len());
            assert(family_name(OpFamily::Push).len() != family_name(OpFamily::Compare).len());
            assert(family_name(OpFamily::Push)[3] != family_name(OpFamily::Flag)[3]);
            assert(family_name(OpFamily::Push).len() != family_name(OpFamily::IncDecMem).len());
            assert(family_name(OpFamily::Push).len() != family_name(OpFamily::IncDecReg).len());
            assert(family_name(OpFamily::Push).len() != family_name(OpFamily::Jmp).len());
            assert(family_name(OpFamily::Push).len() != family_name(OpFamily::Jsr).len());
            assert(family_name(OpFamily::Push)[3] != family_name(OpFamily::Load)[3]);
            assert(family_name(OpFamily::Push).len() != family_name(OpFamily::Nop).len());
            assert(family_name(OpFamily::Push).len() != family_name(OpFamily::Pla).len());
            assert(family_name(OpFamily::Push).len() != family_name(OpFamily::Plp).len());
        },
        OpFamily::Rotate => {
            assert(family_name(OpFamily::Rotate).len() != family_name(OpFamily::Arithmetic).len());
            assert(family_name(OpFamily::Rotate).len() != family_name(OpFamily::Bit).len());
            assert(family_name(OpFamily::Rotate).len() != family_name(OpFamily::Bitwise).len());
            assert(family_name(OpFamily::Rotate)[3] != family_name(OpFamily::Branch)[3]);
            assert(family_name(OpFamily::Rotate).len() != family_name(OpFamily::Brk).len());
            assert(family_name(OpFamily::Rotate).len() != family_name(OpFamily::Compare).len());
            assert(family_name(OpFamily::Rotate).len() != family_name(OpFamily::Flag).len());
            assert(family_name(OpFamily::Rotate).len() != family_name(OpFamily::IncDecMem).len());
            assert(family_name(OpFamily::Rotate).len() != family_name(OpFamily::IncDecReg).len());
            assert(family_name(OpFamily::Rotate).len() != family_name(OpFamily::Jmp).len());
            assert(family_name(OpFamily::Rotate).len() != family_name(OpFamily::Jsr).len());
            assert(family_name(OpFamily::Rotate).len() != family_name(OpFamily::Load).len());
            assert(family_name(OpFamily::Rotate).len() != family_name(OpFamily::Nop).len());
            assert(family_name(OpFamily::Rotate).len() != family_name(OpFamily::Pla).len());
            assert(family_name(OpFamily::Rotate).len() != family_name(OpFamily::Plp).len());
            assert(family_name(OpFamily::Rotate).len() != family_name(OpFamily::Push).len());
        },
        OpFamily::Rti => {
            assert(family_name(OpFamily::Rti).len() != family_name(OpFamily::Arithmetic).len());
            assert(family_name(OpFamily::Rti)[3] != family_name(OpFamily::Bit)[3]);
            assert(family_name(OpFamily::Rti).len() != family_name(OpFamily::Bitwise).len());
            assert(family_name(OpFamily::Rti).len() != family_name(OpFamily::Branch).len());
            assert(family_name(OpFamily::Rti)[3] != family_name(OpFamily::Brk)[3]);
            assert(family_name(OpFamily::Rti).len() != family_name(OpFamily::Compare).len());
            assert(family_name(OpFamily::Rti).len() != family_name(OpFamily::Flag).len());
            assert(family_name(OpFamily::Rti).len() != family_name(OpFamily::IncDecMem).len());
            assert(family_name(OpFamily::Rti).len() != family_name(OpFamily::IncDecReg).len());
            assert(family_name(OpFamily::Rti)[3] != family_name(OpFamily::Jmp)[3]);
            assert(family_name(OpFamily::Rti)[3] != family_name(OpFamily::Jsr)[3]);
            assert(family_name(OpFamily::Rti).len() != family_name(OpFamily::Load).len());
            assert(family_name(OpFamily::Rti)[3] != family_name(OpFamily::Nop)[3]);
            assert(family_name(OpFamily::Rti)[3] != family_name(OpFamily::Pla)[3]);
            assert(family_name(OpFamily::Rti)[3] != family_name(OpFamily::Plp)[3]);
            assert(family_name(OpFamily::Rti).len() != family_name(OpFamily::Push).len());
            assert(family_name(OpFamily::Rti).len() != family_name(OpFamily::Rotate).len());
        },
        OpFamily::Rts => {
            assert(family_name(OpFamily::Rts).len() != family_name(OpFamily::Arithmetic).len());
            assert(family_name(OpFamily::Rts)[3] != family_name(OpFamily::Bit)[3]);
            assert(family_name(OpFamily::Rts).len() != family_name(OpFamily::Bitwise).len());
            assert(family_name(OpFamily::Rts).len() != family_name(OpFamily::Branch).len());
            assert(family_name(OpFamily::Rts)[3] != family_name(OpFamily::Brk)[3]);
            assert(family_name(OpFamily::Rts).len() != family_name(OpFamily::Compare).len());
            assert(family_name(OpFamily::Rts).len() != family_name(OpFamily::Flag).len());
            assert(family_name(OpFamily::Rts).len() != family_name(OpFamily::IncDecMem).len());
            assert(family_name(OpFamily::Rts).len() != family_name(OpFamily::IncDecReg).len());
            assert(family_name(OpFamily::Rts)[3] != family_name(OpFamily::Jmp)[3]);
            assert(family_name(OpFamily::Rts)[3] != family_name(OpFamily::Jsr)[3]);
            assert(family_name(OpFamily::Rts).len() != family_name(OpFamily::Load).len());
            assert(family_name(OpFamily::Rts)[3] != family_name(OpFamily::Nop)[3]);
            assert(family_name(OpFamily::Rts)[3] != family_name(OpFamily::Pla)[3]);
            assert(family_name(OpFamily::Rts)[3] != family_name(OpFamily::Plp)[3]);
            assert(family_name(OpFamily::Rts).len() != family_name(OpFamily::Push).len());
            assert(family_name(OpFamily::Rts).len() != family_name(OpFamily::Rotate).len());
            assert(family_name(OpFamily::Rts)[5] != family_name(OpFamily::Rti)[5]);
        },
        OpFamily::Shift => {
            assert(family_name(OpFamily::Shift).len() != family_name(OpFamily::Arithmetic).len());
            assert(family_name(OpFamily::Shift).len() != family_name(OpFamily::Bit).len());
            assert(family_name(OpFamily::Shift).len() != family_name(OpFamily::Bitwise).len());
            assert(family_name(OpFamily::Shift).len() != family_name(OpFamily::Branch).len());
            assert(family_name(OpFamily::Shift).len() != family_name(OpFamily::Brk).len());
            assert(family_name(OpFamily::Shift).len() != family_name(OpFamily::Compare).len());
            assert(family_name(OpFamily::Shift).len() != family_name(OpFamily::Flag).len());
            assert(family_name(OpFamily::Shift).len() != family_name(OpFamily::IncDecMem).len());
            assert(family_name(OpFamily::Shift).len() != family_name(OpFamily::IncDecReg).len());
            assert(family_name(OpFamily::Shift).len() != family_name(OpFamily::Jmp).len());
            assert(family_name(OpFamily::Shift).len() != family_name(OpFamily::Jsr).len());
            assert(family_name(OpFamily::Shift).len() != family_name(OpFamily::Load).len());
            assert(family_name(OpFamily::Shift).len() != family_name(OpFamily::Nop).len());
            assert(family_name(OpFamily::Shift).len() != family_name(OpFamily::Pla).len());
            assert(family_name(OpFamily::Shift).len() != family_name(OpFamily::Plp).len());
            assert(family_name(OpFamily::Shift).len() != family_name(OpFamily::Push).len());
            assert(family_name(OpFamily::Shift).len() != family_name(OpFamily::Rotate).len());
            assert(family_name(OpFamily::Shift).len() != family_name(OpFamily::Rti).len());
            assert(family_name(OpFamily::Shift).len() != family_name(OpFamily::Rts).len());
        },
        OpFamily::Store => {
            assert(family_name(OpFamily::Store).len() != family_name(OpFamily::Arithmetic).len());
            assert(family_name(OpFamily::Store).len() != family_name(OpFamily::Bit).len());
            assert(family_name(OpFamily::Store).len() != family_name(OpFamily::Bitwise).len());
            assert(family_name(OpFamily::Store).len() != family_name(OpFamily::Branch).len());
            assert(family_name(OpFamily::Store).len() != family_name(OpFamily::Brk).len());
            assert(family_name(OpFamily::Store).len() != family_name(OpFamily::Compare).len());
            assert(family_name(OpFamily::Store).len() != family_name(OpFamily::Flag).len());
            assert(family_name(OpFamily::Store).len() != family_name(OpFamily::IncDecMem).len());
            assert(family_name(OpFamily::Store).len() != family_name(OpFamily::IncDecReg).len());
            assert(family_name(OpFamily::Store).len() != family_name(OpFamily::Jmp).len());
            assert(family_name(OpFamily::Store).len() != family_name(OpFamily::Jsr).len());
            assert(family_name(OpFamily::Store).len() != family_name(OpFamily::Load).len());
            assert(family_name(OpFamily::Store).len() != family_name(OpFamily::Nop).len());
            assert(family_name(OpFamily::Store).len() != family_name(OpFamily::Pla).len());
            assert(family_name(OpFamily::Store).len() != family_name(OpFamily::Plp).len());
            assert(family_name(OpFamily::Store).len() != family_name(OpFamily::Push).len());
            assert(family_name(OpFamily::Store).len() != family_name(OpFamily::Rotate).len());
            assert(family_name(OpFamily::Store).len() != family_name(OpFamily::Rti).len());
            assert(family_name(OpFamily::Store).len() != family_name(OpFamily::Rts).len());
            assert(family_name(OpFamily::Store)[4] != family_name(OpFamily::Shift)[4]);
        },
        OpFamily::Transfer => {
            assert(family_name(OpFamily::Transfer).len() != family_name(OpFamily::Arithmetic).len());
            assert(family_name(OpFamily::Transfer).len() != family_name(OpFamily::Bit).len());
            assert(family_name(OpFamily::Transfer).len() != family_name(OpFamily::Bitwise).len());
            assert(family_name(OpFamily::Transfer).len() != family_name(OpFamily::Branch).len());
            assert(family_name(OpFamily::Transfer).len() != family_name(OpFamily::Brk).len());
            assert(family_name(OpFamily::Transfer).len() != family_name(OpFamily::Compare).len());
            assert(family_name(OpFamily::Transfer).len() != family_name(OpFamily::Flag).len());
            assert(family_name(OpFamily::Transfer).len() != family_name(OpFamily::IncDecMem).len());
            assert(family_name(OpFamily::Transfer).len() != family_name(OpFamily::IncDecReg).len());
            assert(family_name(OpFamily::Transfer).len() != family_name(OpFamily::Jmp).len());
            assert(family_name(OpFamily::Transfer).len() != family_name(OpFamily::Jsr).len());
            assert(family_name(OpFamily::Transfer).len() != family_name(OpFamily::Load).len());
            assert(family_name(OpFamily::Transfer).len() != family_name(OpFamily::Nop).len());
            assert(family_name(OpFamily::Transfer).len() != family_name(OpFamily::Pla).len());
            assert(family_name(OpFamily::Transfer).len() != family_name(OpFamily::Plp).len());
            assert(family_name(OpFamily::Transfer).len() != family_name(OpFamily::Push).len());
            assert(family_name(OpFamily::Transfer).len() != family_name(OpFamily::Rotate).len());
            assert(family_name(OpFamily::Transfer).len() != family_name(OpFamily::Rti).len());
            assert(family_name(OpFamily::Transfer).len() != family_name(OpFamily::Rts).len());
            assert(family_name(OpFamily::Transfer).len() != family_name(OpFamily::Shift).len());
            assert(family_name(OpFamily::Transfer).len() != family_name(OpFamily::Store).len());
        },
    }
}


/// The mode names a memory address (or a branch target).
pub open spec fn mode_has_address(m: AddressMode) -> bool {
    !(m == AddressMode::Implicit || m == AddressMode::Accumulator || m == AddressMode::Immediate)
}

/// The mode provides a value: from memory, from the operand or from the accumulator.
pub open spec fn mode_has_value(m: AddressMode) -> bool {
    m != AddressMode::Implicit
}

/// The family of a table row executes its mnemonic, and its mode provides
/// what the family reads and writes.
pub open spec fn entry_runs(e: OpEntry) -> bool {
    let m = e.mnemonic;
    match e.family {
        OpFamily::Arithmetic => (m == Mnemonic::ADC || m == Mnemonic::SBC) && mode_has_value(
            e.mode,
        ),
        OpFamily::Bit => mode_has_value(e.mode),
        OpFamily::Bitwise => (m == Mnemonic::AND || m == Mnemonic::ORA || m == Mnemonic::EOR)
            && mode_has_value(e.mode),
        OpFamily::Branch => is_branch(m) && e.mode == AddressMode::Relative && e.cycles < 255,
        OpFamily::Compare => (m == Mnemonic::CMP || m == Mnemonic::CPX || m == Mnemonic::CPY)
            && mode_has_value(e.mode),
        OpFamily::Flag => m == Mnemonic::CLC || m == Mnemonic::SEC || m == Mnemonic::CLI || m
            == Mnemonic::SEI || m == Mnemonic::CLD || m == Mnemonic::SED || m == Mnemonic::CLV,
        OpFamily::IncDecMem => (m == Mnemonic::DEC || m == Mnemonic::INC) && mode_has_address(
            e.mode,
        ),
        OpFamily::IncDecReg => m == Mnemonic::DEX || m == Mnemonic::DEY || m == Mnemonic::INX || m
            == Mnemonic::INY,
        OpFamily::Jmp | OpFamily::Jsr => mode_has_address(e.mode),
        OpFamily::Load => (m == Mnemonic::LDA || m == Mnemonic::LDX || m == Mnemonic::LDY)
            && mode_has_value(e.mode),
        OpFamily::Push => m == Mnemonic::PHA || m == Mnemonic::PHP,
        OpFamily::Rotate => (m == Mnemonic::ROL || m == Mnemonic::ROR) && (mode_has_address(
            e.mode,
        ) || e.mode == AddressMode::Accumulator),
        OpFamily::Shift => (m == Mnemonic::ASL || m == Mnemonic::LSR) && (mode_has_address(e.mode)
            || e.mode == AddressMode::Accumulator),
        OpFamily::Store => (m == Mnemonic::STA || m == Mnemonic::STX || m == Mnemonic::STY)
            && mode_has_address(e.mode),
        OpFamily::Transfer => m == Mnemonic::TAX || m == Mnemonic::TAY || m == Mnemonic::TXA || m
            == Mnemonic::TYA || m == Mnemonic::TXS || m == Mnemonic::TSX,
        _ => true,
    }
}

/// Every row of the instruction table can run.
pub proof fn lemma_table_rows_run(opcode: u8)
    requires
        spec_op_entry(opcode) is Some,
    ensures
        entry_runs(spec_op_entry(opcode)->0),
{
}

/// Decimal ADC does not overflow a byte while summing its decimal digits.
pub open spec fn decimal_sum_fits(ops: Map<u8, OperationDef>, s: MachineView) -> bool {
    let (op, s2) = spec_fetch(ops, s);
    s2.regs.status.decimal_mode && op.def.mnemonic == Mnemonic::ADC ==> spec_bcd_to_dec(
        s2.regs.accumulator,
    ) + carry_bit(s2.regs.status) + spec_bcd_to_dec(spec_get_val(&op, s2)->0) <= 255
}

/// With the standard instruction table, every defined opcode runs, as long
/// as its address stays within 64 KiB and a decimal sum fits in a byte.
pub proof fn lemma_defined_opcode_runs(ops: Map<u8, OperationDef>, s: MachineView)
    requires
        is_instruction_table(ops),
        spec_op_entry(s.read(s.regs.counter)) is Some,
        ({
            let (op, s2) = spec_fetch(ops, s);
            op.operand matches Some(o) ==> spec_decode_address_ok(op.def, o, s2)
        }),
        decimal_sum_fits(ops, s),
    ensures
        spec_next_ok(ops, s),
{
    let opcode = s.read(s.regs.counter);
    let e = spec_op_entry(opcode)->0;
    assert(ops.contains_key(opcode));
    lemma_table_rows_run(opcode);
    lemma_family_of_name(e.family);
}

/// The families that neither jump nor return nor interrupt.
pub open spec fn is_straight_line(f: OpFamily) -> bool {
    !(f == OpFamily::Branch || f == OpFamily::Brk || f == OpFamily::Jmp || f == OpFamily::Jsr
        || f == OpFamily::Rti || f == OpFamily::Rts)
}

/// An instruction that does not jump leaves the program counter just after itself.
pub proof fn lemma_straight_line_advance(ops: Map<u8, OperationDef>, s: MachineView)
    requires
        is_instruction_table(ops),
        spec_next_ok(ops, s),
        is_straight_line(spec_op_entry(s.read(s.regs.counter))->0.family),
    ensures
        ({
            let e = spec_op_entry(s.read(s.regs.counter))->0;
            spec_next(ops, s).0.regs.counter == next_addr(
                s.regs.counter,
                spec_mode_len(e.mode) as int,
            )
        }),
{
    let opcode = s.read(s.regs.counter);
    let e = spec_op_entry(opcode)->0;
    lemma_family_of_name(e.family);
}

/// Every ADC of the table reads its value from an operand or an address.
pub proof fn lemma_adc_reads_value(opcode: u8)
    requires
        spec_op_entry(opcode) is Some,
        spec_op_entry(opcode)->0.mnemonic == Mnemonic::ADC,
    ensures
        spec_op_entry(opcode)->0.mode != AddressMode::Implicit,
        spec_op_entry(opcode)->0.mode != AddressMode::Accumulator,
{
}

} // verus!
