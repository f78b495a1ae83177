use vstd::prelude::*;
use super::machine::{spec_decode_address, MachineView};
use crate::mos6502::{AddressMode, Operand, OperationDef};

verus! {

/// The indexed modes add the index register that their name gives, and no
/// other: the address with a register holding `X` is the address with that
/// register at zero, moved on by `X` (within the zero page for the zero
/// page modes), and the other index register plays no part.
pub proof fn lemma_indexed_addresses(def: OperationDef, s: MachineView, o: u8, w: u16, v: u8)
    ensures
        def.address_mode == AddressMode::ZeroPageX ==> {
            &&& spec_decode_address(def, Operand::Byte(o), s)->0 == (spec_decode_address(
                def,
                Operand::Byte(o),
                s.set_x(0),
            )->0 + s.regs.x) % 256
            &&& spec_decode_address(def, Operand::Byte(o), s.set_x(0))->0 == o
            &&& spec_decode_address(def, Operand::Byte(o), s.set_y(v)) == spec_decode_address(
                def,
                Operand::Byte(o),
                s,
            )
        },
        def.address_mode == AddressMode::ZeroPageY ==> {
            &&& spec_decode_address(def, Operand::Byte(o), s)->0 == (spec_decode_address(
                def,
                Operand::Byte(o),
                s.set_y(0),
            )->0 + s.regs.y) % 256
            &&& spec_decode_address(def, Operand::Byte(o), s.set_y(0))->0 == o
            &&& spec_decode_address(def, Operand::Byte(o), s.set_x(v)) == spec_decode_address(
                def,
                Operand::Byte(o),
                s,
            )
        },
        def.address_mode == AddressMode::AbsoluteX && w + s.regs.x <= 0xffff ==> {
            &&& spec_decode_address(def, Operand::Word(w), s)->0 == spec_decode_address(
                def,
                Operand::Word(w),
                s.set_x(0),
            )->0 + s.regs.x
            &&& spec_decode_address(def, Operand::Word(w), s.set_x(0))->0 == w
            &&& spec_decode_address(def, Operand::Word(w), s.set_y(v)) == spec_decode_address(
                def,
                Operand::Word(w),
                s,
            )
        },
        def.address_mode == AddressMode::AbsoluteY && w + s.regs.y <= 0xffff ==> {
            &&& spec_decode_address(def, Operand::Word(w), s)->0 == spec_decode_address(
                def,
                Operand::Word(w),
                s.set_y(0),
            )->0 + s.regs.y
            &&& spec_decode_address(def, Operand::Word(w), s.set_y(0))->0 == w
            &&& spec_decode_address(def, Operand::Word(w), s.set_x(v)) == spec_decode_address(
                def,
                Operand::Word(w),
                s,
            )
        },
{
}

/// The indirect modes read a little-endian pointer: (zp,X) from the zero
/// page cells at the operand plus X (wrapping in the zero page), and (zp),Y
/// from the cells at the operand, then adds Y. Neither depends on the other
/// index register.
pub proof fn lemma_indirect_addresses(def: OperationDef, s: MachineView, o: u8, v: u8)
    ensures
        def.address_mode == AddressMode::IndirectX ==> {
            let p = (o + s.regs.x) % 256;
            &&& spec_decode_address(def, Operand::Byte(o), s)->0 == s.read(p as u16) + 256 * s.read(
                ((p + 1) % 256) as u16,
            )
            &&& spec_decode_address(def, Operand::Byte(o), s.set_y(v)) == spec_decode_address(
                def,
                Operand::Byte(o),
                s,
            )
        },
        def.address_mode == AddressMode::IndirectY && s.read(o as u16) + 256 * s.read(
            ((o + 1) % 256) as u16,
        ) + s.regs.y <= 0xffff ==> {
            &&& spec_decode_address(def, Operand::Byte(o), s)->0 == s.read(o as u16) + 256 * s.read(
                ((o + 1) % 256) as u16,
            ) + s.regs.y
            &&& spec_decode_address(def, Operand::Byte(o), s.set_x(v)) == spec_decode_address(
                def,
                Operand::Byte(o),
                s,
            )
        },
{
}


/// The direct modes: absolute is the operand word and zero page the operand
/// byte; the jump through a pointer (indirect) reads the pointer's low byte
/// at the operand word and its high byte at the next cell of the same page;
/// a relative operand moves the program counter by the operand read as a
/// signed byte, wrapping around the 64 KiB. None of them depends on X or Y.
pub proof fn lemma_direct_addresses(def: OperationDef, s: MachineView, o: u8, w: u16, x: u8, y: u8)
    ensures
        def.address_mode == AddressMode::Absolute ==> spec_decode_address(def, Operand::Word(w), s)
            == Some(w),
        def.address_mode == AddressMode::ZeroPage ==> spec_decode_address(def, Operand::Byte(o), s)
            == Some(o as u16),
        def.address_mode == AddressMode::Indirect ==> {
            let hi_cell = (w / 256) * 256 + (w % 256 + 1) % 256;
            &&& spec_decode_address(def, Operand::Word(w), s)->0 == s.read(w) + 256 * s.read(
                hi_cell as u16,
            )
            &&& hi_cell / 256 == w / 256
        },
        def.address_mode == AddressMode::Relative ==> {
            let target = spec_decode_address(def, Operand::Byte(o), s)->0;
            &&& o < 128 ==> target == (s.regs.counter + o) % 0x10000
            &&& o >= 128 ==> target == (s.regs.counter + o - 256 + 0x10000) % 0x10000
        },
        (def.address_mode == AddressMode::Absolute || def.address_mode == AddressMode::Indirect)
            ==> spec_decode_address(def, Operand::Word(w), s.set_x(x).set_y(y))
            == spec_decode_address(def, Operand::Word(w), s),
        (def.address_mode == AddressMode::ZeroPage || def.address_mode == AddressMode::Relative)
            ==> spec_decode_address(def, Operand::Byte(o), s.set_x(x).set_y(y))
            == spec_decode_address(def, Operand::Byte(o), s),
{
    assert(((w / 256) * 256 + (w % 256 + 1) % 256) / 256 == w / 256) by (nonlinear_arith);
    assert((w / 256) * 256 + (w + 1) % 256 == (w / 256) * 256 + (w % 256 + 1) % 256) by (
    nonlinear_arith);
}

} // verus!
