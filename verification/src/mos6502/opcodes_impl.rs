use vstd::prelude::*;
use super::opcodes_def::{family_name, OpFamily};
use super::processor_status::{spec_status_from_byte, spec_status_to_byte};
use super::{AddressMode, Mnemonic, Operand, Operation, ProcessorStatus};
use crate::machine::machine::{dec8, inc8, next_addr_pc, spec_neg, MachineView};
use crate::machine::{MOS6502Machine, RegSetter};
use crate::text::same_text;
use crate::utils::{bcd_to_dec, dec_to_bcd, spec_bcd_to_dec, spec_dec_to_bcd};

verus! {

// ----------------------------------------------------------------------
// the family of an operation, from its routine name

/// The family whose routine name is `name`, tried in the order of dispatch.
pub open spec fn spec_family_of(name: Seq<char>) -> Option<OpFamily> {
    if name == family_name(OpFamily::Arithmetic) {
        Some(OpFamily::Arithmetic)
    } else if name == family_name(OpFamily::Bit) {
        Some(OpFamily::Bit)
    } else if name == family_name(OpFamily::Bitwise) {
        Some(OpFamily::Bitwise)
    } else if name == family_name(OpFamily::Branch) {
        Some(OpFamily::Branch)
    } else if name == family_name(OpFamily::Brk) {
        Some(OpFamily::Brk)
    } else if name == family_name(OpFamily::Compare) {
        Some(OpFamily::Compare)
    } else if name == family_name(OpFamily::Flag) {
        Some(OpFamily::Flag)
    } else if name == family_name(OpFamily::IncDecMem) {
        Some(OpFamily::IncDecMem)
    } else if name == family_name(OpFamily::IncDecReg) {
        Some(OpFamily::IncDecReg)
    } else if name == family_name(OpFamily::Jmp) {
        Some(OpFamily::Jmp)
    } else if name == family_name(OpFamily::Jsr) {
        Some(OpFamily::Jsr)
    } else if name == family_name(OpFamily::Load) {
        Some(OpFamily::Load)
    } else if name == family_name(OpFamily::Nop) {
        Some(OpFamily::Nop)
    } else if name == family_name(OpFamily::Pla) {
        Some(OpFamily::Pla)
    } else if name == family_name(OpFamily::Plp) {
        Some(OpFamily::Plp)
    } else if name == family_name(OpFamily::Push) {
        Some(OpFamily::Push)
    } else if name == family_name(OpFamily::Rotate) {
        Some(OpFamily::Rotate)
    } else if name == family_name(OpFamily::Rti) {
        Some(OpFamily::Rti)
    } else if name == family_name(OpFamily::Rts) {
        Some(OpFamily::Rts)
    } else if name == family_name(OpFamily::Shift) {
        Some(OpFamily::Shift)
    } else if name == family_name(OpFamily::Store) {
        Some(OpFamily::Store)
    } else if name == family_name(OpFamily::Transfer) {
        Some(OpFamily::Transfer)
    } else {
        None
    }
}

fn is_family(name: &String, f: OpFamily) -> (r: bool)
    ensures
        r == (name@ == family_name(f)),
{
    same_text(name.as_str(), f.name())
}

/// The family whose routine name is `name`.
pub fn family_of(name: &String) -> (r: Option<OpFamily>)
    ensures
        r == spec_family_of(name@),
{
    if is_family(name, OpFamily::Arithmetic) {
        Some(OpFamily::Arithmetic)
    } else if is_family(name, OpFamily::Bit) {
        Some(OpFamily::Bit)
    } else if is_family(name, OpFamily::Bitwise) {
        Some(OpFamily::Bitwise)
    } else if is_family(name, OpFamily::Branch) {
        Some(OpFamily::Branch)
    } else if is_family(name, OpFamily::Brk) {
        Some(OpFamily::Brk)
    } else if is_family(name, OpFamily::Compare) {
        Some(OpFamily::Compare)
    } else if is_family(name, OpFamily::Flag) {
        Some(OpFamily::Flag)
    } else if is_family(name, OpFamily::IncDecMem) {
        Some(OpFamily::IncDecMem)
    } else if is_family(name, OpFamily::IncDecReg) {
        Some(OpFamily::IncDecReg)
    } else if is_family(name, OpFamily::Jmp) {
        Some(OpFamily::Jmp)
    } else if is_family(name, OpFamily::Jsr) {
        Some(OpFamily::Jsr)
    } else if is_family(name, OpFamily::Load) {
        Some(OpFamily::Load)
    } else if is_family(name, OpFamily::Nop) {
        Some(OpFamily::Nop)
    } else if is_family(name, OpFamily::Pla) {
        Some(OpFamily::Pla)
    } else if is_family(name, OpFamily::Plp) {
        Some(OpFamily::Plp)
    } else if is_family(name, OpFamily::Push) {
        Some(OpFamily::Push)
    } else if is_family(name, OpFamily::Rotate) {
        Some(OpFamily::Rotate)
    } else if is_family(name, OpFamily::Rti) {
        Some(OpFamily::Rti)
    } else if is_family(name, OpFamily::Rts) {
        Some(OpFamily::Rts)
    } else if is_family(name, OpFamily::Shift) {
        Some(OpFamily::Shift)
    } else if is_family(name, OpFamily::Store) {
        Some(OpFamily::Store)
    } else if is_family(name, OpFamily::Transfer) {
        Some(OpFamily::Transfer)
    } else {
        None
    }
}

// ----------------------------------------------------------------------
// helpers

/// The signed addition of `in1` and `in2` gave `result` with the wrong sign:
/// both operands share a sign and the result has the other one.
pub open spec fn spec_overflow(in1: u8, in2: u8, result: u8) -> bool {
    spec_neg(in1) == spec_neg(in2) && spec_neg(result) != spec_neg(in1)
}

/// The value an operation works on: the byte at its address, its immediate
/// operand, or the accumulator; `None` where it has none of these.
pub open spec fn spec_get_val(op: &Operation, s: MachineView) -> Option<u8> {
    match op.address {
        Some(a) => Some(s.read(a)),
        None => {
            if op.def.address_mode == AddressMode::Immediate {
                match op.operand {
                    Some(Operand::Byte(b)) => Some(b),
                    _ => None,
                }
            } else if op.def.address_mode == AddressMode::Accumulator {
                Some(s.regs.accumulator)
            } else {
                None
            }
        },
    }
}

/// An operation can store a result: at its address or in the accumulator.
pub open spec fn spec_set_val_ok(op: &Operation) -> bool {
    op.address is Some || op.def.address_mode == AddressMode::Accumulator
}

/// Stores a result at the address of the operation, or else in the accumulator.
pub open spec fn spec_set_val(op: &Operation, s: MachineView, v: u8) -> MachineView {
    match op.address {
        Some(a) => s.write(a, v),
        None => s.set_a(v),
    }
}

pub open spec fn carry_bit(p: ProcessorStatus) -> u8 {
    if p.carry {
        1
    } else {
        0
    }
}

/// Bit 7 of a byte is set.
pub fn neg(val: u8) -> (r: bool)
    ensures
        r == spec_neg(val),
{
    assert((val & 0x80 > 0) == (val >= 0x80)) by (bit_vector);
    val & 0x80 > 0
}

/// A byte is zero.
pub fn zero(val: u8) -> (r: bool)
    ensures
        r == (val == 0),
{
    val == 0
}

/// The signed addition of `in1` and `in2` overflowed into `result`.
// see https://www.righto.com/2012/12/the-6502-overflow-flag-explained.html
pub fn overflow(in1: u8, in2: u8, result: u8) -> (r: bool)
    ensures
        r == spec_overflow(in1, in2, result),
{
    assert((((in1 ^ result) & (in2 ^ result) & 0x80) > 0) == ((in1 >= 0x80) == (in2 >= 0x80) && (
    result >= 0x80) != (in1 >= 0x80))) by (bit_vector);
    ((in1 ^ result) & (in2 ^ result) & 0x80) > 0
}

pub(crate) fn get_val(op: &Operation, machine: &MOS6502Machine) -> (r: Option<u8>)
    ensures
        r == spec_get_val(op, machine@),
{
    if let Some(addr) = op.address {
        Some(machine.get_byte(addr))
    } else if op.def.address_mode == AddressMode::Immediate {
        match &op.operand {
            Some(o) => o.get_byte(),
            None => None,
        }
    } else if op.def.address_mode == AddressMode::Accumulator {
        Some(machine.A8())
    } else {
        None
    }
}

fn set_val(val: u8, op: &Operation, machine: &mut MOS6502Machine)
    requires
        spec_set_val_ok(op),
    ensures
        final(machine)@ == spec_set_val(op, old(machine)@, val),
        final(machine).same_setup(old(machine)),
{
    if let Some(addr) = op.address {
        machine.set_byte(addr, val)
    } else {
        machine.set_A(val)
    }
}

fn store_byte(val: u8, op: &Operation, machine: &mut MOS6502Machine) -> (r: u8)
    requires
        op.address is Some,
    ensures
        final(machine)@ == old(machine)@.write(op.address->0, val),
        r == op.def.cycles,
        final(machine).same_setup(old(machine)),
{
    machine.set_byte(op.address.unwrap(), val);
    op.def.cycles
}

fn set_nz_flags(val: u8, machine: &mut MOS6502Machine)
    ensures
        final(machine)@ == old(machine)@.set_nz(val),
        final(machine).same_setup(old(machine)),
{
    machine.mos6502.registers.status.negative = neg(val);
    machine.mos6502.registers.status.zero = zero(val);
}

// ----------------------------------------------------------------------
// the semantics of each family

pub open spec fn spec_op_arithmetic_ok(op: &Operation, s: MachineView) -> bool {
    (op.def.mnemonic == Mnemonic::ADC || op.def.mnemonic == Mnemonic::SBC) && spec_get_val(
        op,
        s,
    ) is Some
}

/// Binary ADC and SBC: SBC adds the complement of the operand.
pub open spec fn spec_op_arithmetic(op: &Operation, s: MachineView) -> (MachineView, u8) {
    let a = s.regs.accumulator;
    let v = spec_get_val(op, s)->0;
    let val: u8 = if op.def.mnemonic == Mnemonic::ADC {
        v
    } else {
        (255 - v) as u8
    };
    let sum: int = a + carry_bit(s.regs.status) + val;
    let res = (sum % 256) as u8;
    let s1 = s.set_a(res);
    (
        s1.set_flags(
            ProcessorStatus {
                negative: spec_neg(res),
                zero: res == 0,
                carry: sum > 255,
                overflow: spec_overflow(a, val, res),
                ..s1.regs.status
            },
        ),
        op.def.cycles,
    )
}

pub open spec fn spec_op_arithmetic_bcd_ok(op: &Operation, s: MachineView) -> bool {
    &&& spec_op_arithmetic_ok(op, s)
    &&& op.def.mnemonic == Mnemonic::ADC ==> spec_bcd_to_dec(s.regs.accumulator) + carry_bit(
        s.regs.status,
    ) + spec_bcd_to_dec(spec_get_val(op, s)->0) <= 255
}

/// The decimal sum or difference and the carry out, in decimal mode.
pub open spec fn spec_bcd_sum(m: Mnemonic, a: u8, val: u8, carry: bool) -> (u8, bool) {
    if m == Mnemonic::ADC {
        let x = a + (if carry {
            1int
        } else {
            0
        }) + val;
        (x as u8, x > 99)
    } else {
        let x = ((a - (if carry {
            0int
        } else {
            1
        }) - val + 512) % 256) as u8;
        if x >= 156 {
            ((x - 156) as u8, false)
        } else {
            (x, true)
        }
    }
}

/// ADC and SBC in decimal mode: the operands are read as BCD.
// see http://www.6502.org/tutorials/decimal_mode.html
pub open spec fn spec_op_arithmetic_bcd(op: &Operation, s: MachineView) -> (MachineView, u8) {
    let a = spec_bcd_to_dec(s.regs.accumulator);
    let val = spec_bcd_to_dec(spec_get_val(op, s)->0);
    let (sum, carry) = spec_bcd_sum(op.def.mnemonic, a, val, s.regs.status.carry);
    let res = (sum % 100) as u8;
    let s1 = s.set_a(spec_dec_to_bcd(res));
    (
        s1.set_flags(
            ProcessorStatus {
                negative: spec_neg(res),
                zero: res == 0,
                carry: carry,
                overflow: spec_overflow(a, val, res),
                ..s1.regs.status
            },
        ),
        op.def.cycles,
    )
}

pub open spec fn spec_op_bit_ok(op: &Operation, s: MachineView) -> bool {
    spec_get_val(op, s) is Some
}

/// BIT: N and V from bits 7 and 6 of the operand, Z from its AND with A.
pub open spec fn spec_op_bit(op: &Operation, s: MachineView) -> (MachineView, u8) {
    let val = spec_get_val(op, s)->0;
    (
        s.set_flags(
            ProcessorStatus {
                negative: spec_neg(val),
                zero: val & s.regs.accumulator == 0,
                overflow: val & 0x40 != 0,
                ..s.regs.status
            },
        ),
        op.def.cycles,
    )
}

pub open spec fn spec_op_bitwise_ok(op: &Operation, s: MachineView) -> bool {
    (op.def.mnemonic == Mnemonic::AND || op.def.mnemonic == Mnemonic::ORA || op.def.mnemonic
        == Mnemonic::EOR) && spec_get_val(op, s) is Some
}

/// AND, ORA, EOR on the accumulator.
pub open spec fn spec_op_bitwise(op: &Operation, s: MachineView) -> (MachineView, u8) {
    let a = s.regs.accumulator;
    let val = spec_get_val(op, s)->0;
    let res: u8 = if op.def.mnemonic == Mnemonic::AND {
        a & val
    } else if op.def.mnemonic == Mnemonic::ORA {
        a | val
    } else {
        a ^ val
    };
    (s.set_a(res).set_nz(res), op.def.cycles)
}

pub open spec fn is_branch(m: Mnemonic) -> bool {
    m == Mnemonic::BCC || m == Mnemonic::BCS || m == Mnemonic::BNE || m == Mnemonic::BEQ || m
        == Mnemonic::BPL || m == Mnemonic::BMI || m == Mnemonic::BVC || m == Mnemonic::BVS
}

/// The condition under which a branch is taken.
pub open spec fn spec_branch_taken(m: Mnemonic, p: ProcessorStatus) -> bool {
    match m {
        Mnemonic::BCC => !p.carry,
        Mnemonic::BCS => p.carry,
        Mnemonic::BNE => !p.zero,
        Mnemonic::BEQ => p.zero,
        Mnemonic::BPL => !p.negative,
        Mnemonic::BMI => p.negative,
        Mnemonic::BVC => !p.overflow,
        _ => p.overflow,
    }
}

pub open spec fn spec_op_branch_ok(op: &Operation, s: MachineView) -> bool {
    &&& is_branch(op.def.mnemonic)
    &&& spec_branch_taken(op.def.mnemonic, s.regs.status) ==> op.address is Some && op.def.cycles
        < 255
    &&& op.def.mnemonic == Mnemonic::BVC ==> op.def.cycles < 255
}

/// A taken branch jumps to the address and costs one more cycle; BVC always takes one more.
pub open spec fn spec_op_branch(op: &Operation, s: MachineView) -> (MachineView, u8) {
    if spec_branch_taken(op.def.mnemonic, s.regs.status) {
        (s.set_pc(op.address->0), (op.def.cycles + 1) as u8)
    } else {
        (
            s,
            (op.def.cycles + (if op.def.mnemonic == Mnemonic::BVC {
                1int
            } else {
                0
            })) as u8,
        )
    }
}

/// BRK: skips a byte, sets B and raises a maskable interrupt.
// see https://www.c64-wiki.com/wiki/BRK
pub open spec fn spec_op_brk(op: &Operation, s: MachineView) -> (MachineView, u8) {
    let s1 = s.set_pc(next_addr_pc(s.regs.counter, 2));
    let s2 = s1.set_flags(ProcessorStatus { break_command: true, ..s1.regs.status });
    (s2.irq(), op.def.cycles)
}

pub open spec fn compare_register(m: Mnemonic, s: MachineView) -> u8 {
    if m == Mnemonic::CMP {
        s.regs.accumulator
    } else if m == Mnemonic::CPX {
        s.regs.x
    } else {
        s.regs.y
    }
}

pub open spec fn spec_op_compare_ok(op: &Operation, s: MachineView) -> bool {
    (op.def.mnemonic == Mnemonic::CMP || op.def.mnemonic == Mnemonic::CPX || op.def.mnemonic
        == Mnemonic::CPY) && spec_get_val(op, s) is Some
}

/// CMP, CPX, CPY: the flags of the register minus the operand.
pub open spec fn spec_op_compare(op: &Operation, s: MachineView) -> (MachineView, u8) {
    let val = spec_get_val(op, s)->0;
    let reg = compare_register(op.def.mnemonic, s);
    let diff = ((reg - val + 256) % 256) as u8;
    (
        s.set_flags(
            ProcessorStatus {
                negative: spec_neg(diff),
                zero: reg == val,
                carry: val <= reg,
                ..s.regs.status
            },
        ),
        op.def.cycles,
    )
}

pub open spec fn spec_op_flag_ok(op: &Operation) -> bool {
    let m = op.def.mnemonic;
    m == Mnemonic::CLC || m == Mnemonic::SEC || m == Mnemonic::CLI || m == Mnemonic::SEI || m
        == Mnemonic::CLD || m == Mnemonic::SED || m == Mnemonic::CLV
}

/// Sets or clears one flag.
pub open spec fn spec_op_flag(op: &Operation, s: MachineView) -> (MachineView, u8) {
    let p = s.regs.status;
    let p2 = match op.def.mnemonic {
        Mnemonic::CLC => ProcessorStatus { carry: false, ..p },
        Mnemonic::SEC => ProcessorStatus { carry: true, ..p },
        Mnemonic::CLI => ProcessorStatus { interrupt_disable: false, ..p },
        Mnemonic::SEI => ProcessorStatus { interrupt_disable: true, ..p },
        Mnemonic::CLD => ProcessorStatus { decimal_mode: false, ..p },
        Mnemonic::SED => ProcessorStatus { decimal_mode: true, ..p },
        _ => ProcessorStatus { overflow: false, ..p },
    };
    (s.set_flags(p2), op.def.cycles)
}

pub open spec fn spec_op_incdec_mem_ok(op: &Operation, s: MachineView) -> bool {
    (op.def.mnemonic == Mnemonic::DEC || op.def.mnemonic == Mnemonic::INC) && spec_get_val(
        op,
        s,
    ) is Some && spec_set_val_ok(op)
}

/// DEC and INC on memory, wrapping.
pub open spec fn spec_op_incdec_mem(op: &Operation, s: MachineView) -> (MachineView, u8) {
    let v = spec_get_val(op, s)->0;
    let r = if op.def.mnemonic == Mnemonic::DEC {
        dec8(v)
    } else {
        inc8(v)
    };
    (spec_set_val(op, s, r).set_nz(r), op.def.cycles)
}

pub open spec fn spec_op_incdec_reg_ok(op: &Operation) -> bool {
    let m = op.def.mnemonic;
    m == Mnemonic::DEX || m == Mnemonic::DEY || m == Mnemonic::INX || m == Mnemonic::INY
}

/// DEX, DEY, INX, INY, wrapping.
pub open spec fn spec_op_incdec_reg(op: &Operation, s: MachineView) -> (MachineView, u8) {
    let (s1, v) = match op.def.mnemonic {
        Mnemonic::DEX => (s.set_x(dec8(s.regs.x)), dec8(s.regs.x)),
        Mnemonic::DEY => (s.set_y(dec8(s.regs.y)), dec8(s.regs.y)),
        Mnemonic::INX => (s.set_x(inc8(s.regs.x)), inc8(s.regs.x)),
        _ => (s.set_y(inc8(s.regs.y)), inc8(s.regs.y)),
    };
    (s1.set_nz(v), op.def.cycles)
}

pub open spec fn spec_op_jmp(op: &Operation, s: MachineView) -> (MachineView, u8) {
    (s.set_pc(op.address->0), op.def.cycles)
}

/// JSR: pushes the address of its last byte, high byte first, and jumps.
pub open spec fn spec_op_jsr(op: &Operation, s: MachineView) -> (MachineView, u8) {
    let pc = next_addr_pc(s.regs.counter, 0xffff);
    let s1 = s.push((pc / 256) as u8).push((pc % 256) as u8);
    (s1.set_pc(op.address->0), op.def.cycles)
}

pub open spec fn spec_op_load_ok(op: &Operation, s: MachineView) -> bool {
    (op.def.mnemonic == Mnemonic::LDA || op.def.mnemonic == Mnemonic::LDX || op.def.mnemonic
        == Mnemonic::LDY) && spec_get_val(op, s) is Some
}

/// LDA, LDX, LDY.
pub open spec fn spec_op_load(op: &Operation, s: MachineView) -> (MachineView, u8) {
    let v = spec_get_val(op, s)->0;
    let s1 = if op.def.mnemonic == Mnemonic::LDA {
        s.set_a(v)
    } else if op.def.mnemonic == Mnemonic::LDX {
        s.set_x(v)
    } else {
        s.set_y(v)
    };
    (s1.set_nz(v), op.def.cycles)
}

/// PLA: pulls the accumulator.
pub open spec fn spec_op_pla(op: &Operation, s: MachineView) -> (MachineView, u8) {
    let v = s.pop_val();
    (s.popped().set_a(v).set_nz(v), op.def.cycles)
}

/// PLP: pulls the status register.
pub open spec fn spec_op_plp(op: &Operation, s: MachineView) -> (MachineView, u8) {
    let v = s.pop_val();
    (s.popped().set_flags(spec_status_from_byte(v)), op.def.cycles)
}

pub open spec fn spec_op_push_ok(op: &Operation) -> bool {
    op.def.mnemonic == Mnemonic::PHA || op.def.mnemonic == Mnemonic::PHP
}

/// PHA and PHP.
pub open spec fn spec_op_push(op: &Operation, s: MachineView) -> (MachineView, u8) {
    let v = if op.def.mnemonic == Mnemonic::PHA {
        s.regs.accumulator
    } else {
        spec_status_to_byte(s.regs.status)
    };
    (s.push(v), op.def.cycles)
}

pub open spec fn spec_op_rotate_ok(op: &Operation, s: MachineView) -> bool {
    (op.def.mnemonic == Mnemonic::ROL || op.def.mnemonic == Mnemonic::ROR) && spec_get_val(
        op,
        s,
    ) is Some && spec_set_val_ok(op)
}

/// ROL and ROR through the carry.
pub open spec fn spec_op_rotate(op: &Operation, s: MachineView) -> (MachineView, u8) {
    let v = spec_get_val(op, s)->0;
    let c = s.regs.status.carry;
    let (r, carry) = if op.def.mnemonic == Mnemonic::ROL {
        ((((v * 2) % 256) + (if c {
            1int
        } else {
            0
        })) as u8, v >= 0x80)
    } else {
        (((v / 2) + (if c {
            0x80int
        } else {
            0
        })) as u8, v % 2 == 1)
    };
    let s1 = spec_set_val(op, s, r);
    (
        s1.set_flags(
            ProcessorStatus { negative: spec_neg(r), zero: r == 0, carry: carry, ..s1.regs.status },
        ),
        op.def.cycles,
    )
}

/// RTI: pulls the status register, then the program counter, low byte first.
pub open spec fn spec_op_rti(op: &Operation, s: MachineView) -> (MachineView, u8) {
    let p = s.pop_val();
    let s1 = s.popped().set_flags(spec_status_from_byte(p));
    let lo = s1.pop_val();
    let s2 = s1.popped();
    let hi = s2.pop_val();
    let s3 = s2.popped();
    (s3.set_pc((lo + 256 * hi) as u16), op.def.cycles)
}

/// RTS: pulls the program counter, low byte first, and adds one.
pub open spec fn spec_op_rts(op: &Operation, s: MachineView) -> (MachineView, u8) {
    let lo = s.pop_val();
    let s1 = s.popped();
    let hi = s1.pop_val();
    let s2 = s1.popped();
    (s2.set_pc(next_addr_pc((lo + 256 * hi) as u16, 1)), op.def.cycles)
}

pub open spec fn spec_op_shift_ok(op: &Operation, s: MachineView) -> bool {
    (op.def.mnemonic == Mnemonic::ASL || op.def.mnemonic == Mnemonic::LSR) && spec_get_val(
        op,
        s,
    ) is Some && spec_set_val_ok(op)
}

/// ASL and LSR; the bit shifted out goes to the carry.
pub open spec fn spec_op_shift(op: &Operation, s: MachineView) -> (MachineView, u8) {
    let v = spec_get_val(op, s)->0;
    let (r, carry) = if op.def.mnemonic == Mnemonic::ASL {
        (((v * 2) % 256) as u8, v >= 0x80)
    } else {
        ((v / 2) as u8, v % 2 == 1)
    };
    let s1 = spec_set_val(op, s, r);
    (
        s1.set_flags(
            ProcessorStatus { negative: spec_neg(r), zero: r == 0, carry: carry, ..s1.regs.status },
        ),
        op.def.cycles,
    )
}

pub open spec fn spec_op_store_ok(op: &Operation) -> bool {
    (op.def.mnemonic == Mnemonic::STA || op.def.mnemonic == Mnemonic::STX || op.def.mnemonic
        == Mnemonic::STY) && op.address is Some
}

/// STA, STX, STY.
pub open spec fn spec_op_store(op: &Operation, s: MachineView) -> (MachineView, u8) {
    let v = if op.def.mnemonic == Mnemonic::STA {
        s.regs.accumulator
    } else if op.def.mnemonic == Mnemonic::STX {
        s.regs.x
    } else {
        s.regs.y
    };
    (s.write(op.address->0, v), op.def.cycles)
}

pub open spec fn spec_op_transfer_ok(op: &Operation) -> bool {
    let m = op.def.mnemonic;
    m == Mnemonic::TAX || m == Mnemonic::TAY || m == Mnemonic::TXA || m == Mnemonic::TYA || m
        == Mnemonic::TXS || m == Mnemonic::TSX
}

/// Register transfers; all but TXS set N and Z from the accumulator.
pub open spec fn spec_op_transfer(op: &Operation, s: MachineView) -> (MachineView, u8) {
    let r = s.regs;
    let s1 = match op.def.mnemonic {
        Mnemonic::TAX => s.set_x(r.accumulator),
        Mnemonic::TAY => s.set_y(r.accumulator),
        Mnemonic::TXA => s.set_a(r.x),
        Mnemonic::TYA => s.set_a(r.y),
        Mnemonic::TXS => s.set_sp(r.x),
        _ => s.set_x(r.stack),
    };
    if op.def.mnemonic != Mnemonic::TXS {
        (s1.set_nz(s1.regs.accumulator), op.def.cycles)
    } else {
        (s1, op.def.cycles)
    }
}

/// The operation can be executed: its routine name is known, and it has the
/// mnemonic, operand and address that its routine reads.
pub open spec fn spec_execute_ok(op: &Operation, s: MachineView) -> bool {
    match spec_family_of(op.def.fn_name@) {
        Some(OpFamily::Arithmetic) => if s.regs.status.decimal_mode {
            spec_op_arithmetic_bcd_ok(op, s)
        } else {
            spec_op_arithmetic_ok(op, s)
        },
        Some(OpFamily::Bit) => spec_op_bit_ok(op, s),
        Some(OpFamily::Bitwise) => spec_op_bitwise_ok(op, s),
        Some(OpFamily::Branch) => spec_op_branch_ok(op, s),
        Some(OpFamily::Brk) => true,
        Some(OpFamily::Compare) => spec_op_compare_ok(op, s),
        Some(OpFamily::Flag) => spec_op_flag_ok(op),
        Some(OpFamily::IncDecMem) => spec_op_incdec_mem_ok(op, s),
        Some(OpFamily::IncDecReg) => spec_op_incdec_reg_ok(op),
        Some(OpFamily::Jmp) => op.address is Some,
        Some(OpFamily::Jsr) => op.address is Some,
        Some(OpFamily::Load) => spec_op_load_ok(op, s),
        Some(OpFamily::Nop) => true,
        Some(OpFamily::Pla) => true,
        Some(OpFamily::Plp) => true,
        Some(OpFamily::Push) => spec_op_push_ok(op),
        Some(OpFamily::Rotate) => spec_op_rotate_ok(op, s),
        Some(OpFamily::Rti) => true,
        Some(OpFamily::Rts) => true,
        Some(OpFamily::Shift) => spec_op_shift_ok(op, s),
        Some(OpFamily::Store) => spec_op_store_ok(op),
        Some(OpFamily::Transfer) => spec_op_transfer_ok(op),
        None => false,
    }
}

/// The state after executing an operation, and the cycles it took.
pub open spec fn spec_execute(op: &Operation, s: MachineView) -> (MachineView, u8) {
    match spec_family_of(op.def.fn_name@) {
        Some(OpFamily::Arithmetic) => if s.regs.status.decimal_mode {
            spec_op_arithmetic_bcd(op, s)
        } else {
            spec_op_arithmetic(op, s)
        },
        Some(OpFamily::Bit) => spec_op_bit(op, s),
        Some(OpFamily::Bitwise) => spec_op_bitwise(op, s),
        Some(OpFamily::Branch) => spec_op_branch(op, s),
        Some(OpFamily::Brk) => spec_op_brk(op, s),
        Some(OpFamily::Compare) => spec_op_compare(op, s),
        Some(OpFamily::Flag) => spec_op_flag(op, s),
        Some(OpFamily::IncDecMem) => spec_op_incdec_mem(op, s),
        Some(OpFamily::IncDecReg) => spec_op_incdec_reg(op, s),
        Some(OpFamily::Jmp) => spec_op_jmp(op, s),
        Some(OpFamily::Jsr) => spec_op_jsr(op, s),
        Some(OpFamily::Load) => spec_op_load(op, s),
        Some(OpFamily::Nop) => (s, op.def.cycles),
        Some(OpFamily::Pla) => spec_op_pla(op, s),
        Some(OpFamily::Plp) => spec_op_plp(op, s),
        Some(OpFamily::Push) => spec_op_push(op, s),
        Some(OpFamily::Rotate) => spec_op_rotate(op, s),
        Some(OpFamily::Rti) => spec_op_rti(op, s),
        Some(OpFamily::Rts) => spec_op_rts(op, s),
        Some(OpFamily::Shift) => spec_op_shift(op, s),
        Some(OpFamily::Store) => spec_op_store(op, s),
        Some(OpFamily::Transfer) => spec_op_transfer(op, s),
        None => (s, 0),
    }
}

// ----------------------------------------------------------------------
// implementation of operations

/// Executes an operation on the machine by the routine that its `fn_name`
/// names; returns the cycles it took.
pub fn execute_operation(op: &Operation, machine: &mut MOS6502Machine) -> (r: u8)
    requires
        spec_execute_ok(op, old(machine)@),
    ensures
        (final(machine)@, r) == spec_execute(op, old(machine)@),
        final(machine).same_setup(old(machine)),
{
    match family_of(&op.def.fn_name) {
        Some(OpFamily::Arithmetic) => {
            if machine.mos6502.registers.status.decimal_mode {
                op_arithmetic_bcd(op, machine)
            } else {
                op_arithmetic(op, machine)
            }
        },
        Some(OpFamily::Bit) => op_bit(op, machine),
        Some(OpFamily::Bitwise) => op_bitwise(op, machine),
        Some(OpFamily::Branch) => op_branch(op, machine),
        Some(OpFamily::Brk) => op_brk(op, machine),
        Some(OpFamily::Compare) => op_compare(op, machine),
        Some(OpFamily::Flag) => op_flag(op, machine),
        Some(OpFamily::IncDecMem) => op_incdec_mem(op, machine),
        Some(OpFamily::IncDecReg) => op_incdec_reg(op, machine),
        Some(OpFamily::Jmp) => op_jmp(op, machine),
        Some(OpFamily::Jsr) => op_jsr(op, machine),
        Some(OpFamily::Load) => op_load(op, machine),
        Some(OpFamily::Nop) => op_nop(op, machine),
        Some(OpFamily::Pla) => op_pla(op, machine),
        Some(OpFamily::Plp) => op_plp(op, machine),
        Some(OpFamily::Push) => op_push(op, machine),
        Some(OpFamily::Rotate) => op_rotate(op, machine),
        Some(OpFamily::Rti) => op_rti(op, machine),
        Some(OpFamily::Rts) => op_rts(op, machine),
        Some(OpFamily::Shift) => op_shift(op, machine),
        Some(OpFamily::Store) => op_store(op, machine),
        Some(OpFamily::Transfer) => op_transfer(op, machine),
        None => 0,
    }
}

// https://www.righto.com/2012/12/the-6502-overflow-flag-explained.html
// http://retro.hansotten.nl/uploads/mag6502/sbc_tsx_txs_instructions.pdf
fn op_arithmetic(op: &Operation, machine: &mut MOS6502Machine) -> (r: u8)
    requires
        spec_op_arithmetic_ok(op, old(machine)@),
    ensures
        (final(machine)@, r) == spec_op_arithmetic(op, old(machine)@),
        final(machine).same_setup(old(machine)),
{
    let a = machine.A8();
    let v = get_val(op, machine).unwrap();
    let val: u8 = if op.def.mnemonic == Mnemonic::ADC {
        v
    } else {
        assert(!v == 255 - v) by (bit_vector);
        !v
    };
    let c: u16 = if machine.P().carry {
        1
    } else {
        0
    };
    let sum: u16 = machine.A16() + c + val as u16;
    machine.set_A((sum % 256) as u8);
    let res = machine.A8();
    machine.mos6502.registers.status.negative = neg(res);
    machine.mos6502.registers.status.zero = zero(res);
    machine.mos6502.registers.status.carry = sum > 0xff;
    machine.mos6502.registers.status.overflow = overflow(a, val, res);
    op.def.cycles
}

fn bcd_sum(m: Mnemonic, a: u8, val: u8, carry: bool) -> (r: (u8, bool))
    requires
        m == Mnemonic::ADC ==> a + (if carry {
            1int
        } else {
            0
        }) + val <= 255,
    ensures
        r == spec_bcd_sum(m, a, val, carry),
{
    let c: u8 = if carry {
        1
    } else {
        0
    };
    if m == Mnemonic::ADC {
        let x = a + c + val;
        (x, x > 99)
    } else {
        let x = a.wrapping_sub(1 - c).wrapping_sub(val);
        if x >= 156 {
            (x - 156, false)
        } else {
            (x, true)
        }
    }
}

// see http://www.6502.org/tutorials/decimal_mode.html
fn op_arithmetic_bcd(op: &Operation, machine: &mut MOS6502Machine) -> (r: u8)
    requires
        spec_op_arithmetic_bcd_ok(op, old(machine)@),
    ensures
        (final(machine)@, r) == spec_op_arithmetic_bcd(op, old(machine)@),
        final(machine).same_setup(old(machine)),
{
    let a = bcd_to_dec(machine.A8());
    let val = bcd_to_dec(get_val(op, machine).unwrap());
    let (sum, carry) = bcd_sum(op.def.mnemonic, a, val, machine.P().carry);
    let res = sum - 100 * (sum / 100);
    assert(res == sum % 100);
    machine.set_A(dec_to_bcd(res));
    machine.mos6502.registers.status.negative = neg(res);
    machine.mos6502.registers.status.zero = zero(res);
    machine.mos6502.registers.status.carry = carry;
    machine.mos6502.registers.status.overflow = overflow(a, val, res);
    op.def.cycles
}

fn op_bit(op: &Operation, machine: &mut MOS6502Machine) -> (r: u8)
    requires
        spec_op_bit_ok(op, old(machine)@),
    ensures
        (final(machine)@, r) == spec_op_bit(op, old(machine)@),
        final(machine).same_setup(old(machine)),
{
    let val = get_val(op, machine).unwrap();
    let a = machine.A8();
    machine.mos6502.registers.status.negative = neg(val);
    machine.mos6502.registers.status.zero = zero(val & a);
    machine.mos6502.registers.status.overflow = val & 0b01000000 > 0;
    op.def.cycles
}

fn op_branch(op: &Operation, machine: &mut MOS6502Machine) -> (r: u8)
    requires
        spec_op_branch_ok(op, old(machine)@),
    ensures
        (final(machine)@, r) == spec_op_branch(op, old(machine)@),
        final(machine).same_setup(old(machine)),
{
    let p = machine.P();
    let branch: bool = match op.def.mnemonic {
        Mnemonic::BCC => !p.carry,
        Mnemonic::BCS => p.carry,
        Mnemonic::BNE => !p.zero,
        Mnemonic::BEQ => p.zero,
        Mnemonic::BPL => !p.negative,
        Mnemonic::BMI => p.negative,
        Mnemonic::BVC => !p.overflow,
        _ => p.overflow,
    };
    if branch {
        machine.set_PC(op.address.unwrap());
        return op.def.cycles + 1;
    }
    // BVC always takes 3 cycles (see https://c64os.com/post/6502instructions)

    op.def.cycles + if op.def.mnemonic == Mnemonic::BVC {
        1
    } else {
        0
    }
}

fn op_brk(op: &Operation, machine: &mut MOS6502Machine) -> (r: u8)
    ensures
        (final(machine)@, r) == spec_op_brk(op, old(machine)@),
        final(machine).same_setup(old(machine)),
{
    machine.set_PC(machine.PC().wrapping_add(2));
    machine.mos6502.registers.status.break_command = true;
    machine.irq();
    op.def.cycles
}

fn op_compare(op: &Operation, machine: &mut MOS6502Machine) -> (r: u8)
    requires
        spec_op_compare_ok(op, old(machine)@),
    ensures
        (final(machine)@, r) == spec_op_compare(op, old(machine)@),
        final(machine).same_setup(old(machine)),
{
    let val = get_val(op, machine).unwrap();
    let reg = if op.def.mnemonic == Mnemonic::CMP {
        machine.A8()
    } else if op.def.mnemonic == Mnemonic::CPX {
        machine.X8()
    } else {
        machine.Y8()
    };
    let diff = reg.wrapping_sub(val);
    machine.mos6502.registers.status.negative = neg(diff);
    machine.mos6502.registers.status.zero = reg == val;
    machine.mos6502.registers.status.carry = val <= reg;
    op.def.cycles
}

fn op_incdec_mem(op: &Operation, machine: &mut MOS6502Machine) -> (r: u8)
    requires
        spec_op_incdec_mem_ok(op, old(machine)@),
    ensures
        (final(machine)@, r) == spec_op_incdec_mem(op, old(machine)@),
        final(machine).same_setup(old(machine)),
{
    let v = get_val(op, machine).unwrap();
    let val = if op.def.mnemonic == Mnemonic::DEC {
        v.wrapping_sub(1)
    } else {
        v.wrapping_add(1)
    };
    set_val(val, op, machine);
    set_nz_flags(val, machine);
    op.def.cycles
}

fn op_incdec_reg(op: &Operation, machine: &mut MOS6502Machine) -> (r: u8)
    requires
        spec_op_incdec_reg_ok(op),
    ensures
        (final(machine)@, r) == spec_op_incdec_reg(op, old(machine)@),
        final(machine).same_setup(old(machine)),
{
    let val = match op.def.mnemonic {
        Mnemonic::DEX => {
            machine.mos6502.registers.x = machine.mos6502.registers.x.wrapping_sub(1);
            machine.X8()
        },
        Mnemonic::DEY => {
            machine.mos6502.registers.y = machine.mos6502.registers.y.wrapping_sub(1);
            machine.Y8()
        },
        Mnemonic::INX => {
            machine.mos6502.registers.x = machine.mos6502.registers.x.wrapping_add(1);
            machine.X8()
        },
        _ => {
            machine.mos6502.registers.y = machine.mos6502.registers.y.wrapping_add(1);
            machine.Y8()
        },
    };
    set_nz_flags(val, machine);
    op.def.cycles
}

// TODO add cycle for page change
fn op_bitwise(op: &Operation, machine: &mut MOS6502Machine) -> (r: u8)
    requires
        spec_op_bitwise_ok(op, old(machine)@),
    ensures
        (final(machine)@, r) == spec_op_bitwise(op, old(machine)@),
        final(machine).same_setup(old(machine)),
{
    let val = get_val(op, machine).unwrap();
    let a = machine.A8();
    let res = if op.def.mnemonic == Mnemonic::AND {
        a & val
    } else if op.def.mnemonic == Mnemonic::ORA {
        a | val
    } else {
        a ^ val
    };
    machine.set_A(res);
    set_nz_flags(machine.A8(), machine);
    op.def.cycles
}

fn op_flag(op: &Operation, machine: &mut MOS6502Machine) -> (r: u8)
    requires
        spec_op_flag_ok(op),
    ensures
        (final(machine)@, r) == spec_op_flag(op, old(machine)@),
        final(machine).same_setup(old(machine)),
{
    match op.def.mnemonic {
        Mnemonic::CLC => machine.mos6502.registers.status.carry = false,
        Mnemonic::SEC => machine.mos6502.registers.status.carry = true,
        Mnemonic::CLI => machine.mos6502.registers.status.interrupt_disable = false,
        Mnemonic::SEI => machine.mos6502.registers.status.interrupt_disable = true,
        Mnemonic::CLD => machine.mos6502.registers.status.decimal_mode = false,
        Mnemonic::SED => machine.mos6502.registers.status.decimal_mode = true,
        _ => machine.mos6502.registers.status.overflow = false,
    };
    op.def.cycles
}

fn op_jmp(op: &Operation, machine: &mut MOS6502Machine) -> (r: u8)
    requires
        op.address is Some,
    ensures
        (final(machine)@, r) == spec_op_jmp(op, old(machine)@),
        final(machine).same_setup(old(machine)),
{
    machine.set_PC(op.address.unwrap());
    op.def.cycles
}

fn op_jsr(op: &Operation, machine: &mut MOS6502Machine) -> (r: u8)
    requires
        op.address is Some,
    ensures
        (final(machine)@, r) == spec_op_jsr(op, old(machine)@),
        final(machine).same_setup(old(machine)),
{
    let pc = machine.PC().wrapping_sub(1);
    machine.push((pc / 256) as u8);
    machine.push((pc % 256) as u8);
    machine.set_PC(op.address.unwrap());
    op.def.cycles
}

// FIXME add cycle for crossing page boundary
fn op_load(op: &Operation, machine: &mut MOS6502Machine) -> (r: u8)
    requires
        spec_op_load_ok(op, old(machine)@),
    ensures
        (final(machine)@, r) == spec_op_load(op, old(machine)@),
        final(machine).same_setup(old(machine)),
{
    let val = get_val(op, machine).unwrap();
    if op.def.mnemonic == Mnemonic::LDA {
        machine.set_A(val)
    } else if op.def.mnemonic == Mnemonic::LDX {
        machine.set_X(val)
    } else {
        machine.set_Y(val)
    };
    set_nz_flags(val, machine);
    op.def.cycles
}

fn op_nop(op: &Operation, _machine: &mut MOS6502Machine) -> (r: u8)
    ensures
        final(_machine)@ == old(_machine)@,
        r == op.def.cycles,
        final(_machine).same_setup(old(_machine)),
{
    op.def.cycles
}

fn op_pla(op: &Operation, machine: &mut MOS6502Machine) -> (r: u8)
    ensures
        (final(machine)@, r) == spec_op_pla(op, old(machine)@),
        final(machine).same_setup(old(machine)),
{
    let val = machine.pop();
    machine.set_A(val);
    set_nz_flags(val, machine);
    op.def.cycles
}

fn op_plp(op: &Operation, machine: &mut MOS6502Machine) -> (r: u8)
    ensures
        (final(machine)@, r) == spec_op_plp(op, old(machine)@),
        final(machine).same_setup(old(machine)),
{
    let val = machine.pop();
    machine.set_P(ProcessorStatus::from_byte(val));
    op.def.cycles
}

fn op_push(op: &Operation, machine: &mut MOS6502Machine) -> (r: u8)
    requires
        spec_op_push_ok(op),
    ensures
        (final(machine)@, r) == spec_op_push(op, old(machine)@),
        final(machine).same_setup(old(machine)),
{
    let val: u8 = if op.def.mnemonic == Mnemonic::PHA {
        machine.A8()
    } else {
        machine.P().to_byte()
    };
    let addr = machine.stack_addr();
    machine.set_byte(addr, val);
    machine.mos6502.registers.stack = machine.mos6502.registers.stack.wrapping_sub(1);
    op.def.cycles
}

/// The rotated byte and the carry out of ROL (`is_rol`) or ROR.
fn rotate(val: u8, carry_in: bool, is_rol: bool) -> (r: (u8, bool))
    ensures
        is_rol ==> r == ((((val * 2) % 256) + (if carry_in {
            1int
        } else {
            0
        })) as u8, val >= 0x80),
        !is_rol ==> r == (((val / 2) + (if carry_in {
            0x80int
        } else {
            0
        })) as u8, val % 2 == 1),
{
    let c: u8 = if carry_in {
        0xff
    } else {
        0
    };
    let (new_val, mask, carry) = if is_rol {
        (val << 1u8, c & 1, val & 0b10000000 > 0)
    } else {
        (val >> 1u8, c & 0b10000000, val & 1 > 0)
    };
    let res = new_val | mask;
    assert(is_rol ==> res == ((val * 2) % 256) + (if c == 0xff {
        1int
    } else {
        0
    }) && carry == (val >= 0x80)) by (bit_vector)
        requires
            c == 0xff || c == 0,
            is_rol ==> new_val == val << 1u8 && mask == c & 1 && carry == (val & 0b10000000 > 0),
            res == new_val | mask,
    ;
    assert(!is_rol ==> res == (val / 2) + (if c == 0xff {
        0x80int
    } else {
        0
    }) && carry == (val % 2 == 1)) by (bit_vector)
        requires
            c == 0xff || c == 0,
            !is_rol ==> new_val == val >> 1u8 && mask == c & 0b10000000 && carry == (val & 1 > 0),
            res == new_val | mask,
    ;
    (res, carry)
}

fn op_rotate(op: &Operation, machine: &mut MOS6502Machine) -> (r: u8)
    requires
        spec_op_rotate_ok(op, old(machine)@),
    ensures
        (final(machine)@, r) == spec_op_rotate(op, old(machine)@),
        final(machine).same_setup(old(machine)),
{
    let val = get_val(op, machine).unwrap();
    let (res, carry) = rotate(val, machine.P().carry, op.def.mnemonic == Mnemonic::ROL);
    set_val(res, op, machine);
    machine.mos6502.registers.status.negative = neg(res);
    machine.mos6502.registers.status.zero = zero(res);
    machine.mos6502.registers.status.carry = carry;
    op.def.cycles
}

fn op_rti(op: &Operation, machine: &mut MOS6502Machine) -> (r: u8)
    ensures
        (final(machine)@, r) == spec_op_rti(op, old(machine)@),
        final(machine).same_setup(old(machine)),
{
    let p = machine.pop();
    machine.set_P(ProcessorStatus::from_byte(p));
    let lo = machine.pop() as u16;
    let hi = machine.pop() as u16;
    machine.mos6502.registers.counter = lo + 256 * hi;
    op.def.cycles
}

fn op_rts(op: &Operation, machine: &mut MOS6502Machine) -> (r: u8)
    ensures
        (final(machine)@, r) == spec_op_rts(op, old(machine)@),
        final(machine).same_setup(old(machine)),
{
    let lo = machine.pop() as u16;
    let hi = machine.pop() as u16;
    machine.set_PC((lo + 256 * hi).wrapping_add(1));
    op.def.cycles
}

fn op_shift(op: &Operation, machine: &mut MOS6502Machine) -> (r: u8)
    requires
        spec_op_shift_ok(op, old(machine)@),
    ensures
        (final(machine)@, r) == spec_op_shift(op, old(machine)@),
        final(machine).same_setup(old(machine)),
{
    let val = get_val(op, machine).unwrap();
    let (res, carry) = if op.def.mnemonic == Mnemonic::ASL {
        let r = val << 1u8;
        assert(r == (val * 2) % 256 && (val & 0b10000000 > 0) == (val >= 0x80)) by (bit_vector)
            requires
                r == val << 1u8,
        ;
        (r, val & 0b10000000 > 0)
    } else {
        let r = val >> 1u8;
        assert(r == val / 2 && (val & 1 > 0) == (val % 2 == 1)) by (bit_vector)
            requires
                r == val >> 1u8,
        ;
        (r, val & 1 > 0)
    };
    set_val(res, op, machine);
    machine.mos6502.registers.status.negative = neg(res);
    machine.mos6502.registers.status.zero = zero(res);
    machine.mos6502.registers.status.carry = carry;
    op.def.cycles
}

fn op_store(op: &Operation, machine: &mut MOS6502Machine) -> (r: u8)
    requires
        spec_op_store_ok(op),
    ensures
        (final(machine)@, r) == spec_op_store(op, old(machine)@),
        final(machine).same_setup(old(machine)),
{
    if op.def.mnemonic == Mnemonic::STA {
        store_byte(machine.A8(), op, machine)
    } else if op.def.mnemonic == Mnemonic::STX {
        store_byte(machine.X8(), op, machine)
    } else {
        store_byte(machine.Y8(), op, machine)
    }
}

fn op_transfer(op: &Operation, machine: &mut MOS6502Machine) -> (r: u8)
    requires
        spec_op_transfer_ok(op),
    ensures
        (final(machine)@, r) == spec_op_transfer(op, old(machine)@),
        final(machine).same_setup(old(machine)),
{
    match op.def.mnemonic {
        Mnemonic::TAX => machine.set_X(machine.A8()),
        Mnemonic::TAY => machine.set_Y(machine.A8()),
        Mnemonic::TXA => machine.set_A(machine.X8()),
        Mnemonic::TYA => machine.set_A(machine.Y8()),
        Mnemonic::TXS => machine.set_SC(machine.X8()),
        _ => machine.set_X(machine.SC()),
    };
    if op.def.mnemonic != Mnemonic::TXS {
        // TXS doesn't change any flag
        set_nz_flags(machine.A8(), machine);
    }
    op.def.cycles
}

} // verus!
