use vstd::prelude::*;
use super::opcodes_impl::{carry_bit, compare_register, spec_get_val, spec_op_arithmetic, spec_op_arithmetic_bcd, spec_op_arithmetic_bcd_ok, spec_op_arithmetic_ok, spec_op_compare, spec_op_compare_ok, spec_op_jsr, spec_op_pla, spec_op_plp, spec_op_push, spec_op_rti, spec_op_rts};
use super::processor_status::{lemma_status_round_trip, spec_status_from_byte, spec_status_to_byte};
use super::{Mnemonic, Operation, ProcessorStatus};
use crate::machine::machine::{dec8, inc8, next_addr_pc, spec_neg, MachineView};
use crate::utils::{is_valid_bcd, spec_bcd_to_dec, spec_dec_to_bcd};

verus! {

/// The stack cells at and below the stack pointer, `n` of them, are RAM.
pub open spec fn stack_is_ram(s: MachineView, n: int) -> bool {
    forall|k: int|
        0 <= k < n ==> #[trigger] s.mem.is_ram((0x100 + ((s.regs.stack - k + 256) % 256)) as u16)
}

/// A pop returns what the last push stored, and leaves the registers as before the push.
pub proof fn lemma_push_pop(s: MachineView, v: u8)
    requires
        stack_is_ram(s, 1),
    ensures
        s.push(v).pop_val() == v,
        s.push(v).popped().regs == s.regs,
{
    assert(s.mem.is_ram((0x100 + ((s.regs.stack - 0 + 256) % 256)) as u16));
}

/// JSR followed by RTS comes back to the instruction after the JSR, with the
/// stack pointer as before.
pub proof fn lemma_jsr_rts(jsr: &Operation, rts: &Operation, s: MachineView)
    requires
        jsr.address is Some,
        stack_is_ram(s, 2),
    ensures
        spec_op_rts(rts, spec_op_jsr(jsr, s).0).0.regs.counter == s.regs.counter,
        spec_op_rts(rts, spec_op_jsr(jsr, s).0).0.regs.stack == s.regs.stack,
{
    assert(s.mem.is_ram((0x100 + ((s.regs.stack - 0 + 256) % 256)) as u16));
    assert(s.mem.is_ram((0x100 + ((s.regs.stack - 1 + 256) % 256)) as u16));
}

/// An interrupt followed by RTI restores the program counter, the flags
/// and the stack pointer.
pub proof fn lemma_interrupt_rti(rti: &Operation, s: MachineView, vector: u16)
    requires
        stack_is_ram(s, 3),
    ensures
        spec_op_rti(rti, s.interrupt(vector)).0.regs.counter == s.regs.counter,
        spec_op_rti(rti, s.interrupt(vector)).0.regs.status == s.regs.status,
        spec_op_rti(rti, s.interrupt(vector)).0.regs.stack == s.regs.stack,
{
    assert(s.mem.is_ram((0x100 + ((s.regs.stack - 0 + 256) % 256)) as u16));
    assert(s.mem.is_ram((0x100 + ((s.regs.stack - 1 + 256) % 256)) as u16));
    assert(s.mem.is_ram((0x100 + ((s.regs.stack - 2 + 256) % 256)) as u16));
    lemma_status_round_trip(s.regs.status);
}

/// PHA followed by PLA leaves the accumulator and the stack pointer as they were.
pub proof fn lemma_pha_pla(pha: &Operation, pla: &Operation, s: MachineView)
    requires
        pha.def.mnemonic == Mnemonic::PHA,
        stack_is_ram(s, 1),
    ensures
        spec_op_pla(pla, spec_op_push(pha, s).0).0.regs.accumulator == s.regs.accumulator,
        spec_op_pla(pla, spec_op_push(pha, s).0).0.regs.stack == s.regs.stack,
{
    lemma_push_pop(s, s.regs.accumulator);
}

/// PHP followed by PLP restores the flags and the stack pointer.
pub proof fn lemma_php_plp(php: &Operation, plp: &Operation, s: MachineView)
    requires
        php.def.mnemonic == Mnemonic::PHP,
        stack_is_ram(s, 1),
    ensures
        spec_op_plp(plp, spec_op_push(php, s).0).0.regs.status == s.regs.status,
        spec_op_plp(plp, spec_op_push(php, s).0).0.regs.stack == s.regs.stack,
{
    lemma_push_pop(s, spec_status_to_byte(s.regs.status));
    lemma_status_round_trip(s.regs.status);
}

/// Binary ADC: the carry out and the new accumulator together make the
/// sum of the accumulator, the operand and the carry in.
pub proof fn lemma_adc_sum(op: &Operation, s: MachineView)
    requires
        op.def.mnemonic == Mnemonic::ADC,
        spec_op_arithmetic_ok(op, s),
    ensures
        ({
            let r = spec_op_arithmetic(op, s).0.regs;
            256 * (if r.status.carry {
                1int
            } else {
                0
            }) + r.accumulator == s.regs.accumulator + spec_get_val(op, s)->0 + carry_bit(
                s.regs.status,
            )
        }),
{
}

/// Binary SBC: the new accumulator is the difference of the accumulator and
/// the operand less the borrow (a clear carry), and the carry out is set
/// exactly when no borrow was needed.
pub proof fn lemma_sbc_difference(op: &Operation, s: MachineView)
    requires
        op.def.mnemonic == Mnemonic::SBC,
        spec_op_arithmetic_ok(op, s),
    ensures
        ({
            let r = spec_op_arithmetic(op, s).0.regs;
            let d = s.regs.accumulator - spec_get_val(op, s)->0 - (1 - carry_bit(s.regs.status));
            &&& r.accumulator == (d + 256) % 256
            &&& r.status.carry == (d >= 0)
        }),
{
}

/// The value of a byte read as a two's complement number.
pub open spec fn signed(v: u8) -> int {
    if v < 128 {
        v as int
    } else {
        v - 256
    }
}

/// Binary ADC sets V exactly when the signed sum does not fit in a byte.
pub proof fn lemma_adc_overflow(op: &Operation, s: MachineView)
    requires
        op.def.mnemonic == Mnemonic::ADC,
        spec_op_arithmetic_ok(op, s),
    ensures
        ({
            let m = spec_get_val(op, s)->0;
            let sum = signed(s.regs.accumulator) + signed(m) + carry_bit(s.regs.status);
            spec_op_arithmetic(op, s).0.regs.status.overflow == !(-128 <= sum <= 127)
        }),
{
}

/// Decimal ADC on valid BCD operands gives the BCD of the decimal sum modulo
/// 100, with the carry telling whether it passed 99.
#[verifier::spinoff_prover]
#[verifier::rlimit(40)]
pub proof fn lemma_adc_decimal(op: &Operation, s: MachineView)
    requires
        op.def.mnemonic == Mnemonic::ADC,
        spec_op_arithmetic_bcd_ok(op, s),
        is_valid_bcd(s.regs.accumulator),
        is_valid_bcd(spec_get_val(op, s)->0),
    ensures
        ({
            let r = spec_op_arithmetic_bcd(op, s).0.regs;
            let sum = spec_bcd_to_dec(s.regs.accumulator) + spec_bcd_to_dec(spec_get_val(op, s)->0)
                + carry_bit(s.regs.status);
            &&& spec_bcd_to_dec(r.accumulator) == sum % 100
            &&& is_valid_bcd(r.accumulator)
            &&& r.status.carry == (sum > 99)
        }),
{
}

/// A comparison sets C when the register is at least the operand and Z
/// when they are equal.
pub proof fn lemma_compare(op: &Operation, s: MachineView)
    requires
        spec_op_compare_ok(op, s),
    ensures
        ({
            let r = spec_op_compare(op, s).0.regs;
            let reg = compare_register(op.def.mnemonic, s);
            let m = spec_get_val(op, s)->0;
            &&& r.status.carry == (reg >= m)
            &&& r.status.zero == (reg == m)
            &&& r.accumulator == s.regs.accumulator
        }),
{
}

/// With I set, a maskable interrupt changes nothing.
pub proof fn lemma_irq_masked(s: MachineView)
    requires
        s.regs.status.interrupt_disable,
    ensures
        s.irq() == s,
{
}

} // verus!
