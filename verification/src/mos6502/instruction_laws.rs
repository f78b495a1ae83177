use vstd::prelude::*;
use super::opcodes_impl::{spec_execute, spec_execute_ok, spec_family_of, spec_get_val};
use super::{Mnemonic, OpFamily, Operation};
use crate::machine::machine::MachineView;

verus! {

/// AND, ORA and EOR act on each bit of the accumulator apart: where the
/// operand bit is set, AND keeps the accumulator bit, ORA sets it and EOR
/// flips it; where it is clear, AND clears the bit and ORA and EOR keep it.
/// N and Z follow the result; nothing but the accumulator and those flags
/// changes.
pub proof fn lemma_logic_bits(op: &Operation, s: MachineView)
    requires
        spec_family_of(op.def.fn_name@) == Some(OpFamily::Bitwise),
        spec_execute_ok(op, s),
    ensures
        ({
            let a = s.regs.accumulator;
            let m = spec_get_val(op, s)->0;
            let t = spec_execute(op, s).0;
            let r = t.regs.accumulator;
            &&& op.def.mnemonic == Mnemonic::AND ==> r & m == a & m && r & !m == 0
            &&& op.def.mnemonic == Mnemonic::ORA ==> r & m == m && r & !m == a & !m
            &&& op.def.mnemonic == Mnemonic::EOR ==> r & m == !a & m && r & !m == a & !m
            &&& t.regs.status.zero == (r == 0)
            &&& t.regs.status.negative == (r >= 128)
            &&& t.regs.status.carry == s.regs.status.carry
            &&& t.regs.status.overflow == s.regs.status.overflow
            &&& t.regs.x == s.regs.x
            &&& t.regs.y == s.regs.y
            &&& t.regs.counter == s.regs.counter
            &&& t.mem == s.mem
        }),
{
    let a = s.regs.accumulator;
    let m = spec_get_val(op, s)->0;
    assert((a & m) & m == a & m && (a & m) & !m == 0) by (bit_vector);
    assert((a | m) & m == m && (a | m) & !m == a & !m) by (bit_vector);
    assert((a ^ m) & m == !a & m && (a ^ m) & !m == a & !m) by (bit_vector);
}

/// EOR of the accumulator with itself clears it and sets Z.
pub proof fn lemma_eor_self(op: &Operation, s: MachineView)
    requires
        spec_family_of(op.def.fn_name@) == Some(OpFamily::Bitwise),
        spec_execute_ok(op, s),
        op.def.mnemonic == Mnemonic::EOR,
        spec_get_val(op, s)->0 == s.regs.accumulator,
    ensures
        spec_execute(op, s).0.regs.accumulator == 0,
        spec_execute(op, s).0.regs.status.zero,
{
    let a = s.regs.accumulator;
    assert(a ^ a == 0) by (bit_vector);
}

/// A conditional branch jumps to its address exactly when its flag has the
/// value it tests (BCC: carry clear, BCS: carry set, BNE: zero clear, BEQ:
/// zero set, BPL: negative clear, BMI: negative set, BVC: overflow clear,
/// BVS: overflow set); otherwise the state stays as it is.
pub proof fn lemma_branch_condition(op: &Operation, s: MachineView)
    requires
        spec_family_of(op.def.fn_name@) == Some(OpFamily::Branch),
        spec_execute_ok(op, s),
    ensures
        ({
            let p = s.regs.status;
            let m = op.def.mnemonic;
            let taken = if m == Mnemonic::BCC {
                !p.carry
            } else if m == Mnemonic::BCS {
                p.carry
            } else if m == Mnemonic::BNE {
                !p.zero
            } else if m == Mnemonic::BEQ {
                p.zero
            } else if m == Mnemonic::BPL {
                !p.negative
            } else if m == Mnemonic::BMI {
                p.negative
            } else if m == Mnemonic::BVC {
                !p.overflow
            } else {
                p.overflow
            };
            spec_execute(op, s).0 == if taken {
                s.set_pc(op.address->0)
            } else {
                s
            }
        }),
{
}

/// The two branches on one flag are taken in complementary cases: on the
/// same state, exactly one of BCC and BCS jumps, and likewise for BNE and
/// BEQ, BPL and BMI, BVC and BVS.
pub proof fn lemma_branch_pairs(clear: &Operation, set: &Operation, s: MachineView)
    requires
        spec_family_of(clear.def.fn_name@) == Some(OpFamily::Branch),
        spec_family_of(set.def.fn_name@) == Some(OpFamily::Branch),
        spec_execute_ok(clear, s),
        spec_execute_ok(set, s),
        clear.address == set.address,
        clear.address->0 != s.regs.counter,
        (clear.def.mnemonic == Mnemonic::BCC && set.def.mnemonic == Mnemonic::BCS)
            || (clear.def.mnemonic == Mnemonic::BNE && set.def.mnemonic == Mnemonic::BEQ)
            || (clear.def.mnemonic == Mnemonic::BPL && set.def.mnemonic == Mnemonic::BMI)
            || (clear.def.mnemonic == Mnemonic::BVC && set.def.mnemonic == Mnemonic::BVS),
    ensures
        (spec_execute(clear, s).0.regs.counter == s.regs.counter) != (spec_execute(
            set,
            s,
        ).0.regs.counter == s.regs.counter),
{
    lemma_branch_condition(clear, s);
    lemma_branch_condition(set, s);
}



/// Where a shift or rotate put its result `r`: at the operation's address,
/// or in the accumulator.
pub open spec fn stored_at(op: &Operation, s: MachineView, t: MachineView, r: u8) -> bool {
    match op.address {
        Some(a) => t.mem == s.write(a, r).mem && t.regs.accumulator == s.regs.accumulator,
        None => t.regs.accumulator == r && t.mem == s.mem,
    }
}

/// Shifts and rotates move the bits of the value by one place, the bit that
/// leaves goes to the carry, and the bit that enters is 0 for ASL and LSR and
/// the old carry for ROL and ROR: in numbers, with `c` the old carry and `c'`
/// the new one, ASL and ROL give `2v + c == 256c' + r` (c = 0 for ASL), LSR
/// and ROR give `v + 256c == 2r + c'` (c = 0 for LSR). N and Z follow `r`.
pub proof fn lemma_shift_rotate(op: &Operation, s: MachineView)
    requires
        spec_family_of(op.def.fn_name@) == Some(OpFamily::Shift) || spec_family_of(op.def.fn_name@)
            == Some(OpFamily::Rotate),
        spec_execute_ok(op, s),
    ensures
        ({
            let v = spec_get_val(op, s)->0 as int;
            let t = spec_execute(op, s).0;
            let cin: int = if s.regs.status.carry {
                1
            } else {
                0
            };
            let cout: int = if t.regs.status.carry {
                1
            } else {
                0
            };
            let m = op.def.mnemonic;
            exists|r: u8|
                #[trigger] stored_at(op, s, t, r) && t.regs.status.zero == (r == 0)
                    && t.regs.status.negative == (r >= 128) && (m == Mnemonic::ASL ==> 2 * v
                    == 256 * cout + r) && (m == Mnemonic::ROL ==> 2 * v + cin == 256 * cout + r)
                    && (m == Mnemonic::LSR ==> v == 2 * r + cout) && (m == Mnemonic::ROR ==> v + 256
                    * cin == 2 * r + cout)
        }),
{
    let v = spec_get_val(op, s)->0;
    let t = spec_execute(op, s).0;
    let c = s.regs.status.carry;
    let m = op.def.mnemonic;
    let r: u8 = if m == Mnemonic::ASL {
        ((v * 2) % 256) as u8
    } else if m == Mnemonic::LSR {
        (v / 2) as u8
    } else if m == Mnemonic::ROL {
        (((v * 2) % 256) + (if c {
            1int
        } else {
            0
        })) as u8
    } else {
        ((v / 2) + (if c {
            0x80int
        } else {
            0
        })) as u8
    };
    assert(stored_at(op, s, t, r));
}

/// BIT copies bit 7 of the operand to N and bit 6 to V, sets Z when the
/// operand and the accumulator share no set bit, and changes nothing else.
pub proof fn lemma_bit_test(op: &Operation, s: MachineView)
    requires
        spec_family_of(op.def.fn_name@) == Some(OpFamily::Bit),
        spec_execute_ok(op, s),
    ensures
        ({
            let v = spec_get_val(op, s)->0;
            let t = spec_execute(op, s).0;
            &&& t.regs.status.negative == (v >= 128)
            &&& t.regs.status.overflow == (v % 128 >= 64)
            &&& t.regs.status.zero == (v & s.regs.accumulator == 0)
            &&& t.regs.status.carry == s.regs.status.carry
            &&& t.regs.accumulator == s.regs.accumulator
            &&& t.mem == s.mem
        }),
{
    let v = spec_get_val(op, s)->0;
    assert((v & 0x40 != 0) == (v % 128 >= 64)) by (bit_vector);
}

/// CMP, CPX and CPY compare the register their name gives (A, X, Y) with the
/// operand: carry when the register is at least the operand, Z when they are
/// equal, N from bit 7 of their difference; no register changes.
pub proof fn lemma_compare_registers(op: &Operation, s: MachineView)
    requires
        spec_family_of(op.def.fn_name@) == Some(OpFamily::Compare),
        spec_execute_ok(op, s),
    ensures
        ({
            let v = spec_get_val(op, s)->0;
            let t = spec_execute(op, s).0;
            let m = op.def.mnemonic;
            let reg = if m == Mnemonic::CMP {
                s.regs.accumulator
            } else if m == Mnemonic::CPX {
                s.regs.x
            } else {
                s.regs.y
            };
            &&& t.regs.status.carry == (reg >= v)
            &&& t.regs.status.zero == (reg == v)
            &&& t.regs.status.negative == ((reg - v + 256) % 256 >= 128)
            &&& t.regs.accumulator == s.regs.accumulator
            &&& t.regs.x == s.regs.x
            &&& t.regs.y == s.regs.y
            &&& t.mem == s.mem
        }),
{
}

/// Loads put the value in the register their name gives (LDA: A, LDX: X,
/// LDY: Y) and leave the other two; stores write the register their name
/// gives at their address and change no register.
pub proof fn lemma_load_store(op: &Operation, s: MachineView)
    requires
        spec_family_of(op.def.fn_name@) == Some(OpFamily::Load) || spec_family_of(
            op.def.fn_name@,
        ) == Some(OpFamily::Store),
        spec_execute_ok(op, s),
    ensures
        ({
            let t = spec_execute(op, s).0;
            let m = op.def.mnemonic;
            let v = spec_get_val(op, s)->0;
            &&& m == Mnemonic::LDA ==> t.regs.accumulator == v && t.regs.x == s.regs.x && t.regs.y
                == s.regs.y
            &&& m == Mnemonic::LDX ==> t.regs.x == v && t.regs.accumulator == s.regs.accumulator
                && t.regs.y == s.regs.y
            &&& m == Mnemonic::LDY ==> t.regs.y == v && t.regs.accumulator == s.regs.accumulator
                && t.regs.x == s.regs.x
            &&& (m == Mnemonic::LDA || m == Mnemonic::LDX || m == Mnemonic::LDY) ==> t.mem == s.mem
                && t.regs.status.zero == (v == 0) && t.regs.status.negative == (v >= 128)
            &&& m == Mnemonic::STA ==> t == s.write(op.address->0, s.regs.accumulator)
            &&& m == Mnemonic::STX ==> t == s.write(op.address->0, s.regs.x)
            &&& m == Mnemonic::STY ==> t == s.write(op.address->0, s.regs.y)
        }),
{
}

/// INX, INY, DEX and DEY step the register their name gives by one,
/// wrapping: an increment followed by the matching decrement gives the
/// register back.
pub proof fn lemma_inc_dec_registers(inc: &Operation, dec: &Operation, s: MachineView)
    requires
        spec_family_of(inc.def.fn_name@) == Some(OpFamily::IncDecReg),
        spec_family_of(dec.def.fn_name@) == Some(OpFamily::IncDecReg),
        spec_execute_ok(inc, s),
        spec_execute_ok(dec, spec_execute(inc, s).0),
        (inc.def.mnemonic == Mnemonic::INX && dec.def.mnemonic == Mnemonic::DEX) || (
        inc.def.mnemonic == Mnemonic::INY && dec.def.mnemonic == Mnemonic::DEY),
    ensures
        ({
            let t = spec_execute(inc, s).0;
            let u = spec_execute(dec, t).0;
            &&& inc.def.mnemonic == Mnemonic::INX ==> t.regs.x == (s.regs.x + 1) % 256 && t.regs.y
                == s.regs.y
            &&& inc.def.mnemonic == Mnemonic::INY ==> t.regs.y == (s.regs.y + 1) % 256 && t.regs.x
                == s.regs.x
            &&& u.regs.x == s.regs.x
            &&& u.regs.y == s.regs.y
            &&& u.regs.accumulator == s.regs.accumulator
        }),
{
}

/// JMP goes to its address; the flag instructions set (SEC, SED, SEI) or
/// clear (CLC, CLD, CLI, CLV) the flag they name and no other.
pub proof fn lemma_jump_and_flags(op: &Operation, s: MachineView)
    requires
        spec_family_of(op.def.fn_name@) == Some(OpFamily::Jmp) || spec_family_of(op.def.fn_name@)
            == Some(OpFamily::Flag),
        spec_execute_ok(op, s),
    ensures
        ({
            let t = spec_execute(op, s).0;
            let p = s.regs.status;
            let q = t.regs.status;
            let m = op.def.mnemonic;
            &&& spec_family_of(op.def.fn_name@) == Some(OpFamily::Jmp) ==> t == s.set_pc(
                op.address->0,
            )
            &&& spec_family_of(op.def.fn_name@) == Some(OpFamily::Flag) ==> {
                &&& q.carry == if m == Mnemonic::CLC {
                    false
                } else if m == Mnemonic::SEC {
                    true
                } else {
                    p.carry
                }
                &&& q.decimal_mode == if m == Mnemonic::CLD {
                    false
                } else if m == Mnemonic::SED {
                    true
                } else {
                    p.decimal_mode
                }
                &&& q.interrupt_disable == if m == Mnemonic::CLI {
                    false
                } else if m == Mnemonic::SEI {
                    true
                } else {
                    p.interrupt_disable
                }
                &&& q.overflow == if m == Mnemonic::CLV {
                    false
                } else {
                    p.overflow
                }
                &&& q.zero == p.zero && q.negative == p.negative
                &&& t.regs.accumulator == s.regs.accumulator && t.mem == s.mem
            }
        }),
{
}

} // verus!
