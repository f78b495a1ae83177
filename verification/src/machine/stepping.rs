use vstd::prelude::*;
use super::machine::{
    spec_decode_address_ok, spec_fetch, spec_next, spec_next_ok, MachineStatus, MachineView,
};
use super::MOS6502Machine;
use crate::mos6502::opcodes_def::{is_instruction_table, op_entry, spec_op_entry};
use crate::mos6502::opcodes_impl::{carry_bit, get_val, spec_get_val};
use crate::mos6502::table_laws::{decimal_sum_fits, lemma_adc_reads_value, lemma_defined_opcode_runs};
use crate::mos6502::{AddressMode, Mnemonic, Operand, Operation, OperationDef};
use crate::utils::{bcd_to_dec, spec_bcd_to_dec};

verus! {

/// The instruction at the program counter is defined, its address stays
/// within 64 KiB and, in decimal mode, an ADC sum fits in a byte.
pub open spec fn can_run(ops: Map<u8, OperationDef>, s: MachineView) -> bool {
    &&& spec_op_entry(s.read(s.regs.counter)) is Some
    &&& ({
        let (op, s2) = spec_fetch(ops, s);
        op.operand matches Some(o) ==> spec_decode_address_ok(op.def, o, s2)
    })
    &&& decimal_sum_fits(ops, s)
}

impl MOS6502Machine {
    /// Whether `operand` designates an address within 64 KiB in the mode of `op`.
    pub fn address_ok(&self, op: &OperationDef, operand: &Operand) -> (r: bool)
        ensures
            r == spec_decode_address_ok(*op, *operand, self@),
    {
        match op.address_mode {
            AddressMode::AbsoluteX => match operand {
                Operand::Word(w) => (*w as u32) + (self.X8() as u32) <= 0xffff,
                Operand::Byte(_) => false,
            },
            AddressMode::AbsoluteY => match operand {
                Operand::Word(w) => (*w as u32) + (self.Y8() as u32) <= 0xffff,
                Operand::Byte(_) => false,
            },
            AddressMode::ZeroPage | AddressMode::ZeroPageX | AddressMode::ZeroPageY
            | AddressMode::IndirectX | AddressMode::Relative => match operand {
                Operand::Byte(_) => true,
                Operand::Word(_) => false,
            },
            AddressMode::Indirect => match operand {
                Operand::Word(w) => *w < 0xffff,
                Operand::Byte(_) => false,
            },
            AddressMode::IndirectY => match operand {
                Operand::Byte(b) => {
                    let lo = self.get_byte(*b as u16) as u32;
                    let hi = self.get_byte(((*b as u16) + 1) % 256) as u32;
                    lo + 256 * hi + (self.Y8() as u32) <= 0xffff
                },
                Operand::Word(_) => false,
            },
            _ => true,
        }
    }

    /// Runs the instruction at the program counter, where it can run: the
    /// opcode is defined, the address it computes stays within 64 KiB and a
    /// decimal ADC sum fits in a byte. Elsewhere the machine is left as it
    /// was and the result is `None`. `Some` tells whether the machine is
    /// still not stopped afterwards.
    pub fn try_next(&mut self) -> (r: Option<bool>)
        requires
            is_instruction_table(old(self).mos6502.operations@),
        ensures
            final(self).same_setup(old(self)),
            r is Some <==> can_run(old(self).mos6502.operations@, old(self)@),
            r is None ==> final(self)@ == old(self)@,
            r matches Some(b) ==> spec_next_ok(old(self).mos6502.operations@, old(self)@)
                && final(self)@ == spec_next(old(self).mos6502.operations@, old(self)@).0 && b == (
            final(self)@.status != MachineStatus::Stopped),
    {
        let ghost s0 = self@;
        let ghost ops = self.mos6502.operations@;
        let pc = self.PC();
        let opcode = self.get_byte(pc);
        if op_entry(opcode).is_none() {
            return None;
        }
        let def = self.decode_op();
        assert(ops.contains_key(opcode));
        assert(def.matches_entry(opcode, spec_op_entry(opcode)->0));
        let operand = self.decode_operand(&def);
        let address = match &operand {
            None => None,
            Some(o) => {
                if !self.address_ok(&def, o) {
                    self.set_PC(pc);
                    assert(self@ == s0);
                    return None;
                }
                self.decode_address(&def, o)
            },
        };
        let op = Operation::new(def.clone(), operand, address);
        assert(op == spec_fetch(ops, s0).0);
        assert(self@ == spec_fetch(ops, s0).1);
        if self.P().decimal_mode && op.def.mnemonic == Mnemonic::ADC {
            let fits = match get_val(&op, self) {
                Some(v) => {
                    let c: u16 = if self.P().carry {
                        1
                    } else {
                        0
                    };
                    (bcd_to_dec(self.A8()) as u16) + c + (bcd_to_dec(v) as u16) <= 255
                },
                None => {
                    proof {
                        lemma_adc_reads_value(opcode);
                    }
                    true
                },
            };
            if !fits {
                self.set_PC(pc);
                assert(self@ == s0);
                return None;
            }
        }
        proof {
            lemma_defined_opcode_runs(ops, s0);
        }
        self.execute_operation(&op);
        Some(self.get_status() != MachineStatus::Stopped)
    }

    /// One turn of the machine loop: a paused machine does nothing; else
    /// the instruction at the program counter runs and, on reaching the
    /// configured exit address, the machine pauses. The result is the
    /// status after the turn, or `None` where the instruction cannot run
    /// (the machine is then left as it was).
    pub fn run_turn(&mut self) -> (r: Option<MachineStatus>)
        requires
            is_instruction_table(old(self).mos6502.operations@),
        ensures
            final(self).same_setup(old(self)),
            old(self)@.status == MachineStatus::Debug ==> r == Some(MachineStatus::Debug)
                && final(self)@ == old(self)@,
            old(self)@.status != MachineStatus::Debug && !can_run(
                old(self).mos6502.operations@,
                old(self)@,
            ) ==> r is None && final(self)@ == old(self)@,
            old(self)@.status != MachineStatus::Debug && can_run(
                old(self).mos6502.operations@,
                old(self)@,
            ) ==> ({
                let s1 = spec_next(old(self).mos6502.operations@, old(self)@).0;
                &&& final(self)@ == if old(self).config.exit_on_addr == Some(s1.regs.counter) {
                    s1.with_status(MachineStatus::Debug)
                } else {
                    s1
                }
                &&& r == Some(final(self)@.status)
            }),
    {
        if self.get_status() == MachineStatus::Debug {
            return Some(MachineStatus::Debug);
        }
        match self.try_next() {
            None => None,
            Some(_) => {
                if let Some(addr) = self.get_config().exit_on_addr {
                    if self.PC() == addr {
                        self.debug();
                    }
                }
                Some(self.get_status())
            },
        }
    }
}

} // verus!
