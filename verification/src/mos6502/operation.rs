use vstd::prelude::*;
use vstd::string::StringExecFns;
use super::mnemonic::spec_mnemonic_name;
use super::{AddressMode, Operand, OperationDef};
use crate::cli::hex::{lemma_operand_text_parses, spec_parse_hex_u16};
use crate::text::{append_hex, spec_hex};

verus! {

/// A decoded instruction: its definition, its operand and the effective
/// address that the operand resolves to, where the mode has one.
#[derive(Debug)]
pub struct Operation {
    pub def: OperationDef,
    pub operand: Option<Operand>,
    pub address: Option<u16>,
}

impl Operation {
    pub fn new(def: OperationDef, operand: Option<Operand>, address: Option<u16>) -> (r: Self)
        ensures
            r.def == def,
            r.operand == operand,
            r.address == address,
    {
        Operation { def: def, operand: operand, address: address }
    }

    /// The operand in hexadecimal: two digits for a byte, four for a word.
    pub open spec fn operand_text(&self) -> Seq<char> {
        match self.operand {
            Some(Operand::Byte(b)) => spec_hex(b as nat, 2),
            Some(Operand::Word(w)) => spec_hex(w as nat, 4),
            None => Seq::empty(),
        }
    }

    /// The instruction in assembler notation, as a disassembly shows it.
    pub open spec fn spec_text(&self) -> Seq<char> {
        let m = spec_mnemonic_name(self.def.mnemonic);
        let o = self.operand_text();
        match self.def.address_mode {
            AddressMode::Implicit => m,
            AddressMode::Accumulator => m + " A"@,
            AddressMode::Immediate => m + " #$"@ + o,
            AddressMode::Relative => m + " $"@ + o,
            AddressMode::ZeroPage => m + " $"@ + o,
            AddressMode::ZeroPageX => m + " $"@ + o + ", X"@,
            AddressMode::ZeroPageY => m + " $"@ + o + ", Y"@,
            AddressMode::Absolute => m + " $"@ + o,
            AddressMode::AbsoluteX => m + " $"@ + o + ", X"@,
            AddressMode::AbsoluteY => m + " $"@ + o + ", Y"@,
            AddressMode::Indirect => m + " ($"@ + o + ")"@,
            AddressMode::IndirectX => m + " ($"@ + o + ", X)"@,
            AddressMode::IndirectY => m + ", ($"@ + o + "), Y"@,
        }
    }

    fn append_operand(&self, s: &mut String)
        ensures
            final(s)@ == old(s)@ + self.operand_text(),
    {
        match self.operand {
            Some(Operand::Byte(b)) => append_hex(s, b as u16, 2),
            Some(Operand::Word(w)) => append_hex(s, w, 4),
            None => {
                assert(s@ =~= old(s)@ + Seq::<char>::empty());
            },
        }
    }

    /// The instruction in assembler notation, such as `LDA #$0a` or
    /// `STA $0400, X`.
    pub fn to_text(&self) -> (r: String)
        ensures
            r@ == self.spec_text(),
    {
        let mut s = String::from_str(self.def.mnemonic.name());
        match self.def.address_mode {
            AddressMode::Implicit => {},
            AddressMode::Accumulator => s.append(" A"),
            AddressMode::Immediate => {
                s.append(" #$");
                self.append_operand(&mut s);
            },
            AddressMode::Relative | AddressMode::ZeroPage | AddressMode::Absolute => {
                s.append(" $");
                self.append_operand(&mut s);
            },
            AddressMode::ZeroPageX | AddressMode::AbsoluteX => {
                s.append(" $");
                self.append_operand(&mut s);
                s.append(", X");
            },
            AddressMode::ZeroPageY | AddressMode::AbsoluteY => {
                s.append(" $");
                self.append_operand(&mut s);
                s.append(", Y");
            },
            AddressMode::Indirect => {
                s.append(" ($");
                self.append_operand(&mut s);
                s.append(")");
            },
            AddressMode::IndirectX => {
                s.append(" ($");
                self.append_operand(&mut s);
                s.append(", X)");
            },
            AddressMode::IndirectY => {
                s.append(", ($");
                self.append_operand(&mut s);
                s.append("), Y");
            },
        }
        s
    }
}


/// The text of an operation starts with the mnemonic, and the indexed modes
/// end with the register they index by: ", X" for zero page,X and
/// absolute,X, ", Y" for zero page,Y and absolute,Y, ", X)" for (zp,X) and
/// "), Y" for (zp),Y. The immediate mode shows "#$" right after the
/// mnemonic and a space, and the accumulator mode ends with " A".
pub proof fn lemma_text_shape(op: Operation)
    ensures
        ({
            let t = op.spec_text();
            let m = spec_mnemonic_name(op.def.mnemonic);
            let mode = op.def.address_mode;
            &&& t.len() >= m.len() && t.take(m.len() as int) == m
            &&& (mode == AddressMode::ZeroPageX || mode == AddressMode::AbsoluteX) ==> t.len()
                >= 3 && t.skip(t.len() - 3) == ", X"@
            &&& (mode == AddressMode::ZeroPageY || mode == AddressMode::AbsoluteY) ==> t.len()
                >= 3 && t.skip(t.len() - 3) == ", Y"@
            &&& mode == AddressMode::IndirectX ==> t.len() >= 4 && t.skip(t.len() - 4) == ", X)"@
            &&& mode == AddressMode::IndirectY ==> t.len() >= 4 && t.skip(t.len() - 4) == "), Y"@
            &&& mode == AddressMode::Immediate ==> t.len() >= m.len() + 3 && t.subrange(
                m.len() as int,
                m.len() + 3int,
            ) == " #$"@
            &&& mode == AddressMode::Accumulator ==> t == m + " A"@
            &&& mode == AddressMode::Implicit ==> t == m
        }),
{
    let t = op.spec_text();
    let m = spec_mnemonic_name(op.def.mnemonic);
    let o = op.operand_text();
    reveal_strlit(", X");
    reveal_strlit(", Y");
    reveal_strlit(", X)");
    reveal_strlit("), Y");
    reveal_strlit(" #$");
    reveal_strlit(" $");
    reveal_strlit(" ($");
    reveal_strlit(", ($");
    reveal_strlit(")");
    reveal_strlit(" A");
    assert(t.take(m.len() as int) =~= m);
    match op.def.address_mode {
        AddressMode::ZeroPageX | AddressMode::AbsoluteX => {
            assert(t.skip(t.len() - 3) =~= ", X"@);
        },
        AddressMode::ZeroPageY | AddressMode::AbsoluteY => {
            assert(t.skip(t.len() - 3) =~= ", Y"@);
        },
        AddressMode::IndirectX => {
            assert(t.skip(t.len() - 4) =~= ", X)"@);
        },
        AddressMode::IndirectY => {
            assert(t.skip(t.len() - 4) =~= "), Y"@);
        },
        AddressMode::Immediate => {
            assert(t.subrange(m.len() as int, m.len() + 3int) =~= " #$"@);
        },
        _ => {},
    }
}


/// The operand that the text shows reads back, as hexadecimal, as the
/// operand itself; an operation without an operand shows none.
pub proof fn lemma_operand_text_reads_back(op: Operation)
    ensures
        match op.operand {
            Some(Operand::Byte(b)) => spec_parse_hex_u16(op.operand_text()) == Some(b as u16),
            Some(Operand::Word(w)) => spec_parse_hex_u16(op.operand_text()) == Some(w),
            None => op.operand_text().len() == 0,
        },
{
    match op.operand {
        Some(Operand::Byte(b)) => lemma_operand_text_parses(b, 0),
        Some(Operand::Word(w)) => lemma_operand_text_parses(0, w),
        None => {},
    }
}

} // verus!
