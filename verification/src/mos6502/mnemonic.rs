use vstd::prelude::*;
use crate::text::same_text;

verus! {

/// The mnemonics of the documented 6502 instructions.
#[derive(Debug, Copy, Clone, PartialEq, Eq, Structural)]
pub enum Mnemonic {
    ADC,
    AND,
    ASL,
    BCC,
    BCS,
    BEQ,
    BIT,
    BMI,
    BNE,
    BPL,
    BRK,
    BVC,
    BVS,
    CLC,
    CLD,
    CLI,
    CLV,
    CMP,
    CPX,
    CPY,
    DEC,
    DEX,
    DEY,
    EOR,
    INC,
    INX,
    INY,
    JMP,
    JSR,
    LDA,
    LDX,
    LDY,
    LSR,
    NOP,
    ORA,
    PHA,
    PHP,
    PLA,
    PLP,
    ROL,
    ROR,
    RTI,
    RTS,
    SBC,
    SEC,
    SED,
    SEI,
    STA,
    STX,
    STY,
    TAX,
    TAY,
    TSX,
    TXA,
    TXS,
    TYA,
}

/// The assembler spelling of a mnemonic.
pub open spec fn spec_mnemonic_name(m: Mnemonic) -> Seq<char> {
    match m {
        Mnemonic::ADC => "ADC"@,
        Mnemonic::AND => "AND"@,
        Mnemonic::ASL => "ASL"@,
        Mnemonic::BCC => "BCC"@,
        Mnemonic::BCS => "BCS"@,
        Mnemonic::BEQ => "BEQ"@,
        Mnemonic::BIT => "BIT"@,
        Mnemonic::BMI => "BMI"@,
        Mnemonic::BNE => "BNE"@,
        Mnemonic::BPL => "BPL"@,
        Mnemonic::BRK => "BRK"@,
        Mnemonic::BVC => "BVC"@,
        Mnemonic::BVS => "BVS"@,
        Mnemonic::CLC => "CLC"@,
        Mnemonic::CLD => "CLD"@,
        Mnemonic::CLI => "CLI"@,
        Mnemonic::CLV => "CLV"@,
        Mnemonic::CMP => "CMP"@,
        Mnemonic::CPX => "CPX"@,
        Mnemonic::CPY => "CPY"@,
        Mnemonic::DEC => "DEC"@,
        Mnemonic::DEX => "DEX"@,
        Mnemonic::DEY => "DEY"@,
        Mnemonic::EOR => "EOR"@,
        Mnemonic::INC => "INC"@,
        Mnemonic::INX => "INX"@,
        Mnemonic::INY => "INY"@,
        Mnemonic::JMP => "JMP"@,
        Mnemonic::JSR => "JSR"@,
        Mnemonic::LDA => "LDA"@,
        Mnemonic::LDX => "LDX"@,
        Mnemonic::LDY => "LDY"@,
        Mnemonic::LSR => "LSR"@,
        Mnemonic::NOP => "NOP"@,
        Mnemonic::ORA => "ORA"@,
        Mnemonic::PHA => "PHA"@,
        Mnemonic::PHP => "PHP"@,
        Mnemonic::PLA => "PLA"@,
        Mnemonic::PLP => "PLP"@,
        Mnemonic::ROL => "ROL"@,
        Mnemonic::ROR => "ROR"@,
        Mnemonic::RTI => "RTI"@,
        Mnemonic::RTS => "RTS"@,
        Mnemonic::SBC => "SBC"@,
        Mnemonic::SEC => "SEC"@,
        Mnemonic::SED => "SED"@,
        Mnemonic::SEI => "SEI"@,
        Mnemonic::STA => "STA"@,
        Mnemonic::STX => "STX"@,
        Mnemonic::STY => "STY"@,
        Mnemonic::TAX => "TAX"@,
        Mnemonic::TAY => "TAY"@,
        Mnemonic::TSX => "TSX"@,
        Mnemonic::TXA => "TXA"@,
        Mnemonic::TXS => "TXS"@,
        Mnemonic::TYA => "TYA"@,
    }
}

impl Mnemonic {
    /// The assembler spelling of the mnemonic.
    pub fn name(&self) -> (r: &'static str)
        ensures
            r@ == spec_mnemonic_name(*self),
    {
        match self {
            Mnemonic::ADC => "ADC",
            Mnemonic::AND => "AND",
            Mnemonic::ASL => "ASL",
            Mnemonic::BCC => "BCC",
            Mnemonic::BCS => "BCS",
            Mnemonic::BEQ => "BEQ",
            Mnemonic::BIT => "BIT",
            Mnemonic::BMI => "BMI",
            Mnemonic::BNE => "BNE",
            Mnemonic::BPL => "BPL",
            Mnemonic::BRK => "BRK",
            Mnemonic::BVC => "BVC",
            Mnemonic::BVS => "BVS",
            Mnemonic::CLC => "CLC",
            Mnemonic::CLD => "CLD",
            Mnemonic::CLI => "CLI",
            Mnemonic::CLV => "CLV",
            Mnemonic::CMP => "CMP",
            Mnemonic::CPX => "CPX",
            Mnemonic::CPY => "CPY",
            Mnemonic::DEC => "DEC",
            Mnemonic::DEX => "DEX",
            Mnemonic::DEY => "DEY",
            Mnemonic::EOR => "EOR",
            Mnemonic::INC => "INC",
            Mnemonic::INX => "INX",
            Mnemonic::INY => "INY",
            Mnemonic::JMP => "JMP",
            Mnemonic::JSR => "JSR",
            Mnemonic::LDA => "LDA",
            Mnemonic::LDX => "LDX",
            Mnemonic::LDY => "LDY",
            Mnemonic::LSR => "LSR",
            Mnemonic::NOP => "NOP",
            Mnemonic::ORA => "ORA",
            Mnemonic::PHA => "PHA",
            Mnemonic::PHP => "PHP",
            Mnemonic::PLA => "PLA",
            Mnemonic::PLP => "PLP",
            Mnemonic::ROL => "ROL",
            Mnemonic::ROR => "ROR",
            Mnemonic::RTI => "RTI",
            Mnemonic::RTS => "RTS",
            Mnemonic::SBC => "SBC",
            Mnemonic::SEC => "SEC",
            Mnemonic::SED => "SED",
            Mnemonic::SEI => "SEI",
            Mnemonic::STA => "STA",
            Mnemonic::STX => "STX",
            Mnemonic::STY => "STY",
            Mnemonic::TAX => "TAX",
            Mnemonic::TAY => "TAY",
            Mnemonic::TSX => "TSX",
            Mnemonic::TXA => "TXA",
            Mnemonic::TXS => "TXS",
            Mnemonic::TYA => "TYA",
        }
    }
}

/// The position of a mnemonic in alphabetical order.
pub open spec fn mnemonic_index(m: Mnemonic) -> int {
    match m {
        Mnemonic::ADC => 0,
        Mnemonic::AND => 1,
        Mnemonic::ASL => 2,
        Mnemonic::BCC => 3,
        Mnemonic::BCS => 4,
        Mnemonic::BEQ => 5,
        Mnemonic::BIT => 6,
        Mnemonic::BMI => 7,
        Mnemonic::BNE => 8,
        Mnemonic::BPL => 9,
        Mnemonic::BRK => 10,
        Mnemonic::BVC => 11,
        Mnemonic::BVS => 12,
        Mnemonic::CLC => 13,
        Mnemonic::CLD => 14,
        Mnemonic::CLI => 15,
        Mnemonic::CLV => 16,
        Mnemonic::CMP => 17,
        Mnemonic::CPX => 18,
        Mnemonic::CPY => 19,
        Mnemonic::DEC => 20,
        Mnemonic::DEX => 21,
        Mnemonic::DEY => 22,
        Mnemonic::EOR => 23,
        Mnemonic::INC => 24,
        Mnemonic::INX => 25,
        Mnemonic::INY => 26,
        Mnemonic::JMP => 27,
        Mnemonic::JSR => 28,
        Mnemonic::LDA => 29,
        Mnemonic::LDX => 30,
        Mnemonic::LDY => 31,
        Mnemonic::LSR => 32,
        Mnemonic::NOP => 33,
        Mnemonic::ORA => 34,
        Mnemonic::PHA => 35,
        Mnemonic::PHP => 36,
        Mnemonic::PLA => 37,
        Mnemonic::PLP => 38,
        Mnemonic::ROL => 39,
        Mnemonic::ROR => 40,
        Mnemonic::RTI => 41,
        Mnemonic::RTS => 42,
        Mnemonic::SBC => 43,
        Mnemonic::SEC => 44,
        Mnemonic::SED => 45,
        Mnemonic::SEI => 46,
        Mnemonic::STA => 47,
        Mnemonic::STX => 48,
        Mnemonic::STY => 49,
        Mnemonic::TAX => 50,
        Mnemonic::TAY => 51,
        Mnemonic::TSX => 52,
        Mnemonic::TXA => 53,
        Mnemonic::TXS => 54,
        Mnemonic::TYA => 55,
    }
}

/// All mnemonics, in alphabetical order.
fn all_mnemonics() -> (r: [Mnemonic; 56])
    ensures
        forall|m: Mnemonic| #[trigger] r@[mnemonic_index(m)] == m,
        forall|m: Mnemonic| 0 <= #[trigger] mnemonic_index(m) < 56,
{
    [
            Mnemonic::ADC,
            Mnemonic::AND,
            Mnemonic::ASL,
            Mnemonic::BCC,
            Mnemonic::BCS,
            Mnemonic::BEQ,
            Mnemonic::BIT,
            Mnemonic::BMI,
            Mnemonic::BNE,
            Mnemonic::BPL,
            Mnemonic::BRK,
            Mnemonic::BVC,
            Mnemonic::BVS,
            Mnemonic::CLC,
            Mnemonic::CLD,
            Mnemonic::CLI,
            Mnemonic::CLV,
            Mnemonic::CMP,
            Mnemonic::CPX,
            Mnemonic::CPY,
            Mnemonic::DEC,
            Mnemonic::DEX,
            Mnemonic::DEY,
            Mnemonic::EOR,
            Mnemonic::INC,
            Mnemonic::INX,
            Mnemonic::INY,
            Mnemonic::JMP,
            Mnemonic::JSR,
            Mnemonic::LDA,
            Mnemonic::LDX,
            Mnemonic::LDY,
            Mnemonic::LSR,
            Mnemonic::NOP,
            Mnemonic::ORA,
            Mnemonic::PHA,
            Mnemonic::PHP,
            Mnemonic::PLA,
            Mnemonic::PLP,
            Mnemonic::ROL,
            Mnemonic::ROR,
            Mnemonic::RTI,
            Mnemonic::RTS,
            Mnemonic::SBC,
            Mnemonic::SEC,
            Mnemonic::SED,
            Mnemonic::SEI,
            Mnemonic::STA,
            Mnemonic::STX,
            Mnemonic::STY,
            Mnemonic::TAX,
            Mnemonic::TAY,
            Mnemonic::TSX,
            Mnemonic::TXA,
            Mnemonic::TXS,
            Mnemonic::TYA,
    ]
}

impl Mnemonic {
    /// The mnemonic spelled `name`, if any.
    pub fn from_name(name: &str) -> (r: Option<Mnemonic>)
        ensures
            match r {
                Some(m) => spec_mnemonic_name(m) == name@,
                None => forall|m: Mnemonic| spec_mnemonic_name(m) != name@,
            },
    {
        let all = all_mnemonics();
        let mut i: usize = 0;
        while i < 56
            invariant
                i <= 56,
                forall|m: Mnemonic| #[trigger] all@[mnemonic_index(m)] == m,
                forall|m: Mnemonic| 0 <= #[trigger] mnemonic_index(m) < 56,
                forall|j: int| 0 <= j < i ==> spec_mnemonic_name(#[trigger] all@[j]) != name@,
            decreases 56 - i,
        {
            if same_text(all[i].name(), name) {
                return Some(all[i]);
            }
            i = i + 1;
        }
        proof {
            assert forall|m: Mnemonic| spec_mnemonic_name(m) != name@ by {
                assert(all@[mnemonic_index(m)] == m);
            }
        }
        None
    }
}

} // verus!
