use machine::mos6502::opcodes_impl::{neg, zero};
use machine::utils::{bcd_to_dec, dec_to_bcd};
use machine::mos6502::{AddressMode, Mnemonic, Operand, Operation, OperationDef};

#[test]
fn test_utils() {
    assert!(neg(0x80));
    assert!(zero(0));
}

#[test]
fn test_bcd_conversions() {
    assert_eq!(45, bcd_to_dec(0x45));
}

#[test]
fn bcd_round_trip() {
    assert_eq!(0x99, dec_to_bcd(99));
    assert_eq!(0x07, dec_to_bcd(7));
    for v in 0u8..100 {
        assert_eq!(v, bcd_to_dec(dec_to_bcd(v)));
    }
}

#[test]
fn neg_and_zero_edges() {
    assert!(!neg(0x7f));
    assert!(neg(0xff));
    assert!(!zero(1));
}

fn op(mnemonic: Mnemonic, mode: AddressMode, operand: Option<Operand>) -> Operation {
    let def = OperationDef {
        opcode: 0,
        mnemonic,
        cycles: 2,
        page_boundary_cycle: false,
        address_mode: mode,
        fn_name: String::new(),
    };
    Operation::new(def, operand, None)
}

#[test]
fn operation_text() {
    assert_eq!("LDA #$0a", op(Mnemonic::LDA, AddressMode::Immediate, Some(Operand::Byte(0x0a))).to_text());
    assert_eq!("STA $0400, X", op(Mnemonic::STA, AddressMode::AbsoluteX, Some(Operand::Word(0x400))).to_text());
    assert_eq!("LDX $ff, Y", op(Mnemonic::LDX, AddressMode::ZeroPageY, Some(Operand::Byte(0xff))).to_text());
    assert_eq!("ASL A", op(Mnemonic::ASL, AddressMode::Accumulator, None).to_text());
    assert_eq!("NOP", op(Mnemonic::NOP, AddressMode::Implicit, None).to_text());
    assert_eq!("JMP ($c0de)", op(Mnemonic::JMP, AddressMode::Indirect, Some(Operand::Word(0xc0de))).to_text());
    assert_eq!("LDA ($10, X)", op(Mnemonic::LDA, AddressMode::IndirectX, Some(Operand::Byte(0x10))).to_text());
    assert_eq!("LDA, ($10), Y", op(Mnemonic::LDA, AddressMode::IndirectY, Some(Operand::Byte(0x10))).to_text());
    assert_eq!("BNE $fe", op(Mnemonic::BNE, AddressMode::Relative, Some(Operand::Byte(0xfe))).to_text());
}
