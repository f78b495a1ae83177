use machine::mos6502::Mnemonic;
use machine::machine::{MOS6502Machine, MachineConfig, MachineStatus};

fn machine_with(program: &[u8], at: u16) -> MOS6502Machine {
    let mut m = MOS6502Machine::new(MachineConfig::new());
    m.load(program, at);
    m.set_PC(at);
    m.set_status(MachineStatus::Running);
    m
}

fn steps(m: &mut MOS6502Machine, n: usize) {
    for _ in 0..n {
        m.next();
    }
}

#[test]
fn load_add_store() {
    // LDA #$05; ADC #$03; STA $10
    let mut m = machine_with(&[0xa9, 0x05, 0x69, 0x03, 0x85, 0x10], 0x0600);
    steps(&mut m, 3);
    assert_eq!(8, m.A8());
    assert_eq!(8, m.get_byte(0x10));
    assert_eq!(0x0606, m.PC());
    assert!(!m.P().carry);
    assert!(!m.P().zero);
}

#[test]
fn adc_carry_and_zero() {
    // LDA #$ff; ADC #$01
    let mut m = machine_with(&[0xa9, 0xff, 0x69, 0x01], 0x0600);
    steps(&mut m, 2);
    assert_eq!(0, m.A8());
    assert!(m.P().carry);
    assert!(m.P().zero);
    assert!(!m.P().overflow);
}

#[test]
fn adc_signed_overflow() {
    // LDA #$7f; ADC #$01
    let mut m = machine_with(&[0xa9, 0x7f, 0x69, 0x01], 0x0600);
    steps(&mut m, 2);
    assert_eq!(0x80, m.A8());
    assert!(m.P().overflow);
    assert!(m.P().negative);
    assert!(!m.P().carry);
}

#[test]
fn adc_decimal_mode() {
    // SED; CLC; LDA #$45; ADC #$38
    let mut m = machine_with(&[0xf8, 0x18, 0xa9, 0x45, 0x69, 0x38], 0x0600);
    steps(&mut m, 4);
    assert_eq!(0x83, m.A8());
    assert!(!m.P().carry);
}

#[test]
fn sbc_with_borrow() {
    // SEC; LDA #$10; SBC #$01
    let mut m = machine_with(&[0x38, 0xa9, 0x10, 0xe9, 0x01], 0x0600);
    steps(&mut m, 3);
    assert_eq!(0x0f, m.A8());
    assert!(m.P().carry);
}

#[test]
fn jsr_then_rts_returns_after_call() {
    // $0600: JSR $0700 ; $0700: RTS
    let mut m = machine_with(&[0x20, 0x00, 0x07], 0x0600);
    m.load(&[0x60], 0x0700);
    let sp = m.SC();
    steps(&mut m, 1);
    assert_eq!(0x0700, m.PC());
    assert_eq!(sp.wrapping_sub(2), m.SC());
    steps(&mut m, 1);
    assert_eq!(0x0603, m.PC());
    assert_eq!(sp, m.SC());
}

#[test]
fn pha_pla_round_trip() {
    // LDA #$42; PHA; LDA #$00; PLA
    let mut m = machine_with(&[0xa9, 0x42, 0x48, 0xa9, 0x00, 0x68], 0x0600);
    steps(&mut m, 4);
    assert_eq!(0x42, m.A8());
    assert!(!m.P().zero);
}

#[test]
fn cmp_sets_flags() {
    // LDA #$10; CMP #$10
    let mut m = machine_with(&[0xa9, 0x10, 0xc9, 0x10], 0x0600);
    steps(&mut m, 2);
    assert!(m.P().zero);
    assert!(m.P().carry);
    assert_eq!(0x10, m.A8());
}

#[test]
fn branch_taken_and_not_taken() {
    // LDX #$02; DEX; BNE -3 (back to DEX); then X == 0
    let mut m = machine_with(&[0xa2, 0x02, 0xca, 0xd0, 0xfd], 0x0600);
    steps(&mut m, 5);
    assert_eq!(0, m.X8());
    assert_eq!(0x0605, m.PC());
}

#[test]
fn push_pop_stack() {
    let mut m = MOS6502Machine::new(MachineConfig::new());
    let sp = m.SC();
    m.push(0x12);
    m.push(0x34);
    assert_eq!(0x34, m.pop());
    assert_eq!(0x12, m.pop());
    assert_eq!(sp, m.SC());
}

#[test]
fn irq_masked_when_interrupt_disabled() {
    let mut m = MOS6502Machine::new(MachineConfig::new());
    let mut p = m.P();
    p.interrupt_disable = true;
    m.set_P(p);
    m.set_PC(0x1234);
    m.irq();
    assert_eq!(0x1234, m.PC());
}

#[test]
fn nmi_jumps_through_vector() {
    let mut m = MOS6502Machine::new(MachineConfig::new());
    m.set_byte(0xfffa, 0x00);
    m.set_byte(0xfffb, 0x80);
    m.set_PC(0x1234);
    let sp = m.SC();
    m.nmi();
    assert_eq!(0x8000, m.PC());
    assert_eq!(sp.wrapping_sub(3), m.SC());
    assert!(m.P().interrupt_disable);
}

#[test]
fn start_reads_reset_vector() {
    let mut m = MOS6502Machine::new(MachineConfig::new());
    m.set_byte(0xfffc, 0x00);
    m.set_byte(0xfffd, 0xc0);
    m.start();
    assert_eq!(0xc000, m.PC());
    assert_eq!(MachineStatus::Running, m.get_status());
    assert_eq!(0x37, m.get_byte(0x0001));
}

#[test]
fn try_next_refuses_undefined_opcode() {
    // $02 is not a documented opcode
    let mut m = machine_with(&[0x02], 0x0600);
    assert_eq!(None, m.try_next());
    assert_eq!(0x0600, m.PC());
}

#[test]
fn try_next_runs_defined_opcode() {
    let mut m = machine_with(&[0xa9, 0x07], 0x0600);
    assert_eq!(Some(true), m.try_next());
    assert_eq!(7, m.A8());
}

#[test]
fn try_next_refuses_decimal_overflow() {
    // SED; LDA #$f9; SEC; ADC #$99: the digits read as 159 + 1 + 99, past 255
    let mut m = machine_with(&[0xf8, 0xa9, 0xf9, 0x38, 0x69, 0x99], 0x0600);
    steps(&mut m, 3);
    assert_eq!(None, m.try_next());
    assert_eq!(0x0604, m.PC());
}

#[test]
fn run_turn_pauses_at_exit_address() {
    let mut config = MachineConfig::new();
    config.exit_on_addr = Some(0x0602);
    let mut m = MOS6502Machine::new(config);
    m.load(&[0xea, 0xea, 0xea], 0x0600);
    m.set_PC(0x0600);
    m.set_status(MachineStatus::Running);
    assert_eq!(Some(MachineStatus::Running), m.run_turn());
    assert_eq!(Some(MachineStatus::Debug), m.run_turn());
    assert_eq!(0x0602, m.PC());
    // a paused machine does not move
    assert_eq!(Some(MachineStatus::Debug), m.run_turn());
    assert_eq!(0x0602, m.PC());
}

#[test]
fn mnemonic_names() {
    assert_eq!(Some(Mnemonic::LDA), Mnemonic::from_name("LDA"));
    assert_eq!(Some(Mnemonic::TYA), Mnemonic::from_name("TYA"));
    assert_eq!(None, Mnemonic::from_name("XYZ"));
    assert_eq!("SBC", Mnemonic::SBC.name());
}

#[test]
fn opcode_table_cycles() {
    let mut ops = machine::mos6502::OpsMap::new();
    machine::mos6502::define_operations(&mut ops);
    let sbc = &ops[&0xed];
    assert_eq!(Mnemonic::SBC, sbc.mnemonic);
    assert_eq!(machine::mos6502::AddressMode::Absolute, sbc.address_mode);
    assert_eq!(4, sbc.cycles);
    assert_eq!(4, ops[&0x6d].cycles);
    assert_eq!(3, ops[&0xe5].cycles);
    assert_eq!(4, ops[&0xf5].cycles);
    assert_eq!(154, ops.len());
}
