use machine::emulator::abstractions::{Circuit, CircuitBuilder, Component};
use machine::emulator::components::{Nand, NandImpl};
use machine::emulator::EmulatorError;

fn two_nands() -> Circuit<Nand<NandImpl>> {
    let mut b: CircuitBuilder<Nand<NandImpl>> = CircuitBuilder::new();
    b.add_component("U1", Nand::new(NandImpl {}))
        .add_component("U2", Nand::new(NandImpl {}))
        .link("U1", "out", "U2", "in1");
    match b.build() {
        Ok(c) => c,
        Err(_) => panic!("the circuit is valid"),
    }
}

#[test]
fn circuit_builds_and_propagates() {
    let mut c = two_nands();
    // U1's output is driven high; the change reaches U2's in1, and U2
    // recomputes its output: !(true && false) == true
    assert_eq!(Ok(true), c.write_to_pin("U1", "out", true));
    assert!(c.component("U2").get_pin("in1").unwrap().read());
    assert!(c.component("U2").get_pin("out").unwrap().read());
    assert_eq!(Some(2), c.component("U1").get_pin("out").unwrap().inner_id());
    assert_eq!(Some(3), c.component("U2").get_pin("in1").unwrap().inner_id());
}

#[test]
fn circuit_write_errors() {
    let mut c = two_nands();
    assert_eq!(
        Err(EmulatorError::PinNotFound("U1".to_string(), "nope".to_string())),
        c.write_to_pin("U1", "nope", true)
    );
    assert_eq!(
        Err(EmulatorError::CantWriteToReadPin("in1".to_string())),
        c.write_to_pin("U1", "in1", true)
    );
}

#[test]
fn circuit_with_pin_calls_back() {
    let c = two_nands();
    let mut seen = false;
    c.with_pin("U1", "out", |p| assert_eq!("out", p.name()));
    c.with_pin("U1", "missing", |_| seen = true);
    assert!(!seen);
}

#[test]
fn build_reports_missing_component() {
    let mut b: CircuitBuilder<Nand<NandImpl>> = CircuitBuilder::new();
    b.add_component("U1", Nand::new(NandImpl {})).link("X9", "out", "U1", "in1");
    match b.build() {
        Err(e) => assert_eq!(EmulatorError::ComponentNotFound("X9".to_string()), e),
        Ok(_) => panic!("X9 does not exist"),
    }
}

#[test]
fn build_reports_missing_pins() {
    let mut b: CircuitBuilder<Nand<NandImpl>> = CircuitBuilder::new();
    b.add_component("U1", Nand::new(NandImpl {}))
        .add_component("U2", Nand::new(NandImpl {}))
        .link("U1", "out", "U2", "in1")
        .link("U1", "zz", "U2", "in2");
    match b.build() {
        Err(e) => assert_eq!(EmulatorError::PinNotFound("U1".to_string(), "zz".to_string()), e),
        Ok(_) => panic!("U1 has no pin zz"),
    }
}

#[test]
fn ground_cannot_be_linked() {
    let mut b: CircuitBuilder<Nand<NandImpl>> = CircuitBuilder::new();
    b.add_component("U1", Nand::new(NandImpl {})).link_to_vcc("U1", "in1");
    assert!(b.build().is_ok());

    let mut b: CircuitBuilder<Nand<NandImpl>> = CircuitBuilder::new();
    b.add_component("U1", Nand::new(NandImpl {})).link_to_gnd("U1", "in1");
    match b.build() {
        Err(e) => assert_eq!(EmulatorError::PinNotFound("POW".to_string(), "GND".to_string()), e),
        Ok(_) => panic!("the supply does not give out GND"),
    }
}

#[test]
fn link_range_links_numbered_pins() {
    let mut b: CircuitBuilder<Nand<NandImpl>> = CircuitBuilder::new();
    b.add_component("U1", Nand::new(NandImpl {}))
        .add_component("U2", Nand::new(NandImpl {}))
        .link_range("U1", "in", "U2", "in", 1..3);
    assert!(b.build().is_ok());
}

#[test]
fn power_supply_gives_high_vcc() {
    let c = two_nands();
    let vcc = c.power_supply().get_pin("VCC").unwrap();
    assert!(vcc.read());
    assert!(vcc.is_output());
}

#[test]
fn write_to_pin_reports_whether_the_state_changed() {
    let mut c = two_nands();
    assert_eq!(Ok(false), c.write_to_pin("U1", "out", false));
    assert!(!c.component("U2").get_pin("in1").unwrap().read());
    assert_eq!(Ok(true), c.write_to_pin("U1", "out", true));
    assert_eq!(Ok(false), c.write_to_pin("U1", "out", true));
    assert_eq!(Ok(true), c.write_to_pin("U1", "out", false));
    assert!(!c.component("U2").get_pin("in1").unwrap().read());
    assert!(c.component("U2").get_pin("out").unwrap().read());
}

#[test]
fn component_pow_is_the_supply() {
    let c = two_nands();
    assert!(c.component("POW").get_pin("VCC").unwrap().read());
    assert!(c.component("POW").get_pin("GND").is_none());
    let mut seen = false;
    c.with_pin("POW", "VCC", |p| seen = p.read());
    assert!(seen);
}

#[test]
fn built_supply_gives_a_high_vcc_output() {
    let c = two_nands();
    let vcc = c.component("POW").get_pin("VCC").unwrap();
    assert!(vcc.read());
    assert!(vcc.is_output());
}
