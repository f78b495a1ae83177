use machine::emulator::abstractions::PinDirection::{Input, Output};
use machine::emulator::abstractions::{Pin, PinBuilder, PinDirection};
use machine::emulator::EmulatorError;

#[test]
fn test_direction_change() {
    let mut pin = Pin::input("a");
    assert_eq!(PinDirection::Input, pin.direction());
    assert_eq!(0u8, pin.direction().into());
    assert_eq!(false, pin.direction().into());

    pin.set_direction(PinDirection::Output);
    assert_eq!(PinDirection::Output, pin.direction());
    assert_eq!(1u8, pin.direction().into());
    assert_eq!(true, pin.direction().into());
}

#[test]
fn test_pin_builder() {
    let pins = PinBuilder::new(40)
        .set(1, "VPB", Output)
        .set(2, "RDY", Input)
        .set(3, "PHI1O", Output)
        .set(4, "IRQB", Input)
        .set(5, "MLB", Output)
        .set(6, "NMIB", Input)
        .set(7, "SYNC", Output)
        .set(8, "VDD", Input)
        .set_range(9..=20, "A", 0, Output)
        .tri_state()
        .set(21, "VSS", Input)
        .set_range(22..=25, "A", 12, Output)
        .with_range(26..=33)
        .direction(Output)
        .name_prefix_dec("D", 7)
        .tri_state()
        .io()
        .set(34, "RWB", Output)
        .tri_state()
        .set(35, "NC", Input)
        .set(36, "BE", Input)
        .set(37, "PHI2", Input)
        .set(38, "SOB", Output)
        .set(39, "PHI2O", Output)
        .set(40, "RESB", Input)
        .build();

    assert_eq!(Input, pins[1].direction());
    assert_eq!(Output, pins[8].direction());
    assert_eq!("A0", pins[8].name());
    assert_eq!("A11", pins[19].name());
    assert_eq!("VSS", pins[20].name());
    assert_eq!("A12", pins[21].name());
    assert_eq!("A15", pins[24].name());
    assert_eq!("D7", pins[25].name());
    assert_eq!("D0", pins[32].name());
    assert_eq!("RWB", pins[33].name());
    assert_eq!(true, pins[33].tri_state());
}

#[test]
fn output_pin_write_reports_change() {
    let mut pin = Pin::output("out");
    assert_eq!(Ok(true), pin.write(true));
    assert!(pin.state());
    assert_eq!(Ok(false), pin.write(true));
    assert_eq!(Ok(true), pin.toggle());
    assert!(!pin.state());
}

#[test]
fn input_pin_refuses_write() {
    let mut pin = Pin::input("in");
    assert_eq!(
        Err(EmulatorError::CantWriteToReadPin("in".to_string())),
        pin.write(true)
    );
    assert!(!pin.state());
}

#[test]
fn set_enable_needs_tri_state() {
    let mut plain = Pin::output("p");
    assert_eq!(Err(EmulatorError::NotATriStatePin), plain.set_enable(false));
    let mut tri = Pin::new("t", Output, true, false);
    assert_eq!(Ok(()), tri.set_enable(false));
    assert!(tri.enabled());
}

#[test]
fn ids_are_set_once() {
    let mut pin = Pin::input("x");
    assert_eq!(None, pin.id());
    pin.set_id(3);
    pin.set_id(4);
    assert_eq!(Some(3), pin.id());
    pin.set_inner_id(7);
    pin.set_inner_id(8);
    assert_eq!(Some(7), pin.inner_id());
}

#[test]
fn grouped_pin_name_has_number() {
    let mut pin = Pin::input("D");
    pin.set_group_id(12);
    assert_eq!("D12", pin.name());
    assert_eq!(Some("D12".to_string()), pin.group_name());
}
