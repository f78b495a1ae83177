use machine::emulator::abstractions::{PinDirection, Port};

#[test]
fn test_u8_port_creation() {
    let mut p = Port::new(8, PinDirection::Input);
    assert_eq!(0, p.read());

    p.set_directions(0xff);
    assert_eq!(0xff, p.directions());

    p.write(0xff);
    assert_eq!(0xff, p.read());
}

#[test]
fn test_u16_port_creation() {
    let mut p = Port::new(16, PinDirection::Input);
    assert_eq!(0, p.read());

    p.set_directions(0xff);
    assert_eq!(0xff, p.directions());

    p.write(0xff);
    assert_eq!(0xff, p.read());
}

#[test]
fn port_writes_only_outputs() {
    let mut p = Port::new(4, PinDirection::Input);
    p.set_directions(0b0101);
    p.write(0b1111);
    assert_eq!(0b0101, p.read());
    p.set_direction(PinDirection::Output);
    assert_eq!(0b1111, p.directions());
    p.write(0b1010);
    assert_eq!(0b1010, p.read());
    assert_eq!(4, p.width());
}
