use machine::emulator::abstractions::{
    CircuitBuilder,
    Addressable, Component, Pin, PinDirection, PinStateChange, Pins,
};
use machine::emulator::components::{HM62256BLogic, HM62256BPins, HM62256B};
use machine::emulator::cpus::w65c02::W65C02_Pins;

#[test]
fn test_structure() {
    let mem = HM62256B::new(HM62256BLogic::new());
    mem.pins.pins.iter().for_each(|pin| {
        assert!(pin.id().is_some());
    });
}

fn set_address(mem: &mut HM62256B<HM62256BLogic>, addr: u16) {
    for k in 0..15 {
        let pin = mem.get_pin_mut(&format!("A{}", k)).unwrap();
        pin.set_val((addr >> k) & 1 == 1);
    }
}

#[test]
fn hm62256b_pin_layout() {
    let pins = HM62256BPins::new();
    assert_eq!(28, pins.size());
    // pin 10 is A0, pin 3 is A7, pin 1 is A14, pin 2 is A12, pin 26 is A13
    assert_eq!("A0", pins.by_id(10).unwrap().name());
    assert_eq!("A7", pins.by_id(3).unwrap().name());
    assert_eq!("A14", pins.by_id(1).unwrap().name());
    assert_eq!("A12", pins.by_id(2).unwrap().name());
    assert_eq!("A13", pins.by_id(26).unwrap().name());
    assert_eq!("A8", pins.by_id(25).unwrap().name());
    assert_eq!("A9", pins.by_id(24).unwrap().name());
    assert_eq!("A11", pins.by_id(23).unwrap().name());
    assert_eq!("A10", pins.by_id(21).unwrap().name());
    // pin 11 is D0, pin 15 is D3, pin 19 is D7
    assert_eq!("D0", pins.by_id(11).unwrap().name());
    assert_eq!("D3", pins.by_id(15).unwrap().name());
    assert_eq!("D7", pins.by_id(19).unwrap().name());
    assert_eq!("VSS", pins.by_id(14).unwrap().name());
    assert_eq!("CS", pins.by_id(20).unwrap().name());
    assert_eq!("OE", pins.by_id(22).unwrap().name());
    assert_eq!("WE", pins.by_id(27).unwrap().name());
    assert_eq!("VCC", pins.by_id(28).unwrap().name());
    assert_eq!(PinDirection::Input, pins.by_id(10).unwrap().direction());
    assert_eq!(PinDirection::Output, pins.by_id(11).unwrap().direction());
    assert!(pins.by_id(11).unwrap().tri_state());
    assert!(!pins.by_id(20).unwrap().tri_state());
    assert_eq!(0, pins.read_addr());
    assert_eq!(0, pins.read_data());
}

#[test]
fn hm62256b_buses_are_the_pins() {
    let mut mem = HM62256B::new(HM62256BLogic::new());
    set_address(&mut mem, 0x4321);
    assert_eq!(0x4321, mem.pins.read_addr());
    // A14 is pin 1
    assert!(mem.pins.by_id(1).unwrap().read());
    mem.pins.write_data(0x81);
    assert_eq!(0x81, mem.pins.read_data());
    assert!(mem.get_pin("D0").unwrap().read());
    assert!(mem.get_pin("D7").unwrap().read());
    assert!(!mem.get_pin("D3").unwrap().read());
}

#[test]
fn hm62256b_stores_the_data_byte() {
    let mut mem = HM62256B::new(HM62256BLogic::new());
    set_address(&mut mem, 0x100);
    mem.pins.write_data(0xa5);
    mem.on_state_change(&Pin::new("D", PinDirection::Output, true, true));
    assert_eq!(0xa5, mem.logic.read_byte(0x100));
    assert_eq!(0, mem.logic.read_byte(0x101));
}

#[test]
fn hm62256b_shows_the_stored_byte() {
    let mut logic = HM62256BLogic::new();
    logic.write_byte(0x200, 0xa0);
    let mut mem = HM62256B::new(logic);
    set_address(&mut mem, 0x100);
    mem.on_state_change(&Pin::new("A", PinDirection::Input, false, false));
    assert_eq!(0, mem.pins.read_data());
    set_address(&mut mem, 0x200);
    mem.on_state_change(&Pin::new("A", PinDirection::Input, false, false));
    assert_eq!(0xa0, mem.pins.read_data());
    assert!(mem.get_pin("D7").unwrap().read());
    assert!(mem.get_pin("D5").unwrap().read());
    assert!(!mem.get_pin("D0").unwrap().read());
}

#[test]
fn hm62256b_chip_select_and_write_enable() {
    let mut mem = HM62256B::new(HM62256BLogic::new());
    let mut cs = Pin::output("CS");
    assert_eq!(Ok(true), cs.set_high());
    mem.on_state_change(&cs);
    assert_eq!(28, mem.pins.size());
    assert_eq!(Ok(true), cs.set_low());
    mem.on_state_change(&cs);
    assert_eq!(0, mem.logic.read_byte(0));

    let mut we = Pin::output("WE");
    assert_eq!(Ok(true), we.set_high());
    mem.on_state_change(&we);
    assert_eq!(PinDirection::Input, mem.get_pin("D0").unwrap().direction());
    assert_eq!(PinDirection::Input, mem.get_pin("D7").unwrap().direction());
    assert_eq!(PinDirection::Input, mem.get_pin("A0").unwrap().direction());
    assert_eq!(Ok(true), we.set_low());
    mem.on_state_change(&we);
    assert_eq!(PinDirection::Output, mem.get_pin("D4").unwrap().direction());
}

#[test]
fn hm62256b_ignores_other_pins() {
    let mut mem = HM62256B::new(HM62256BLogic::new());
    mem.pins.write_data(0x11);
    mem.on_state_change(&Pin::new("OE", PinDirection::Input, false, false));
    assert_eq!(0x11, mem.pins.read_data());
    assert_eq!(0, mem.logic.read_byte(0));
}

#[test]
fn w65c02_pin_layout() {
    let pins = W65C02_Pins::new();
    assert_eq!(40, pins.size());
    assert_eq!("VP", pins.by_id(1).unwrap().name());
    assert_eq!("A0", pins.by_id(9).unwrap().name());
    assert_eq!("A11", pins.by_id(20).unwrap().name());
    assert_eq!("VSS", pins.by_id(21).unwrap().name());
    assert_eq!("A12", pins.by_id(22).unwrap().name());
    assert_eq!("A15", pins.by_id(25).unwrap().name());
    assert_eq!("D7", pins.by_id(26).unwrap().name());
    assert_eq!("D0", pins.by_id(33).unwrap().name());
    assert_eq!("RW", pins.by_id(34).unwrap().name());
    assert_eq!("RES", pins.by_id(40).unwrap().name());
    assert!(pins.by_id(34).unwrap().tri_state());
    assert!(pins.by_id(9).unwrap().tri_state());
    assert!(!pins.by_id(22).unwrap().tri_state());
    assert_eq!(PinDirection::Input, pins.by_id(2).unwrap().direction());
    assert_eq!(PinDirection::Output, pins.by_id(26).unwrap().direction());
    assert_eq!(Some(34), pins.by_name("RW").unwrap().id());
}

#[test]
fn w65c02_buses_are_the_pins() {
    let mut pins = W65C02_Pins::new();
    pins.write_addr(0x1234);
    assert_eq!(0x1234, pins.read_addr());
    // A2 is pin 11, A12 is pin 22
    assert!(pins.by_id(11).unwrap().read());
    assert!(pins.by_id(22).unwrap().read());
    assert!(!pins.by_id(21).unwrap().read());
    pins.write_data(0x5a);
    assert_eq!(0x5a, pins.read_data());
    // data bit 1 is on pin 27 (D6)
    assert!(pins.by_id(27).unwrap().read());
    assert!(!pins.by_id(26).unwrap().read());
}

#[test]
fn hm62256b_pins_by_name() {
    let mut logic = HM62256BLogic::new();
    logic.write_byte(0, 0x77);
    let mut mem = HM62256B::new(logic);
    assert_eq!(Some(10), mem.get_pin("A0").unwrap().id());
    assert_eq!(Some(19), mem.get_pin("D7").unwrap().id());
    assert!(mem.get_pin("A").is_none());
    let we = mem.get_pin_mut("WE").unwrap();
    we.set_val(true);
    assert!(mem.pins.by_id(27).unwrap().read());
    // with WE high an address change does not drive the data lines
    mem.on_state_change(&Pin::new("A", PinDirection::Input, false, false));
    assert_eq!(0, mem.pins.read_data());
}

#[test]
fn hm62256b_reacts_to_its_pins_in_a_circuit() {
    let mut logic = HM62256BLogic::new();
    logic.write_byte(0x08, 0x3c);
    let mut b: CircuitBuilder<HM62256B<HM62256BLogic>> = CircuitBuilder::new();
    b.add_component("U1", HM62256B::new(HM62256BLogic::new()))
        .add_component("U2", HM62256B::new(logic))
        .link_range("U1", "D", "U2", "A", 0..8);
    let mut c = match b.build() {
        Ok(c) => c,
        Err(_) => panic!("the circuit is valid"),
    };
    assert_eq!(Ok(true), c.write_to_pin("U1", "D3", true));
    // U2 sees the address 8 on its pins and shows the byte stored there
    assert!(c.component("U2").get_pin("A3").unwrap().read());
    assert!(c.component("U2").get_pin("D2").unwrap().read());
    assert!(c.component("U2").get_pin("D5").unwrap().read());
    assert!(!c.component("U2").get_pin("D0").unwrap().read());
    assert!(!c.component("U2").get_pin("D6").unwrap().read());
}
