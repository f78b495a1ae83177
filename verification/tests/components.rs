use machine::emulator::components::cia_6526::clock_register;
use machine::emulator::components::TimeOfDay;
use machine::emulator::abstractions::{Component, Pin, PinDirection, PinStateChange, Tickable};
use machine::emulator::components::{INand, Nand, NandImpl, NandPins, Oscilator, TOD};

#[test]
fn test_logic() {
    let n = NandImpl {};
    assert_eq!(false, n.execute(true, true));
    assert_eq!(true, n.execute(true, false));
    assert_eq!(true, n.execute(false, true));
    assert_eq!(true, n.execute(false, false));
}

#[test]
fn test_set_hour() {
    let mut tod = TOD::new();
    tod.set_hour(5);
    tod.set_tenth(0);
    assert_eq!(5, tod.hour());
}

#[test]
fn tod_hour_after_noon_sets_bit_seven() {
    let mut tod = TOD::new();
    // 0x80 | 0x03: three o'clock after noon
    tod.set_hour(0x83);
    tod.set_tenth(0);
    assert_eq!(0x83, tod.hour());
}

#[test]
fn tod_hour_freezes_reads_until_tenth() {
    let mut tod = TOD::new();
    tod.set_hour(0x11);
    tod.set_minute(0x42);
    tod.set_tenth(0);
    let h = tod.hour();
    let m1 = tod.minute();
    let m2 = tod.minute();
    assert_eq!(m1, m2);
    assert_eq!(0x11, h);
    let t = tod.tenth();
    assert!(t <= 9);
}



#[test]
fn nand_reacts_to_inputs() {
    let pins = NandPins::new();
    assert_eq!(PinDirection::Output, pins.out.direction());
    let mut n = Nand::new(NandImpl {});
    assert!(!n.get_pin("out").unwrap().read());
    let trigger = Pin::input("in1");
    n.on_state_change(&trigger);
    // both inputs are low: the output goes high
    assert!(n.get_pin("out").unwrap().read());
    assert!(n.get_pin("nope").is_none());
}

#[test]
fn oscilator_toggles() {
    let mut o = Oscilator::new(1000);
    assert!(!o.pin.state());
    o.tick();
    assert!(o.pin.state());
    o.tick();
    assert!(!o.pin.state());
    assert_eq!("phi1o", o.pin.name());
}

#[test]
fn clock_registers_of_a_time() {
    let t = TimeOfDay { secs: 13 * 3600 + 5 * 60 + 7, frac: 300_000_000 };
    assert_eq!(3, clock_register(0x08, t));
    assert_eq!(7, clock_register(0x09, t));
    assert_eq!(5, clock_register(0x0a, t));
    assert_eq!(128 + 1, clock_register(0x0b, t));
    let morning = TimeOfDay { secs: 11 * 3600 + 59 * 60 + 59, frac: 999_999_999 };
    assert_eq!(9, clock_register(0x08, morning));
    assert_eq!(59, clock_register(0x09, morning));
    assert_eq!(59, clock_register(0x0a, morning));
    assert_eq!(11, clock_register(0x0b, morning));
    let midnight = TimeOfDay { secs: 0, frac: 0 };
    assert_eq!(12, clock_register(0x0b, midnight));
}

#[test]
fn nand_output_follows_both_inputs() {
    let mut n = Nand::new(NandImpl {});
    let trigger = Pin::input("in1");
    n.get_pin_mut("in1").unwrap().set_val(true);
    n.on_state_change(&trigger);
    assert!(n.get_pin("out").unwrap().read());
    n.get_pin_mut("in2").unwrap().set_val(true);
    n.on_state_change(&trigger);
    assert!(!n.get_pin("out").unwrap().read());
    n.get_pin_mut("in1").unwrap().set_val(false);
    n.on_state_change(&trigger);
    assert!(n.get_pin("out").unwrap().read());
}
