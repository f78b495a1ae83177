use machine::emulator::abstractions::{AddressResolver, Addressable, ArrayMemory, RAM};
use machine::emulator::components::pla_82S100::PLA_82S100;
use machine::emulator::components::HM62256BLogic;

#[test]
fn array_memory_read_write() {
    let mut m = ArrayMemory::new(16, 4);
    assert_eq!(16, m.len());
    m.write_byte(3, 0xab);
    assert_eq!(0xab, m.read_byte(3));
    assert_eq!(0, m.read_byte(4));
    assert_eq!(4, m.address_width());
}

#[test]
fn array_memory_fragment_and_word() {
    let m = ArrayMemory::from_data(&[1, 2, 3, 4], 16);
    assert_eq!(vec![2, 3], m.fragment(1, 3));
    assert_eq!(0x0302, m.read_word(1));
}

#[test]
fn ram_trait_load() {
    let mut m = ArrayMemory::new(8, 3);
    RAM::load(&mut m, 2, &[9, 8, 7]);
    assert_eq!(0, m.read_byte(1));
    assert_eq!(9, m.read_byte(2));
    assert_eq!(7, m.read_byte(4));
    assert_eq!(0, m.read_byte(5));
}

#[test]
fn hm62256b_load_and_read() {
    let mut chip = HM62256BLogic::new();
    chip.load(0x7ffe, &[1, 2]);
    assert_eq!(1, chip.read_byte(0x7ffe));
    assert_eq!(2, chip.read_byte(0x7fff));
    assert_eq!(15, chip.address_width());
    chip.write_byte(0x100, 0xa0);
    assert_eq!(0xa0, chip.read_byte(0x100));
}

#[test]
fn pla_routes_to_ram() {
    let mut pla: PLA_82S100<ArrayMemory> = PLA_82S100::default();
    pla.link_ram(ArrayMemory::new(0x10000, 16));
    assert_eq!(0, pla.read_byte(0x33));
    pla.write_byte(0x33, 42);
    assert_eq!(42, pla.read_byte(0x33));
}

#[test]
fn pla_banks_basic_rom_in_and_out() {
    let mut pla: PLA_82S100<ArrayMemory> = PLA_82S100::default();
    pla.link_ram(ArrayMemory::new(0x10000, 16));
    pla.link_basic(ArrayMemory::from_data(&[0x94; 0x2000], 13));

    // mode 0: RAM everywhere
    pla.write_byte(0x0001, 0);
    pla.write_byte(0xa000, 42);
    assert_eq!(42, pla.read_byte(0xa000));

    // mode 31 (no cartridge): BASIC ROM at $a000; writes still reach the RAM
    pla.write_byte(0x0001, 0b111);
    assert_eq!(0x94, pla.read_byte(0xa000));
    pla.write_byte(0xa000, 66);
    assert_eq!(0x94, pla.read_byte(0xa000));
    pla.write_byte(0x0001, 0);
    assert_eq!(66, pla.read_byte(0xa000));
}

#[test]
fn pla_missing_rom_falls_back_to_ram() {
    let mut pla: PLA_82S100<ArrayMemory> = PLA_82S100::default();
    pla.link_ram(ArrayMemory::new(0x10000, 16));
    pla.write_byte(0x0001, 0);
    pla.write_byte(0xe000, 5);
    pla.write_byte(0x0001, 0b111);
    // the KERNAL slot is empty: the read falls back to the RAM
    assert_eq!(5, pla.read_byte(0xe000));
}

#[test]
fn pla_without_ram_reads_zero() {
    let pla: PLA_82S100<ArrayMemory> = PLA_82S100::new();
    assert_eq!(0, pla.read_byte(0x1234));
    assert_eq!(16, pla.address_width());
}
