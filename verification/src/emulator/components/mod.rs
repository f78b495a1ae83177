pub mod cia_6526;
pub mod hm62256b;
pub mod nand;
pub mod oscilator;
pub mod pla_82S100;

pub use cia_6526::cia_6526::CIA_6526;
pub use hm62256b::{HM62256BLogic, HM62256BPins, HM62256B};
pub use oscilator::Oscilator;
pub use nand::{INand, Nand, NandImpl, NandPins};
pub use pla_82S100::PLA_82S100;
pub use cia_6526::tod::{TimeOfDay, TOD};
