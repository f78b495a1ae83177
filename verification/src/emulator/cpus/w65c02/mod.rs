pub mod pins;

pub use pins::W65C02_Pins;
