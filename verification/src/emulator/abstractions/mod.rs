pub mod addressable;
pub mod circuit;
pub mod component;
pub mod machine;
pub mod pin;
pub mod pin_builder;
pub mod pins;
pub mod port;
pub mod ram;
pub mod tickable;

pub use circuit::{Circuit, CircuitBuilder, Part, Power};
pub use component::Component;
pub use machine::{CPUCycles, Machine, CPU};
pub use addressable::{Addr, AddressResolver, Addressable, ArrayMemory};
pub use pin::{Pin, PinDirection, PinStateChange, PinView};
pub use pin_builder::PinBuilder;
pub use pins::Pins;
pub use port::Port;
pub use ram::RAM;
pub use tickable::{Tickable, Ticker};
