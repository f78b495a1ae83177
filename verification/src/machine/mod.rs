pub mod address_laws;
pub mod machine;
pub mod machine_config;
pub mod memory;
pub mod stepping;

pub use machine::{MOS6502Machine, MachineStatus, MachineView, RegSetter};
pub use machine_config::{FromConfig, MachineConfig};
pub use memory::{Addr, MOS6502Memory, Memory};
