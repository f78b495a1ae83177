use vstd::prelude::*;

verus! {

/// The settings a machine is created with.
#[derive(Debug, Clone, Copy, PartialEq, Eq, Structural)]
pub struct MachineConfig {
    pub ram_size: usize,
    pub rom_size: usize,
    pub max_time: Option<u64>,
    pub max_cycles: Option<u128>,
    pub exit_on_addr: Option<u16>,
    pub exit_on_brk: bool,
    pub disassemble: bool,
    pub verbose: bool,
}

impl MachineConfig {
    pub open spec fn spec_new() -> MachineConfig {
        MachineConfig {
            ram_size: 0x10000,
            rom_size: 0x10000,
            max_time: None,
            max_cycles: None,
            exit_on_addr: None,
            exit_on_brk: false,
            disassemble: false,
            verbose: false,
        }
    }

    /// 64 KiB of RAM and of ROM, no limits, no exit conditions, quiet.
    pub fn new() -> (r: Self)
        ensures
            r == Self::spec_new(),
    {
        MachineConfig {
            ram_size: 0x10000,
            rom_size: 0x10000,
            max_time: None,
            max_cycles: None,
            exit_on_addr: None,
            exit_on_brk: false,
            disassemble: false,
            verbose: false,
        }
    }
}

/// Types that can be built from a machine configuration.
pub trait FromConfig: Sized {
    fn from_config(config: MachineConfig) -> Self;
}

} // verus!
