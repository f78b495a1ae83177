use vstd::prelude::*;
use super::addressable::AddressResolver;
use crate::emulator::EmulatorError;

verus! {

/// A number of CPU cycles.
pub type CPUCycles = u64;

/// A CPU that runs cycle by cycle.
pub trait CPU {
    fn cycles(&self) -> CPUCycles;

    fn advance_cycles(&mut self) -> Result<(), EmulatorError>;
}

/// A machine built around a CPU, seen through its address space.
pub trait Machine: AddressResolver {
    type CPU: CPU;

    fn cpu(&self) -> &Self::CPU;

    fn cpu_mut(&mut self) -> &mut Self::CPU;

    fn start(&mut self);

    fn stop(&mut self);

    fn restart(&mut self);

    fn step(&mut self);
}

} // verus!
