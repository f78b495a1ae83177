use vstd::prelude::*;
use crate::machine::{MOS6502Machine, MachineStatus};
use crate::mos6502::Operation;

verus! {

/// Observes every operation that a machine is about to run.
pub trait MachineObserver {
    fn on_next(&mut self, op: &Operation);
}

/// A machine that can be switched into debugging.
pub trait DebugMachine {
    fn start_debugging(&mut self);
}

impl DebugMachine for MOS6502Machine {
    fn start_debugging(&mut self)
        ensures
            final(self)@ == old(self)@.with_status(MachineStatus::Debug),
            final(self).same_setup(old(self)),
    {
        self.set_status(MachineStatus::Debug);
    }
}

} // verus!
