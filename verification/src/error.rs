use vstd::prelude::*;

verus! {

/// The errors of the machine crate.
#[derive(Debug, Clone, PartialEq)]
pub enum MachineError {
    Client(String),
}

} // verus!
