use vstd::prelude::*;
use crate::machine::Addr;

verus! {

/// The errors of the component emulator.
#[derive(Debug, Clone, PartialEq)]
#[non_exhaustive]
pub enum EmulatorError {
    AddressNotAccessible(Addr),
    AddressNotWriteable(Addr),
    PinAlreadyLinked,
    IncompatiblePortWidths,
    HandlerAlreadyDefined(String),
    NotATriStatePin,
    PinNotFound(String, String),
    ComponentNotFound(String),
    CantWriteToReadPin(String),
}

} // verus!
