use vstd::prelude::*;
use crate::machine::Addr;

verus! {

/// A named memory cell that the debugger watches, with its last value.
#[derive(Debug, PartialEq)]
pub struct Variable {
    pub name: String,
    pub addr: Addr,
    pub value: u8,
}

impl Clone for Variable {
    fn clone(&self) -> (r: Self)
        ensures
            r == *self,
    {
        Variable { name: self.name.clone(), addr: self.addr, value: self.value }
    }
}

impl Default for Variable {
    fn default() -> (r: Self)
        ensures
            r.name@ == Seq::<char>::empty(),
            r.addr == 0,
            r.value == 0,
    {
        Variable { name: String::new(), addr: 0, value: 0 }
    }
}

} // verus!
