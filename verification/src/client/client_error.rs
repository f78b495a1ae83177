use vstd::prelude::*;
use vstd::string::StringExecFns;

verus! {

/// An error reported by a client of the machine.
#[derive(Debug, Clone)]
pub struct ClientError(String);

impl ClientError {
    /// The text that the error carries.
    pub closed spec fn spec_text(&self) -> Seq<char> {
        self.0@
    }

    pub fn new(msg: &str) -> (r: Self)
        ensures
            r.spec_text() == msg@,
    {
        ClientError(String::from_str(msg))
    }

    /// The message shown for the error.
    pub fn message(&self) -> (r: String)
        ensures
            r@ == "Machine Client error: "@ + self.spec_text(),
    {
        String::from_str("Machine Client error: ").concat(self.0.as_str())
    }
}

} // verus!
