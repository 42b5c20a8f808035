use vstd::prelude::*;

verus! {

/// The error type of the OMF reader: a static description of what was wrong.
#[derive(Debug, Clone, Copy, PartialEq, Eq)]
pub struct Error(pub &'static str);

impl Error {
    /// The description of the error.
    pub fn message(&self) -> (m: &'static str)
        ensures
            m == self.0,
    {
        self.0
    }
}

} // verus!
