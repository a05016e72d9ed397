//! The errors an extraction can end in.

use vstd::prelude::*;

verus! {

/// Why an extraction, or the construction of a service, failed.
#[derive(Clone, Debug, PartialEq, Eq)]
pub enum AtiumError {
    /// The external tool could not be started, or it reported a failure.
    CommandError(String),
    /// The report could not be written to its file.
    IOError(String),
}

impl AtiumError {
    /// The text carried by the error, whatever its variant.
    pub open spec fn text(self) -> Seq<char> {
        match self {
            AtiumError::CommandError(m) => m@,
            AtiumError::IOError(m) => m@,
        }
    }

    /// The text carried by the error.
    pub fn message(&self) -> (m: String)
        ensures
            m@ == self.text(),
    {
        match self {
            AtiumError::CommandError(m) => m.clone(),
            AtiumError::IOError(m) => m.clone(),
        }
    }
}

} // verus!
