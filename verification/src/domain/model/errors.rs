//! The failure that a port reports.

use vstd::prelude::*;

verus! {

/// A failure met outside the catalog's own rules: a file that cannot be
/// read, a store that cannot be written, a tool that exits with an error.
/// It carries the message for the log and nothing else.
#[derive(Clone, Debug, PartialEq, Eq)]
pub struct ServiceError {
    pub message: String,
}

impl ServiceError {
    /// A failure with the given message.
    pub fn new(message: String) -> (error: Self)
        ensures
            error.message == message,
    {
        ServiceError { message }
    }
}

} // verus!
