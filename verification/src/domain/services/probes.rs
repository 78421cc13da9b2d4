//! Whether the application is ready to serve.

use crate::domain::ports::incoming::ProbesService;
use vstd::prelude::*;

verus! {

/// The probes of an application that is ready as soon as it runs.
pub struct DefaultProbesService {}

impl DefaultProbesService {
    pub fn new() -> (service: Self) {
        Self {  }
    }
}

impl ProbesService for DefaultProbesService {
    fn is_ready(&self) -> (ready: bool)
        ensures
            ready,
    {
        true
    }
}

} // verus!
