//! The settings snapshot that start-up reads once.

use vstd::prelude::*;

verus! {

/// What the configuration provider hands over: the TCP port to listen on and,
/// where given, the number of worker threads.
#[derive(Clone, Copy, Debug, PartialEq, Eq, Structural)]
pub struct Settings {
    pub port: u16,
    pub worker_limit: Option<u32>,
}

impl Settings {
    /// Settings are valid where the worker limit, if there is one, is a
    /// positive count. Every `u16` is a port: port 0 leaves the choice of the
    /// port to the operating system.
    pub open spec fn valid(self) -> bool {
        self.worker_limit matches Some(limit) ==> limit > 0
    }

    /// Tells whether these settings are valid.
    pub fn is_valid(&self) -> (valid: bool)
        ensures
            valid == self.valid(),
    {
        match self.worker_limit {
            None => true,
            Some(limit) => limit > 0,
        }
    }
}

} // verus!
