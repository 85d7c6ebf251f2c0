//! The one failure channel of the start-up sequence.

use vstd::prelude::*;

verus! {

/// Why start-up ended. Each variant names the stage that failed; every one of
/// them is fatal and none is retried.
#[derive(Clone, Copy, Debug, PartialEq, Eq, Structural)]
pub enum Error {
    /// The settings could not be obtained or were invalid.
    Config,
    /// The execution environment could not be built.
    Runtime,
    /// The bind address text did not parse.
    Address,
    /// The listener could not be opened.
    Bind,
    /// The accept and dispatch loop ended abnormally.
    Serve,
}

} // verus!
