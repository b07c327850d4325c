//! Errors reported by writers and the runtime.
use vstd::prelude::*;

verus! {

/// A writer ran out of buffer space.
#[derive(Debug)]
pub struct OutOfSpace {
    /// How many bytes were requested when the writer filled up.
    pub requested: usize,
}

/// The runtime was asked to sleep into the past.
#[derive(Debug)]
pub struct InvalidDeadline {
    /// The rejected deadline value.
    pub deadline: u64,
}

} // verus!
