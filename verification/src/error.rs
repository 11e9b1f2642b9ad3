//! The error type of the engine.

use vstd::prelude::*;

verus! {

/// What can go wrong in the engine.
#[derive(Debug, PartialEq, Eq)]
pub enum TetraError {
    /// The platform layer could not do what was asked; the text says why.
    Platform(String),
}

} // verus!
