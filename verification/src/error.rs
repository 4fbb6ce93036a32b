//! The ways in which the library's operations fail.

use vstd::prelude::*;

verus! {

/// Why a payload did not become a dataset.
#[derive(Clone, Copy, Debug, PartialEq, Eq, Structural)]
pub enum DecodeError {
    /// The payload is no JSON text, or a required field is missing or holds
    /// a value of the wrong kind.
    Malformed,
    /// The payload could not be obtained at all.
    Network,
}

} // verus!
