use vstd::prelude::*;

verus! {

/// Why a decode failed.
#[derive(Debug, Clone, Copy, PartialEq, Eq)]
pub enum DecodeError {
    /// Fewer bytes remain than a field or section requires.
    UnexpectedEnd,
    /// A value breaks a structural constraint of the format.
    InvalidInput,
}

} // verus!
