use vstd::prelude::*;

verus! {

/// Errors arising from ptvoice operations.
#[derive(Clone, Copy, Debug, PartialEq, Eq, Structural)]
pub enum PtvError {
    /// Ptvoice has newer version than supported.
    Unsupported,
    /// Ptvoice data is malformed or contains an illegal value.
    Invalid,
    /// Ptvoice data has too many items or is too long to encode its own length.
    OverMax,
    /// The data ended before a value could be read in full.
    IoFailure,
}

} // verus!
