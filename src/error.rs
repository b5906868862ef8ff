use vstd::prelude::*;

verus! {

/// The ways an operation of the engine can fail.
#[derive(Clone, Copy, Debug, PartialEq, Eq, Structural)]
pub enum Error {
    /// The algorithm, the key format or the hash is not implemented for the operation.
    NotSupported,
    /// A parameter is missing or malformed, or a usage list is not allowed.
    Syntax,
    /// A parameter fails a numeric or length condition, or padding is invalid.
    Operation,
    /// Key material has the wrong size or the wrong kind for the primitive.
    Data,
    /// A key is used for an operation its usages or extractability forbid.
    InvalidAccess,
}

} // verus!
