use vstd::prelude::*;

verus! {

/// Errors that can occur during compression and decompression.
#[derive(Clone, Copy, Debug, PartialEq, Eq, Structural)]
pub enum Error {
    /// one or more parameters is invalid
    InvalidParameter,
    /// compressed data is missing the header
    DecompressMissingHeader,
    /// cannot decompress to an array with a different shape
    DecompressShapeMismatch,
    /// other error
    Other,
}

} // verus!
