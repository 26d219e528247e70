//! The error kinds this library reports.

use vstd::prelude::*;
use crate::color::ColorType;

verus! {

/// Why preparing or encoding an image failed.
#[derive(Debug, PartialEq, Eq)]
pub enum Error {
    /// The declared width, height and format imply a byte count that does not
    /// match the buffer's length, or they imply a pixel count of zero.
    DimensionMismatch,
    /// The format tag has no conversion path to the encoder's native layout.
    UnsupportedColorFormat(ColorType),
    /// The byte buffer could not be reinterpreted as the target element type
    /// for a reason other than its size or alignment; carries a diagnostic.
    BufferReinterpretFailure(String),
    /// The bitstream encoder itself reported a failure while producing the
    /// AVIF payload; carries its diagnostic.
    Encoding(String),
}

} // verus!
