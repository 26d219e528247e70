//! Typed buffer reinterpretation: viewing a byte slice as 16-bit elements.
//!
//! The borrowed, zero-copy view is only possible when the byte count divides
//! evenly and the slice's address is aligned for `u16`; when only the
//! alignment is missing, the bytes are copied once into a freshly allocated
//! element buffer. The element values are the source bytes read two at a time
//! in the machine's byte order; the contracts state that order abstractly,
//! since it is a property of the machine, not of the input.

use vstd::prelude::*;
use crate::error::Error;

verus! {

/// The 16-bit value of element `i` when the bytes are read least significant
/// first.
pub open spec fn u16_le_at(b: Seq<u8>, i: int) -> u16 {
    (b[2 * i] + 256 * b[2 * i + 1]) as u16
}

/// The 16-bit value of element `i` when the bytes are read most significant
/// first.
pub open spec fn u16_be_at(b: Seq<u8>, i: int) -> u16 {
    (256 * b[2 * i] + b[2 * i + 1]) as u16
}

/// `w` holds exactly the bytes of `b`, grouped in pairs into 16-bit elements
/// in one machine byte order: every element is the pair read least
/// significant first, or every element is the pair read most significant
/// first.
pub open spec fn is_u16_view(b: Seq<u8>, w: Seq<u16>) -> bool {
    &&& b.len() == 2 * w.len()
    &&& {
        ||| forall|i: int| 0 <= i < w.len() ==> w[i] == u16_le_at(b, i)
        ||| forall|i: int| 0 <= i < w.len() ==> w[i] == u16_be_at(b, i)
    }
}

/// Why a zero-copy cast of a byte slice to 16-bit elements was refused.
#[derive(Debug)]
enum CastFailure {
    /// The slice's address is not aligned for the target element type.
    NotAligned,
    /// The byte count is not a whole number of elements.
    Slop,
    /// Any other refusal, with its diagnostic; cannot arise for this element
    /// type.
    Unsupported(String),
}

/// Relies on `bytemuck::try_cast_slice::<u8, u16>`: it checks alignment
/// first, then that the byte count is a whole number of elements, and on
/// success returns the same memory read as machine-order `u16`s. For this
/// element pair those are its only two refusals.
#[verifier::external_body]
fn cast_bytes_to_u16s<'a>(bytes: &'a [u8]) -> (r: Result<&'a [u16], CastFailure>)
    ensures
        (r matches Ok(s) ==> bytes@.len() % 2 == 0 && is_u16_view(bytes@, s@)),
        (r matches Err(e) ==> !(e matches CastFailure::Unsupported(..))),
        (r matches Err(e) ==> (e matches CastFailure::Slop ==> bytes@.len() % 2 != 0)),
{
    match bytemuck::try_cast_slice(bytes) {
        Ok(s) => Ok(s),
        Err(bytemuck::PodCastError::TargetAlignmentGreaterAndInputNotAligned) => {
            Err(CastFailure::NotAligned)
        }
        Err(bytemuck::PodCastError::OutputSliceWouldHaveSlop) => Err(CastFailure::Slop),
        Err(e) => Err(CastFailure::Unsupported(format!("{:?}", e))),
    }
}

/// Relies on `bytemuck::try_cast_slice_mut::<u16, u8>` and
/// `<[u8]>::copy_from_slice`: the element buffer is viewed as its bytes in
/// machine order (which cannot be refused, since `u8` has alignment 1 and the
/// byte count is exact) and the source bytes are copied over them, so
/// afterwards the elements are exactly the source bytes read in machine
/// order.
#[verifier::external_body]
fn fill_u16s_from_bytes(dst: &mut Vec<u16>, src: &[u8])
    requires
        2 * old(dst)@.len() == src@.len(),
    ensures
        is_u16_view(src@, final(dst)@),
{
    bytemuck::try_cast_slice_mut::<u16, u8>(dst.as_mut_slice()).unwrap().copy_from_slice(src);
}

/// A typed 16-bit view of a byte buffer: borrowed directly from the caller's
/// bytes when alignment permits, or an owned copy otherwise.
#[derive(Debug)]
pub enum Reinterpreted<'a> {
    /// A zero-copy view over the caller's bytes.
    Borrowed(&'a [u16]),
    /// A freshly allocated copy of the caller's bytes.
    Owned(Vec<u16>),
}

impl<'a> Reinterpreted<'a> {
    /// The elements of the view.
    pub open spec fn values(&self) -> Seq<u16> {
        match self {
            Reinterpreted::Borrowed(s) => s@,
            Reinterpreted::Owned(v) => v@,
        }
    }

    /// The elements of the view, as a slice.
    pub fn as_slice(&self) -> (s: &[u16])
        ensures
            s@ == self.values(),
    {
        match self {
            Reinterpreted::Borrowed(s) => s,
            Reinterpreted::Owned(v) => v.as_slice(),
        }
    }
}

/// Reinterpret a byte slice as 16-bit elements. Succeeds exactly when the
/// byte count is a whole number of elements; borrows the bytes zero-copy when
/// their address is aligned for the element type, and otherwise copies them
/// once into an owned, correctly aligned buffer with identical content. A
/// byte count that leaves a remainder is a dimension mismatch.
pub fn reinterpret_u16<'a>(bytes: &'a [u8]) -> (r: Result<Reinterpreted<'a>, Error>)
    ensures
        r is Ok <==> bytes@.len() % 2 == 0,
        (r matches Ok(v) ==> is_u16_view(bytes@, v.values())),
        (r matches Err(e) ==> e == Error::DimensionMismatch),
{
    match cast_bytes_to_u16s(bytes) {
        Ok(s) => Ok(Reinterpreted::Borrowed(s)),
        Err(CastFailure::Slop) => Err(Error::DimensionMismatch),
        Err(CastFailure::NotAligned) => {
            if bytes.len() % 2 != 0 {
                Err(Error::DimensionMismatch)
            } else {
                let n: usize = bytes.len() / 2;
                let mut v: Vec<u16> = Vec::new();
                while v.len() < n
                    invariant
                        v@.len() <= n,
                    decreases n - v@.len(),
                {
                    v.push(0u16);
                }
                fill_u16s_from_bytes(&mut v, bytes);
                Ok(Reinterpreted::Owned(v))
            }
        }
        Err(CastFailure::Unsupported(s)) => Err(Error::BufferReinterpretFailure(s)),
    }
}

} // verus!
