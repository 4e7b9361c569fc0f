use vstd::prelude::*;
use crate::dims::{lifted, reversed, AxisExtents, NativeExtents, to_axis_order, lift_2d};
use crate::error::Error;

verus! {

/// Length in bytes of the fixed header that leads every compressed buffer.
pub const HEADER_LEN: usize = 10;

/// The fields of a compressed buffer's fixed header, as the native header
/// parser reports them: extents in fastest-first order and the element flag.
#[derive(Clone, Copy, Debug, PartialEq, Eq, Structural)]
pub struct Header {
    pub dim_x: usize,
    pub dim_y: usize,
    pub dim_z: usize,
    pub is_float: i32,
}

impl Header {
    /// The encoded extents, fastest-first.
    pub open spec fn native_extents(self) -> NativeExtents {
        (self.dim_x, self.dim_y, self.dim_z)
    }

    /// The encoded extents in array axis order.
    pub open spec fn axis_extents(self) -> AxisExtents {
        reversed(self.native_extents())
    }

    /// The encoded extents in array axis order, slowest-varying first.
    pub fn extents(&self) -> (r: AxisExtents)
        ensures
            r == self.axis_extents(),
    {
        to_axis_order((self.dim_x, self.dim_y, self.dim_z))
    }
}

/// Checks that a buffer is long enough to hold the fixed header, failing with
/// [`Error::DecompressMissingHeader`] exactly when it is shorter.
pub fn require_header(compressed: &[u8]) -> (r: Result<(), Error>)
    ensures
        r == (if compressed@.len() < HEADER_LEN {
            Err(Error::DecompressMissingHeader)
        } else {
            Ok::<(), Error>(())
        }),
{
    if compressed.len() < HEADER_LEN {
        Err(Error::DecompressMissingHeader)
    } else {
        Ok(())
    }
}

/// Splits a 2d compressed buffer into its fixed header and the payload that
/// follows, failing with [`Error::DecompressMissingHeader`] exactly when the
/// buffer is shorter than the header.
pub fn split_header(compressed: &[u8]) -> (r: Result<(&[u8], &[u8]), Error>)
    ensures
        compressed@.len() < HEADER_LEN ==> r == Err::<(&[u8], &[u8]), Error>(
            Error::DecompressMissingHeader,
        ),
        compressed@.len() >= HEADER_LEN ==> r is Ok && r->Ok_0.0@ == compressed@.subrange(
            0,
            HEADER_LEN as int,
        ) && r->Ok_0.1@ == compressed@.subrange(HEADER_LEN as int, compressed@.len() as int),
{
    if compressed.len() < HEADER_LEN {
        Err(Error::DecompressMissingHeader)
    } else {
        Ok(compressed.split_at(HEADER_LEN))
    }
}

/// Whether a header describes exactly the 3d extents `shape`.
pub open spec fn matches_3d(header: Header, shape: AxisExtents) -> bool {
    header.axis_extents() == shape
}

/// Whether a header describes exactly the 2d shape `(rows, cols)`: a unit
/// slowest extent and the two given ones.
pub open spec fn matches_2d(header: Header, shape: (usize, usize)) -> bool {
    header.axis_extents() == lifted(shape)
}

/// Validates a target 3d shape against a header, failing with
/// [`Error::DecompressShapeMismatch`] exactly when they disagree.
pub fn check_shape_3d(header: &Header, shape: AxisExtents) -> (r: Result<(), Error>)
    ensures
        r == (if matches_3d(*header, shape) {
            Ok::<(), Error>(())
        } else {
            Err(Error::DecompressShapeMismatch)
        }),
{
    let found = header.extents();
    if found.0 == shape.0 && found.1 == shape.1 && found.2 == shape.2 {
        Ok(())
    } else {
        Err(Error::DecompressShapeMismatch)
    }
}

/// Validates a target 2d shape `(rows, cols)` against a header, failing with
/// [`Error::DecompressShapeMismatch`] exactly when they disagree.
pub fn check_shape_2d(header: &Header, shape: (usize, usize)) -> (r: Result<(), Error>)
    ensures
        r == (if matches_2d(*header, shape) {
            Ok::<(), Error>(())
        } else {
            Err(Error::DecompressShapeMismatch)
        }),
{
    check_shape_3d(header, lift_2d(shape))
}

} // verus!
