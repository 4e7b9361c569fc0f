use vstd::prelude::*;
use crate::dims::{lifted, reversed, to_native_order, AxisExtents, NativeExtents};
use crate::element::ElementKind;
use crate::error::Error;
use crate::header::{check_shape_2d, check_shape_3d, matches_2d, matches_3d, Header};
use crate::mode::{CompressionMode, Quality};

verus! {

/// The value of the 2d compressor's flag that enables its multi-resolution
/// output mode; it is always set.
pub const MULTIRES_ON: i32 = 1;

/// The 3d entry points' parallelism setting, always handed as zero.
pub const NO_THREADS: usize = 0;

/// Arguments of the native 2d compression entry point, besides the data and
/// the output slots.
#[derive(Clone, Copy, Debug, PartialEq, Eq, Structural)]
pub struct Compress2dArgs {
    pub is_float: i32,
    /// the fastest-varying extent (columns)
    pub width: usize,
    /// the slowest-varying extent (rows)
    pub height: usize,
    pub mode: i32,
    pub quality: Quality,
    pub multires: i32,
}

/// Arguments of the native 3d compression entry point, besides the data and
/// the output slots.
#[derive(Clone, Copy, Debug)]
pub struct Compress3dArgs {
    pub is_float: i32,
    /// the volume's extents, fastest-first
    pub dims: NativeExtents,
    /// the preferred chunk extents, fastest-first
    pub chunks: NativeExtents,
    pub mode: i32,
    pub quality: Quality,
    pub threads: usize,
}

/// Arguments of the native 2d decompression entry point, besides the payload
/// and the output slot.
#[derive(Clone, Copy, Debug, PartialEq, Eq, Structural)]
pub struct Decompress2dArgs {
    pub is_float: i32,
    pub width: usize,
    pub height: usize,
}

/// Arguments of the native 3d decompression entry point, besides the buffer
/// and the output slots.
#[derive(Clone, Copy, Debug, PartialEq, Eq, Structural)]
pub struct Decompress3dArgs {
    pub is_float: i32,
    pub threads: usize,
}

pub open spec fn flag_of(element: ElementKind) -> i32 {
    if element.is_float_spec() {
        1i32
    } else {
        0i32
    }
}

pub open spec fn compress_2d_spec(
    shape: (usize, usize),
    element: ElementKind,
    mode: CompressionMode,
) -> Compress2dArgs {
    Compress2dArgs {
        is_float: flag_of(element),
        width: shape.1,
        height: shape.0,
        mode: mode.mode_spec(),
        quality: mode.quality_spec(),
        multires: MULTIRES_ON,
    }
}

pub open spec fn compress_3d_spec(
    shape: AxisExtents,
    chunks: AxisExtents,
    element: ElementKind,
    mode: CompressionMode,
) -> Compress3dArgs {
    Compress3dArgs {
        is_float: flag_of(element),
        dims: reversed(shape),
        chunks: reversed(chunks),
        mode: mode.mode_spec(),
        quality: mode.quality_spec(),
        threads: NO_THREADS,
    }
}

pub open spec fn decompress_2d_spec(header: Header, shape: (usize, usize), element: ElementKind) -> Result<
    Decompress2dArgs,
    Error,
> {
    if matches_2d(header, shape) {
        Ok(Decompress2dArgs { is_float: flag_of(element), width: shape.1, height: shape.0 })
    } else {
        Err(Error::DecompressShapeMismatch)
    }
}

pub open spec fn decompress_3d_spec(header: Header, shape: AxisExtents, element: ElementKind) -> Result<
    Decompress3dArgs,
    Error,
> {
    if matches_3d(header, shape) {
        Ok(Decompress3dArgs { is_float: flag_of(element), threads: NO_THREADS })
    } else {
        Err(Error::DecompressShapeMismatch)
    }
}

/// The native arguments that compress a 2d array of shape `(rows, cols)`:
/// extents fastest-first, the element flag, the mode's `(mode, quality)`
/// pair, and the multi-resolution flag set.
pub fn compress_2d_args(shape: (usize, usize), element: ElementKind, mode: CompressionMode) -> (r:
    Compress2dArgs)
    ensures
        r == compress_2d_spec(shape, element, mode),
{
    Compress2dArgs {
        is_float: element.native_flag(),
        width: shape.1,
        height: shape.0,
        mode: mode.as_mode(),
        quality: mode.as_quality(),
        multires: MULTIRES_ON,
    }
}

/// The native arguments that compress a 3d volume of extents `shape` in
/// preferred chunks of extents `chunks`: both reversed to fastest-first, the
/// element flag and the mode's `(mode, quality)` pair.
pub fn compress_3d_args(
    shape: AxisExtents,
    chunks: AxisExtents,
    element: ElementKind,
    mode: CompressionMode,
) -> (r: Compress3dArgs)
    ensures
        r == compress_3d_spec(shape, chunks, element, mode),
{
    Compress3dArgs {
        is_float: element.native_flag(),
        dims: to_native_order(shape),
        chunks: to_native_order(chunks),
        mode: mode.as_mode(),
        quality: mode.as_quality(),
        threads: NO_THREADS,
    }
}

/// The native arguments that decompress a 2d payload into an array of shape
/// `(rows, cols)`, once the header split off it was parsed; fails with
/// [`Error::DecompressShapeMismatch`] exactly when the header encodes another
/// shape.
pub fn decompress_2d_args(header: &Header, shape: (usize, usize), element: ElementKind) -> (r: Result<
    Decompress2dArgs,
    Error,
>)
    ensures
        r == decompress_2d_spec(*header, shape, element),
{
    match check_shape_2d(header, shape) {
        Ok(()) => Ok(
            Decompress2dArgs { is_float: element.native_flag(), width: shape.1, height: shape.0 },
        ),
        Err(e) => Err(e),
    }
}

/// The native arguments that decompress a 3d buffer into a volume of extents
/// `shape`, once its header was parsed; fails with
/// [`Error::DecompressShapeMismatch`] exactly when the header encodes other
/// extents.
pub fn decompress_3d_args(header: &Header, shape: AxisExtents, element: ElementKind) -> (r: Result<
    Decompress3dArgs,
    Error,
>)
    ensures
        r == decompress_3d_spec(*header, shape, element),
{
    match check_shape_3d(header, shape) {
        Ok(()) => Ok(Decompress3dArgs { is_float: element.native_flag(), threads: NO_THREADS }),
        Err(e) => Err(e),
    }
}

/// Shape round trip in 2d: when the header of a compressed buffer records the
/// extents that compressing an array of shape `shape` handed to the native
/// codec, decompression into a target of shape `target` proceeds exactly when
/// `target == shape`, and otherwise fails with a shape mismatch before any
/// native decoding.
pub proof fn lemma_shape_round_trip_2d(
    shape: (usize, usize),
    element: ElementKind,
    mode: CompressionMode,
    header: Header,
    target: (usize, usize),
    target_element: ElementKind,
)
    requires
        ({
            let args = compress_2d_spec(shape, element, mode);
            header.native_extents() == (args.width, args.height, 1usize)
        }),
    ensures
        target == shape ==> decompress_2d_spec(header, target, target_element) is Ok,
        target != shape ==> decompress_2d_spec(header, target, target_element) == Err::<
            Decompress2dArgs,
            Error,
        >(Error::DecompressShapeMismatch),
{
    assert(header.axis_extents() == lifted(shape));
}

/// Shape round trip in 3d: when the header of a compressed buffer records the
/// extents that compressing a volume of extents `shape` handed to the native
/// codec, decompression into a target of extents `target` proceeds exactly
/// when `target == shape`, and otherwise fails with a shape mismatch before
/// any native decoding.
pub proof fn lemma_shape_round_trip_3d(
    shape: AxisExtents,
    chunks: AxisExtents,
    element: ElementKind,
    mode: CompressionMode,
    header: Header,
    target: AxisExtents,
    target_element: ElementKind,
)
    requires
        header.native_extents() == compress_3d_spec(shape, chunks, element, mode).dims,
    ensures
        target == shape ==> decompress_3d_spec(header, target, target_element) is Ok,
        target != shape ==> decompress_3d_spec(header, target, target_element) == Err::<
            Decompress3dArgs,
            Error,
        >(Error::DecompressShapeMismatch),
{
    assert(header.axis_extents() == shape);
}

} // verus!
