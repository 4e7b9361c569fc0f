use vstd::prelude::*;

verus! {

/// Extents of a 3d array in its own axis order: slowest-varying axis first.
pub type AxisExtents = (usize, usize, usize);

/// Extents as the native codec lists them: fastest-varying axis first.
pub type NativeExtents = (usize, usize, usize);

/// The one coordinate transform between the two orders: the extents reversed.
pub open spec fn reversed(e: (usize, usize, usize)) -> (usize, usize, usize) {
    (e.2, e.1, e.0)
}

/// The extents of a 2d array of shape `(rows, cols)` seen as a 3d array whose
/// slowest axis has unit extent.
pub open spec fn lifted(shape: (usize, usize)) -> AxisExtents {
    (1, shape.0, shape.1)
}

/// Array axis order to the native codec's fastest-first order.
pub fn to_native_order(axes: AxisExtents) -> (r: NativeExtents)
    ensures
        r == reversed(axes),
{
    (axes.2, axes.1, axes.0)
}

/// The native codec's fastest-first order to array axis order.
pub fn to_axis_order(native: NativeExtents) -> (r: AxisExtents)
    ensures
        r == reversed(native),
{
    (native.2, native.1, native.0)
}

/// A 2d shape `(rows, cols)` as 3d extents with a unit slowest axis.
pub fn lift_2d(shape: (usize, usize)) -> (r: AxisExtents)
    ensures
        r == lifted(shape),
{
    (1, shape.0, shape.1)
}

} // verus!
