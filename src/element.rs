use vstd::prelude::*;
use crate::seal::Sealed;

verus! {

/// The element kinds that can be compressed: a closed set of exactly two
/// floating-point kinds.
#[derive(Clone, Copy, Debug, PartialEq, Eq, Structural)]
pub enum ElementKind {
    /// 32-bit (single-precision) floating-point values
    F32,
    /// 64-bit (double-precision) floating-point values
    F64,
}

impl ElementKind {
    /// Whether the native codec treats this kind as its single-precision
    /// "float" kind.
    pub open spec fn is_float_spec(self) -> bool {
        self is F32
    }

    /// The boolean tag handed to every native call for this element kind.
    pub fn is_float(self) -> (r: bool)
        ensures
            r == self.is_float_spec(),
    {
        match self {
            ElementKind::F32 => true,
            ElementKind::F64 => false,
        }
    }

    /// The native codec's integer encoding of [`ElementKind::is_float`].
    pub fn native_flag(self) -> (r: i32)
        ensures
            r == (if self.is_float_spec() { 1i32 } else { 0i32 }),
    {
        if self.is_float() {
            1
        } else {
            0
        }
    }
}

/// Marker for the element types that can be compressed. The trait is sealed:
/// its only implementations are [`Single`] and [`Double`], so dispatch on the
/// element kind is static and the set cannot be extended.
pub trait Element: Sealed {
    spec fn kind_spec() -> ElementKind;

    /// The kind of this element type.
    fn kind() -> (r: ElementKind)
        ensures
            r == Self::kind_spec(),
    ;
}

/// Single-precision elements.
#[derive(Clone, Copy, Debug, PartialEq, Eq, Structural)]
pub struct Single;

/// Double-precision elements.
#[derive(Clone, Copy, Debug, PartialEq, Eq, Structural)]
pub struct Double;

impl Sealed for Single {}

impl Sealed for Double {}

impl Element for Single {
    open spec fn kind_spec() -> ElementKind {
        ElementKind::F32
    }

    fn kind() -> (r: ElementKind) {
        ElementKind::F32
    }
}

impl Element for Double {
    open spec fn kind_spec() -> ElementKind {
        ElementKind::F64
    }

    fn kind() -> (r: ElementKind) {
        ElementKind::F64
    }
}

} // verus!
