//! A safe adapter around a native progressive wavelet compressor for 2d and
//! 3d arrays of single- or double-precision floating-point values.
//!
//! The native codec is reached through six narrow entry points that the
//! caller performs. This library holds every decision around them, and each
//! decision is verified:
//! - [`mode`]: the native `(mode, quality)` pair of a compression mode;
//! - [`element`]: the sealed, closed set of element kinds and their native flag;
//! - [`dims`]: the reversal between array axis order and the native
//!   fastest-first order;
//! - [`header`]: splitting off the fixed-size header and validating the
//!   target shape against it;
//! - [`protocol`]: the meaning of the native status codes, and the ownership
//!   guard that releases every native output allocation exactly once;
//! - [`calls`]: the argument lists handed to each native entry point.

pub mod calls;
pub mod dims;
pub mod element;
pub mod error;
pub mod header;
pub mod mode;
pub mod protocol;
mod seal;

pub use element::{Double, Element, ElementKind, Single};
pub use error::Error;
pub use header::Header;
pub use mode::{CompressionMode, Quality};
