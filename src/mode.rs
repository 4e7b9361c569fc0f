use vstd::prelude::*;

verus! {

/// A quality value: the bit pattern of an IEEE-754 double-precision number.
///
/// The library never computes with the number; it hands the bits unchanged to
/// the native codec, which interprets and validates them.
#[derive(Clone, Copy, Debug, PartialEq, Eq, Structural)]
pub struct Quality {
    pub bits: u64,
}

/// Compression mode / quality control.
#[derive(Clone, Copy, Debug, PartialEq, Eq, Structural)]
pub enum CompressionMode {
    /// Fixed bit-per-pixel rate
    BitsPerPixel {
        /// bits-per-pixel, must be in `0.0 <= bpp <= 64.0`
        bpp: Quality,
    },
    /// Fixed peak signal-to-noise ratio
    PeakSignalToNoiseRatio {
        /// non-negative peak signal-to-noise ratio
        psnr: Quality,
    },
    /// Fixed point-wise (absolute) error
    PointwiseError {
        /// non-negative point-wise (absolute) error
        pwe: Quality,
    },
}

/// Native mode identifier of a fixed rate.
pub const MODE_BITS_PER_PIXEL: i32 = 1;

/// Native mode identifier of a fixed peak signal-to-noise ratio.
pub const MODE_PSNR: i32 = 2;

/// Native mode identifier of a fixed point-wise error.
pub const MODE_POINTWISE_ERROR: i32 = 3;

impl CompressionMode {
    pub open spec fn mode_spec(self) -> i32 {
        match self {
            CompressionMode::BitsPerPixel { .. } => MODE_BITS_PER_PIXEL,
            CompressionMode::PeakSignalToNoiseRatio { .. } => MODE_PSNR,
            CompressionMode::PointwiseError { .. } => MODE_POINTWISE_ERROR,
        }
    }

    pub open spec fn quality_spec(self) -> Quality {
        match self {
            CompressionMode::BitsPerPixel { bpp } => bpp,
            CompressionMode::PeakSignalToNoiseRatio { psnr } => psnr,
            CompressionMode::PointwiseError { pwe } => pwe,
        }
    }

    /// The native mode identifier: 1 for a rate, 2 for a fidelity, 3 for an
    /// error bound.
    pub fn as_mode(self) -> (r: i32)
        ensures
            r == self.mode_spec(),
            1 <= r <= 3,
    {
        match self {
            CompressionMode::BitsPerPixel { .. } => MODE_BITS_PER_PIXEL,
            CompressionMode::PeakSignalToNoiseRatio { .. } => MODE_PSNR,
            CompressionMode::PointwiseError { .. } => MODE_POINTWISE_ERROR,
        }
    }

    /// The single quality value carried by the mode.
    pub fn as_quality(self) -> (r: Quality)
        ensures
            r == self.quality_spec(),
    {
        match self {
            CompressionMode::BitsPerPixel { bpp } => bpp,
            CompressionMode::PeakSignalToNoiseRatio { psnr } => psnr,
            CompressionMode::PointwiseError { pwe } => pwe,
        }
    }
}

} // verus!
