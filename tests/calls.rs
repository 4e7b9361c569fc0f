use sperr::calls::{
    compress_2d_args, compress_3d_args, decompress_2d_args, decompress_3d_args, Decompress2dArgs,
    Decompress3dArgs,
};
use sperr::dims::{lift_2d, to_axis_order, to_native_order};
use sperr::{CompressionMode, ElementKind, Error, Header, Quality};

fn pwe(x: f64) -> CompressionMode {
    CompressionMode::PointwiseError { pwe: Quality { bits: x.to_bits() } }
}

#[test]
fn dimension_order_is_reversed_at_the_native_boundary() {
    assert_eq!(to_native_order((2, 3, 4)), (4, 3, 2));
    assert_eq!(to_axis_order((4, 3, 2)), (2, 3, 4));
    assert_eq!(to_axis_order(to_native_order((7, 1, 9))), (7, 1, 9));
    assert_eq!(lift_2d((3, 4)), (1, 3, 4));
}

#[test]
fn compress_2d_hands_extents_fastest_first() {
    let args = compress_2d_args((3, 5), ElementKind::F32, pwe(0.5));
    assert_eq!(args.width, 5);
    assert_eq!(args.height, 3);
    assert_eq!(args.is_float, 1);
    assert_eq!(args.mode, 3);
    assert_eq!(f64::from_bits(args.quality.bits), 0.5);
    assert_eq!(args.multires, 1);
}

#[test]
fn compress_3d_reverses_volume_and_chunks() {
    let mode = CompressionMode::BitsPerPixel { bpp: Quality { bits: 2.0f64.to_bits() } };
    let args = compress_3d_args((2, 3, 4), (5, 6, 7), ElementKind::F64, mode);
    assert_eq!(args.dims, (4, 3, 2));
    assert_eq!(args.chunks, (7, 6, 5));
    assert_eq!(args.is_float, 0);
    assert_eq!(args.mode, 1);
    assert_eq!(args.threads, 0);
}

#[test]
fn cube_with_error_bound_and_cubic_chunks() {
    let args = compress_3d_args((128, 128, 128), (64, 64, 64), ElementKind::F64, pwe(0.1));
    assert_eq!(args.dims, (128, 128, 128));
    assert_eq!(args.chunks, (64, 64, 64));
    assert_eq!(args.mode, 3);
    assert_eq!(f64::from_bits(args.quality.bits), 0.1);
    let header = Header { dim_x: 128, dim_y: 128, dim_z: 128, is_float: 0 };
    assert_eq!(
        decompress_3d_args(&header, (128, 128, 128), ElementKind::F64),
        Ok(Decompress3dArgs { is_float: 0, threads: 0 })
    );
}

#[test]
fn same_inputs_give_the_same_native_arguments() {
    let a = compress_2d_args((8, 9), ElementKind::F64, pwe(0.25));
    let b = compress_2d_args((8, 9), ElementKind::F64, pwe(0.25));
    assert_eq!(a, b);
}

#[test]
fn decompress_2d_checks_shape_before_any_call() {
    let header = Header { dim_x: 5, dim_y: 3, dim_z: 1, is_float: 1 };
    assert_eq!(
        decompress_2d_args(&header, (3, 5), ElementKind::F32),
        Ok(Decompress2dArgs { is_float: 1, width: 5, height: 3 })
    );
    assert_eq!(decompress_2d_args(&header, (5, 3), ElementKind::F32), Err(Error::DecompressShapeMismatch));
    assert_eq!(decompress_2d_args(&header, (3, 4), ElementKind::F64), Err(Error::DecompressShapeMismatch));
}

#[test]
fn decompress_3d_rejects_a_transposed_target() {
    let header = Header { dim_x: 4, dim_y: 3, dim_z: 2, is_float: 0 };
    assert!(decompress_3d_args(&header, (2, 3, 4), ElementKind::F64).is_ok());
    assert_eq!(
        decompress_3d_args(&header, (4, 3, 2), ElementKind::F64),
        Err(Error::DecompressShapeMismatch)
    );
}
