//! The single-precision encodings produced by the library match the
//! machine's own float conversions, bit for bit.

use voxelify::scalar::channel_to_scalar;
use voxelify::scalar::max_scalar;
use voxelify::scalar::min_scalar;
use voxelify::scalar::uint_to_scalar;
use voxelify::scalar::SCALAR_NEG_ONE;
use voxelify::scalar::SCALAR_ONE;
use voxelify::scalar::SCALAR_ZERO;

#[test]
fn named_constants_are_the_float_encodings() {
    assert_eq!(SCALAR_ZERO, (0.0f32).to_bits());
    assert_eq!(SCALAR_ONE, (1.0f32).to_bits());
    assert_eq!(SCALAR_NEG_ONE, (-1.0f32).to_bits());
}

#[test]
fn uint_encoding_matches_float_conversion_small() {
    for n in 0u32..70_000 {
        assert_eq!(uint_to_scalar(n), (n as f32).to_bits(), "n = {}", n);
    }
}

#[test]
fn uint_encoding_matches_float_conversion_boundaries() {
    let cases = [
        0u32,
        1,
        2,
        255,
        256,
        65_535,
        (1 << 23) - 1,
        1 << 23,
        (1 << 24) - 1,
        1 << 24,
        (1 << 24) + 1,
        (1 << 24) + 2,
        (1 << 24) + 3,
        (1 << 31) - 1,
        1 << 31,
        u32::MAX - 1,
        u32::MAX,
    ];
    for &n in cases.iter() {
        assert_eq!(uint_to_scalar(n), (n as f32).to_bits(), "n = {}", n);
    }
}

#[test]
fn uint_encoding_matches_float_conversion_strided() {
    // A multiplicative stride walks a spread of values over the whole range.
    let mut n: u32 = 1;
    for _ in 0..200_000 {
        n = n.wrapping_mul(2_654_435_761).wrapping_add(12_345);
        assert_eq!(uint_to_scalar(n), (n as f32).to_bits(), "n = {}", n);
    }
}

#[test]
fn channel_encoding_matches_float_conversion_exhaustive() {
    for c in 0u16..=255 {
        let c = c as u8;
        let expected = (c as f32 / 255.0f32).to_bits();
        assert_eq!(channel_to_scalar(c), expected, "c = {}", c);
    }
}

#[test]
fn min_max_match_float_semantics_on_finite_values() {
    let samples = [
        0.0f32, 1.0, -1.0, 0.5, -0.5, 2.0, 255.0, 1.0e20, -1.0e20, 3.25, -7.75,
    ];
    for &a in samples.iter() {
        for &b in samples.iter() {
            assert_eq!(
                f32::from_bits(min_scalar(a.to_bits(), b.to_bits())),
                a.min(b),
                "min of {} and {}",
                a,
                b
            );
            assert_eq!(
                f32::from_bits(max_scalar(a.to_bits(), b.to_bits())),
                a.max(b),
                "max of {} and {}",
                a,
                b
            );
        }
    }
}

#[test]
fn min_max_ignore_nan_like_the_float_library() {
    let nan = f32::NAN.to_bits();
    let one = (1.0f32).to_bits();
    assert_eq!(min_scalar(nan, one), one);
    assert_eq!(min_scalar(one, nan), one);
    assert_eq!(max_scalar(nan, one), one);
    assert_eq!(max_scalar(one, nan), one);
}

#[test]
fn min_max_order_infinities() {
    let inf = f32::INFINITY.to_bits();
    let neg_inf = f32::NEG_INFINITY.to_bits();
    let one = (1.0f32).to_bits();
    assert_eq!(min_scalar(inf, one), one);
    assert_eq!(max_scalar(inf, one), inf);
    assert_eq!(min_scalar(neg_inf, one), neg_inf);
    assert_eq!(max_scalar(neg_inf, one), one);
}

#[test]
fn min_of_equal_values_returns_the_first_operand() {
    // The two zeros compare equal; the library keeps the first operand,
    // which makes the fold deterministic.
    let pz = (0.0f32).to_bits();
    let nz = (-0.0f32).to_bits();
    assert_eq!(min_scalar(pz, nz), pz);
    assert_eq!(min_scalar(nz, pz), nz);
    assert_eq!(max_scalar(pz, nz), pz);
}
