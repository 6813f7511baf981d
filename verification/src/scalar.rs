//! IEEE-754 single-precision values, handled as their 32-bit encodings.
//!
//! Geometry, colors and bounds all travel through the library as raw
//! encodings (`u32`), so every computation on them is exact integer and
//! bit arithmetic.  The functions here produce the encodings of the few
//! values the mesh generator needs: small non-negative integers (pixel
//! coordinates) and 8-bit color channels scaled into [0, 1].  Rounding is
//! round-to-nearest, ties to even, the default rounding of the format.

use vstd::prelude::*;

verus! {

/// Encoding of 1.0.
pub const SCALAR_ONE: u32 = 0x3F80_0000;

/// Encoding of -1.0.
pub const SCALAR_NEG_ONE: u32 = 0xBF80_0000;

/// Encoding of 0.0.
pub const SCALAR_ZERO: u32 = 0;

/// Index of the highest set bit of `n`, searched upward from bit `p`;
/// 31 when the search runs off the top (and 0 for `n == 0`).
pub open spec fn msb_from(n: u32, p: u32) -> u32
    decreases 32 - p,
{
    if p >= 31 {
        31
    } else if (n >> p) <= 1 {
        p
    } else {
        msb_from(n, (p + 1) as u32)
    }
}

/// Index of the highest set bit of `n` (0 for `n == 0`).
pub open spec fn msb(n: u32) -> u32 {
    msb_from(n, 0)
}

/// The single-precision encoding of the integer `n`, rounded to nearest,
/// ties to even, when `n` has more than 24 significant bits.
pub open spec fn scalar_of_uint(n: u32) -> u32 {
    if n == 0 {
        0
    } else {
        let p = msb(n);
        if p <= 23 {
            (((127 + p) as u32) << 23) | ((n << ((23 - p) as u32)) & 0x7F_FFFF)
        } else {
            let shift = (p - 23) as u32;
            let trunc = n >> shift;
            let rem = n & (((1u32 << shift) - 1) as u32);
            let half = 1u32 << ((shift - 1) as u32);
            let rounded: u32 = if rem > half || (rem == half && trunc & 1 == 1) {
                (trunc + 1) as u32
            } else {
                trunc
            };
            if rounded == 0x100_0000 {
                ((127 + p + 1) as u32) << 23
            } else {
                (((127 + p) as u32) << 23) | (rounded & 0x7F_FFFF)
            }
        }
    }
}

/// Finds the index of the highest set bit of `n` (0 for `n == 0`).
pub fn find_msb(n: u32) -> (p: u32)
    ensures
        p == msb(n),
{
    let mut p: u32 = 0;
    while p < 31 && (n >> p) > 1
        invariant
            p <= 31,
            msb_from(n, p) == msb(n),
        decreases 32 - p,
    {
        p = p + 1;
    }
    p
}

/// Encodes the integer `n` as a single-precision value.
pub fn uint_to_scalar(n: u32) -> (r: u32)
    ensures
        r == scalar_of_uint(n),
{
    if n == 0 {
        return 0;
    }
    let p = find_msb(n);
    proof {
        lemma_msb_bounds(n);
    }
    if p <= 23 {
        ((127 + p) << 23) | ((n << (23 - p)) & 0x7F_FFFF)
    } else {
        let shift = p - 23;
        let trunc = n >> shift;
        assert(1u32 << shift >= 1) by (bit_vector)
            requires
                1 <= shift <= 8,
        ;
        let rem = n & ((1u32 << shift) - 1);
        let half = 1u32 << (shift - 1);
        let rounded: u32 = if rem > half || (rem == half && trunc & 1 == 1) {
            proof {
                lemma_msb_trunc_bound(n, p);
            }
            trunc + 1
        } else {
            trunc
        };
        if rounded == 0x100_0000 {
            (127 + p + 1) << 23
        } else {
            ((127 + p) << 23) | (rounded & 0x7F_FFFF)
        }
    }
}

/// The highest-bit search never reports an index above 31, and a bit is
/// set there when `n` is not zero.
proof fn lemma_msb_from_bounds(n: u32, p: u32)
    requires
        p <= 31,
        n >> p >= 1 || n == 0,
    ensures
        msb_from(n, p) <= 31,
        p <= msb_from(n, p),
        n != 0 ==> (n >> msb_from(n, p)) == 1 || msb_from(n, p) == 31,
    decreases 32 - p,
{
    if p >= 31 {
    } else if (n >> p) <= 1 {
    } else {
        assert(n >> (p + 1) >= 1) by (bit_vector)
            requires
                p < 31 && (n >> p) > 1,
        ;
        lemma_msb_from_bounds(n, (p + 1) as u32);
    }
}

/// For a non-zero `n`, the reported index `p` satisfies the usual
/// normalization bound: `n >> p == 1`, or `p == 31`.
proof fn lemma_msb_bounds(n: u32)
    requires
        n != 0,
    ensures
        msb(n) <= 31,
        (n >> msb(n)) == 1 || msb(n) == 31,
{
    assert(n >> 0u32 >= 1) by (bit_vector)
        requires
            n != 0,
    ;
    lemma_msb_from_bounds(n, 0);
}

/// Smallest shift `s` (searched upward from `s`) with `c * 2^s` at or
/// above `255 * 2^23`; 31 when the search runs off the top.
pub open spec fn channel_shift_from(c: u8, s: u32) -> u32
    decreases 32 - s,
{
    if s >= 31 {
        31
    } else if ((c as u64) << s) >= (255u64 << 23) {
        s
    } else {
        channel_shift_from(c, (s + 1) as u32)
    }
}

/// The single-precision encoding of `c / 255`, the color value of the
/// 8-bit channel `c`, rounded to nearest (the quotient never falls on a
/// tie, 255 being odd).
pub open spec fn scalar_of_channel(c: u8) -> u32 {
    if c == 0 {
        0
    } else {
        let s = channel_shift_from(c, 0);
        let num = (c as u64) << s;
        let q = num / 255;
        let r = num % 255;
        let sig = if r >= 128 {
            (q + 1) as u64
        } else {
            q
        };
        if sig == 0x100_0000 {
            ((151 - s) as u32) << 23
        } else {
            (((150 - s) as u32) << 23) | ((sig as u32) & 0x7F_FFFF)
        }
    }
}

/// Encodes the 8-bit channel `c` as the single-precision value `c / 255`.
pub fn channel_to_scalar(c: u8) -> (r: u32)
    ensures
        r == scalar_of_channel(c),
{
    if c == 0 {
        return 0;
    }
    let mut s: u32 = 0;
    while s < 31 && ((c as u64) << s) < (255u64 << 23)
        invariant
            s <= 31,
            channel_shift_from(c, s) == channel_shift_from(c, 0),
        decreases 32 - s,
    {
        s = s + 1;
    }
    proof {
        lemma_channel_shift_bounds(c, 0);
    }
    let num = (c as u64) << s;
    let q = num / 255;
    let r = num % 255;
    let sig = if r >= 128 {
        q + 1
    } else {
        q
    };
    if sig == 0x100_0000 {
        (151 - s) << 23
    } else {
        ((150 - s) << 23) | ((sig as u32) & 0x7F_FFFF)
    }
}

/// The shift search stays in range, and for a non-zero channel the scaled
/// numerator it finds is normalized: `255 * 2^23 <= c * 2^s < 255 * 2^24`.
proof fn lemma_channel_shift_bounds(c: u8, s: u32)
    requires
        s <= 31,
        c != 0,
        s == 0 || ((c as u64) << ((s - 1) as u32)) < (255u64 << 23),
    ensures
        s <= channel_shift_from(c, s) <= 31,
        ((c as u64) << channel_shift_from(c, s)) >= (255u64 << 23),
        ((c as u64) << channel_shift_from(c, s)) < (255u64 << 24),
        ((c as u64) << channel_shift_from(c, s)) / 255 < 0x100_0000,
        23 <= channel_shift_from(c, s),
    decreases 32 - s,
{
    let t = channel_shift_from(c, s);
    if s >= 31 {
        assert(c != 0 ==> ((c as u64) << 31u32) >= (255u64 << 23)) by (bit_vector);
        assert(s == 31 && (s == 0 || ((c as u64) << ((s - 1) as u32)) < (255u64 << 23)) && c != 0
            ==> ((c as u64) << 31u32) < (255u64 << 24)) by (bit_vector);
    } else if ((c as u64) << s) >= (255u64 << 23) {
        assert((s == 0 || ((c as u64) << ((s - 1) as u32)) < (255u64 << 23)) && s <= 31 && c != 0
            && ((c as u64) << s) >= (255u64 << 23) ==> ((c as u64) << s) < (255u64 << 24))
            by (bit_vector);
    } else {
        lemma_channel_shift_bounds(c, (s + 1) as u32);
    }
    assert(((c as u64) << t) < (255u64 << 24) ==> ((c as u64) << t) / 255 < 0x100_0000) by {
        let x = (c as u64) << t;
        assert(255u64 << 24 == 4278190080u64) by (bit_vector);
        assert(x < 4278190080 ==> x / 255 < 0x100_0000) by (nonlinear_arith);
    };
    assert(c != 0 && t <= 31 && ((c as u64) << t) >= (255u64 << 23) ==> 23 <= t) by (bit_vector);
}

/// True when the encoding `b` is a NaN: exponent field all ones and a
/// non-zero significand field.
pub open spec fn scalar_is_nan(b: u32) -> bool {
    (b >> 23) & 0xFF == 0xFF && b & 0x7F_FFFF != 0
}

/// True when the encoding `b` is finite (neither an infinity nor a NaN).
pub open spec fn scalar_is_finite(b: u32) -> bool {
    (b >> 23) & 0xFF != 0xFF
}

/// Tests the encoding `b` for finiteness.
pub fn is_finite_scalar(b: u32) -> (r: bool)
    ensures
        r == scalar_is_finite(b),
{
    (b >> 23) & 0xFF != 0xFF
}

/// Orders the non-NaN encodings as the values they stand for: negative
/// values sort by falling magnitude, and the two zeros sort together.
pub open spec fn scalar_key(b: u32) -> int {
    if b >> 31 == 1 {
        -((b & 0x7FFF_FFFF) as int)
    } else {
        (b & 0x7FFF_FFFF) as int
    }
}

/// The smaller of two encoded values.  A NaN loses to the other operand,
/// as in the minimum the original format libraries compute; when the two
/// values are equal (including a negative and a positive zero) the first
/// operand is returned, which makes the choice deterministic.
pub open spec fn scalar_min(a: u32, b: u32) -> u32 {
    if scalar_is_nan(a) {
        b
    } else if scalar_is_nan(b) {
        a
    } else if scalar_key(a) <= scalar_key(b) {
        a
    } else {
        b
    }
}

/// The larger of two encoded values, under the same NaN and tie rules as
/// `scalar_min`.
pub open spec fn scalar_max(a: u32, b: u32) -> u32 {
    if scalar_is_nan(a) {
        b
    } else if scalar_is_nan(b) {
        a
    } else if scalar_key(a) >= scalar_key(b) {
        a
    } else {
        b
    }
}

/// The signed ordering key of the encoding `b`, as a machine integer.
fn scalar_key_exec(b: u32) -> (k: i64)
    ensures
        k == scalar_key(b),
{
    proof {
        assert(b & 0x7FFF_FFFF < 0x8000_0000) by (bit_vector);
    }
    if b >> 31 == 1 {
        -((b & 0x7FFF_FFFF) as i64)
    } else {
        (b & 0x7FFF_FFFF) as i64
    }
}

/// Tests the encoding `b` for NaN.
fn is_nan_scalar(b: u32) -> (r: bool)
    ensures
        r == scalar_is_nan(b),
{
    (b >> 23) & 0xFF == 0xFF && b & 0x7F_FFFF != 0
}

/// Picks the smaller of two encoded values.
pub fn min_scalar(a: u32, b: u32) -> (r: u32)
    ensures
        r == scalar_min(a, b),
{
    if is_nan_scalar(a) {
        b
    } else if is_nan_scalar(b) {
        a
    } else if scalar_key_exec(a) <= scalar_key_exec(b) {
        a
    } else {
        b
    }
}

/// Picks the larger of two encoded values.
pub fn max_scalar(a: u32, b: u32) -> (r: u32)
    ensures
        r == scalar_max(a, b),
{
    if is_nan_scalar(a) {
        b
    } else if is_nan_scalar(b) {
        a
    } else if scalar_key_exec(a) >= scalar_key_exec(b) {
        a
    } else {
        b
    }
}

/// With 24 dropped-bit rounding the kept part stays below 2^24, so the
/// round-up increment cannot overflow.
proof fn lemma_msb_trunc_bound(n: u32, p: u32)
    requires
        24 <= p <= 31,
        (n >> p) == 1 || p == 31,
    ensures
        (n >> ((p - 23) as u32)) < 0x100_0000,
{
    assert((n >> p == 1 || p == 31) && 24 <= p <= 31 ==> (n >> ((p - 23) as u32)) < 0x100_0000)
        by (bit_vector);
}

} // verus!
