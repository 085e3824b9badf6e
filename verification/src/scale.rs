//! Fixed-point scale factors and the arithmetic that carries a length or a
//! coordinate from one monitor scale to another.
//!
//! A scale factor is an unsigned count of thousandths: `1000` stands for one
//! physical pixel per logical unit, `2000` for two. Rescaling multiplies by the
//! quotient of two scale factors and drops the fraction, as integer arithmetic
//! on the exact product, so no rounding error can build up.

use vstd::prelude::*;

verus! {

/// The scale factor of a display with one physical pixel per logical unit.
pub const SCALE_UNIT: u32 = 1000;

/// Two scale factors closer than this (a hundredth) count as the same scale.
pub const SCALE_FACTOR_EPSILON: u32 = 10;

/// Whether two scale factors differ by less than [`SCALE_FACTOR_EPSILON`].
pub open spec fn scales_match(a: u32, b: u32) -> bool {
    a - b < SCALE_FACTOR_EPSILON && b - a < SCALE_FACTOR_EPSILON
}

/// The quotient of `n` by a positive `d`, rounded toward zero.
pub open spec fn div_toward_zero(n: int, d: int) -> int
    recommends
        d > 0,
{
    if n >= 0 {
        n / d
    } else {
        -((-n) / d)
    }
}

/// `v * starting / target` with the fraction dropped, held within `lo..=hi`.
///
/// A zero `target` stands for an unbounded ratio: the result is then the bound
/// on the side of the product's sign, and zero where the product is zero.
pub open spec fn rescale_bounded(v: int, starting: u32, target: u32, lo: int, hi: int) -> int
    recommends
        lo <= 0 <= hi,
{
    let product = v * starting;
    if target == 0 {
        if product > 0 {
            hi
        } else if product < 0 {
            lo
        } else {
            0
        }
    } else {
        let q = div_toward_zero(product, target as int);
        if q < lo {
            lo
        } else if q > hi {
            hi
        } else {
            q
        }
    }
}

/// A coordinate carried from scale `starting` to scale `target`.
pub open spec fn rescale_coordinate(v: i32, starting: u32, target: u32) -> int {
    rescale_bounded(v as int, starting, target, i32::MIN as int, i32::MAX as int)
}

/// A length carried from scale `starting` to scale `target`.
pub open spec fn rescale_length(v: u32, starting: u32, target: u32) -> int {
    rescale_bounded(v as int, starting, target, 0, u32::MAX as int)
}

/// Between equal scales a value within the bounds stays as it is.
pub proof fn lemma_rescale_between_equal_scales(v: int, scale: u32, lo: int, hi: int)
    requires
        scale > 0,
        lo <= v <= hi,
    ensures
        rescale_bounded(v, scale, scale, lo, hi) == v,
{
    let d = scale as int;
    if v >= 0 {
        assert(v * scale == d * v && v * scale >= 0) by (nonlinear_arith)
            requires
                v >= 0,
                d == scale,
                d > 0,
        ;
        vstd::arithmetic::div_mod::lemma_div_multiples_vanish(v, d);
    } else {
        assert(-(v * scale) == d * (-v) && v * scale < 0) by (nonlinear_arith)
            requires
                v < 0,
                d == scale,
                d > 0,
        ;
        vstd::arithmetic::div_mod::lemma_div_multiples_vanish(-v, d);
    }
}

/// Carried toward a higher scale a length does not grow, and carried toward a
/// lower scale it does not shrink.
pub proof fn lemma_rescale_length_follows_scales(v: u32, starting: u32, target: u32)
    requires
        target > 0,
    ensures
        starting <= target ==> rescale_length(v, starting, target) <= v,
        starting >= target ==> rescale_length(v, starting, target) >= v,
{
    let d = target as int;
    let product = v * starting;
    assert(d * v == v * target && product >= 0) by (nonlinear_arith)
        requires
            d == target,
            product == v * starting,
            v >= 0,
            starting >= 0,
    ;
    vstd::arithmetic::div_mod::lemma_div_multiples_vanish(v as int, d);
    if starting <= target {
        assert(product <= d * v) by (nonlinear_arith)
            requires
                product == v * starting,
                d == target,
                starting <= target,
                v >= 0,
        ;
        vstd::arithmetic::div_mod::lemma_div_is_ordered(product, d * v, d);
        vstd::arithmetic::div_mod::lemma_div_pos_is_pos(product, d);
    }
    if starting >= target {
        assert(product >= d * v) by (nonlinear_arith)
            requires
                product == v * starting,
                d == target,
                starting >= target,
                v >= 0,
        ;
        vstd::arithmetic::div_mod::lemma_div_is_ordered(d * v, product, d);
    }
}

/// Tells whether two scale factors count as the same scale.
pub fn same_scale(a: u32, b: u32) -> (r: bool)
    ensures
        r == scales_match(a, b),
{
    if a >= b {
        a - b < SCALE_FACTOR_EPSILON
    } else {
        b - a < SCALE_FACTOR_EPSILON
    }
}

/// Multiplies a length by `starting / target` and drops the fraction.
pub fn scale_length(v: u32, starting: u32, target: u32) -> (r: u32)
    ensures
        r == rescale_length(v, starting, target),
{
    if target == 0 {
        assert(v * starting > 0 <==> (v > 0 && starting > 0)) by (nonlinear_arith)
            requires
                v >= 0,
                starting >= 0,
        ;
        if v > 0 && starting > 0 {
            u32::MAX
        } else {
            0
        }
    } else {
        assert(0 <= v * starting <= 0xffff_ffff * 0xffff_ffff) by (nonlinear_arith)
            requires
                0 <= v <= 0xffff_ffff,
                0 <= starting <= 0xffff_ffff,
        ;
        let product: u64 = (v as u64) * (starting as u64);
        let q: u64 = product / (target as u64);
        if q > u32::MAX as u64 {
            u32::MAX
        } else {
            q as u32
        }
    }
}

/// Multiplies a coordinate by `starting / target` and drops the fraction.
pub fn scale_coordinate(v: i32, starting: u32, target: u32) -> (r: i32)
    ensures
        r == rescale_coordinate(v, starting, target),
{
    let negative = v < 0;
    let magnitude: u64 = if negative {
        (-(v as i64)) as u64
    } else {
        v as u64
    };
    assert(0 <= magnitude * starting <= 0x8000_0000 * 0xffff_ffff) by (nonlinear_arith)
        requires
            0 <= magnitude <= 0x8000_0000,
            0 <= starting <= 0xffff_ffff,
    ;
    let product: u64 = magnitude * (starting as u64);
    assert(v * starting == if negative {
        -(product as int)
    } else {
        product as int
    }) by (nonlinear_arith)
        requires
            product == magnitude * starting,
            magnitude == if negative {
                -(v as int)
            } else {
                v as int
            },
    ;
    if target == 0 {
        if product == 0 {
            0
        } else if negative {
            i32::MIN
        } else {
            i32::MAX
        }
    } else {
        let q: u64 = product / (target as u64);
        if negative {
            if q >= 0x8000_0000 {
                i32::MIN
            } else {
                -(q as i32)
            }
        } else {
            if q > 0x7fff_ffff {
                i32::MAX
            } else {
                q as i32
            }
        }
    }
}

} // verus!
