//! Fixed-point vector helpers for the fire-control routines: component
//! subtraction, scaling, and normalization to a micro-unit direction vector
//! via an exact integer square root.

use vstd::prelude::*;
use crate::projectile::Vec3Fx;

verus! {

/// The unique non-negative integer square root: `r * r <= n < (r + 1) * (r + 1)`.
pub open spec fn spec_isqrt(n: int) -> int {
    choose|r: int| 0 <= r && #[trigger] (r * r) <= n && (r + 1) * (r + 1) > n
}

/// Any two non-negative integers whose squares bracket `n` the same way are
/// equal: the square root in `spec_isqrt` is well defined.
pub proof fn lemma_isqrt_unique(n: int, a: int, b: int)
    requires
        0 <= a,
        0 <= b,
        a * a <= n,
        (a + 1) * (a + 1) > n,
        b * b <= n,
        (b + 1) * (b + 1) > n,
    ensures
        a == b,
{
    assert(a == b) by (nonlinear_arith)
        requires
            0 <= a,
            0 <= b,
            a * a <= n,
            (a + 1) * (a + 1) > n,
            b * b <= n,
            (b + 1) * (b + 1) > n,
    ;
}

/// Exact integer square root by bisection.
pub fn isqrt(n: u64) -> (r: u64)
    ensures
        r as int * r as int <= n as int,
        (r as int + 1) * (r as int + 1) > n as int,
        r == spec_isqrt(n as int),
{
    let mut lo: u64 = 0;
    let mut hi: u64 = 4_294_967_296;
    proof {
        assert(hi as int * hi as int > n as int) by (nonlinear_arith)
            requires
                hi == 4_294_967_296u64,
                n <= u64::MAX,
        ;
    }
    while lo + 1 < hi
        invariant
            0 <= lo < hi <= 4_294_967_296,
            lo as int * lo as int <= n as int,
            hi as int * hi as int > n as int,
        decreases hi - lo,
    {
        let mid = lo + (hi - lo) / 2;
        proof {
            assert(0 <= mid as int * mid as int <= 18_446_744_073_709_551_616) by (nonlinear_arith)
                requires
                    0 <= mid <= 4_294_967_296u64,
            ;
        }
        if (mid as u128) * (mid as u128) <= n as u128 {
            lo = mid;
        } else {
            hi = mid;
        }
    }
    proof {
        lemma_isqrt_unique(n as int, lo as int, spec_isqrt(n as int));
    }
    lo
}

/// Truncating scaled division `v * num / den`, rounded toward zero as the
/// hardware division is.
pub open spec fn spec_muldiv_trunc(v: int, num: int, den: int) -> int {
    if v >= 0 {
        v * num / den
    } else {
        -((-v) * num / den)
    }
}

/// Exact executable form of `spec_muldiv_trunc`.
pub fn muldiv_trunc(v: i64, num: i64, den: i64) -> (r: i64)
    requires
        -2_000_000_000_000 <= v <= 2_000_000_000_000,
        0 < num <= 1_000_000,
        0 < den,
    ensures
        r == spec_muldiv_trunc(v as int, num as int, den as int),
{
    proof {
        assert(v >= 0 ==> 0 <= v * num <= 2_000_000_000_000_000_000) by (nonlinear_arith)
            requires
                -2_000_000_000_000 <= v <= 2_000_000_000_000,
                0 < num <= 1_000_000,
        ;
        assert(v < 0 ==> 0 <= (-v) * num <= 2_000_000_000_000_000_000) by (nonlinear_arith)
            requires
                -2_000_000_000_000 <= v <= 2_000_000_000_000,
                0 < num <= 1_000_000,
        ;
    }
    if v >= 0 {
        proof {
            vstd::arithmetic::div_mod::lemma_div_pos_is_pos(v as int * num as int, den as int);
            vstd::arithmetic::div_mod::lemma_div_is_ordered_by_denominator(
                v as int * num as int,
                1,
                den as int,
            );
        }
        v * num / den
    } else {
        proof {
            vstd::arithmetic::div_mod::lemma_div_pos_is_pos((-v) as int * num as int, den as int);
            vstd::arithmetic::div_mod::lemma_div_is_ordered_by_denominator(
                (-v) as int * num as int,
                1,
                den as int,
            );
        }
        -((-v) * num / den)
    }
}

/// Component subtraction `a - b`.
pub open spec fn spec_sub(a: Vec3Fx, b: Vec3Fx) -> Vec3Fx {
    Vec3Fx { x: (a.x - b.x) as i64, y: (a.y - b.y) as i64, z: (a.z - b.z) as i64 }
}

pub fn sub(a: Vec3Fx, b: Vec3Fx) -> (r: Vec3Fx)
    requires
        -1_000_000_000 <= a.x <= 1_000_000_000,
        -1_000_000_000 <= a.y <= 1_000_000_000,
        -1_000_000_000 <= a.z <= 1_000_000_000,
        -1_000_000_000 <= b.x <= 1_000_000_000,
        -1_000_000_000 <= b.y <= 1_000_000_000,
        -1_000_000_000 <= b.z <= 1_000_000_000,
    ensures
        r == spec_sub(a, b),
        -2_000_000_000 <= r.x <= 2_000_000_000,
        -2_000_000_000 <= r.y <= 2_000_000_000,
        -2_000_000_000 <= r.z <= 2_000_000_000,
{
    Vec3Fx { x: a.x - b.x, y: a.y - b.y, z: a.z - b.z }
}

/// Componentwise scaling by an integer factor.
pub open spec fn spec_scale(v: Vec3Fx, k: int) -> Vec3Fx {
    Vec3Fx { x: (v.x * k) as i64, y: (v.y * k) as i64, z: (v.z * k) as i64 }
}

pub fn scale(v: Vec3Fx, k: i64) -> (r: Vec3Fx)
    requires
        0 < k <= 1_000,
        -2_000_000_000 <= v.x <= 2_000_000_000,
        -2_000_000_000 <= v.y <= 2_000_000_000,
        -2_000_000_000 <= v.z <= 2_000_000_000,
    ensures
        r == spec_scale(v, k as int),
{
    proof {
        assert(-2_000_000_000_000 <= v.x * k <= 2_000_000_000_000 && -2_000_000_000_000 <= v.y * k
            <= 2_000_000_000_000 && -2_000_000_000_000 <= v.z * k <= 2_000_000_000_000)
            by (nonlinear_arith)
            requires
                0 < k <= 1_000,
                -2_000_000_000 <= v.x <= 2_000_000_000,
                -2_000_000_000 <= v.y <= 2_000_000_000,
                -2_000_000_000 <= v.z <= 2_000_000_000,
        ;
    }
    Vec3Fx { x: v.x * k, y: v.y * k, z: v.z * k }
}

/// Squared Euclidean length.
pub open spec fn spec_len_sq(v: Vec3Fx) -> int {
    v.x * v.x + v.y * v.y + v.z * v.z
}

/// The micro-unit direction vector of `v`: each component is
/// `c * 1_000_000 / |v|` with the exact integer length `spec_isqrt` and
/// truncating division.
pub open spec fn spec_normalized(v: Vec3Fx) -> Vec3Fx {
    let m = spec_isqrt(spec_len_sq(v));
    Vec3Fx {
        x: spec_muldiv_trunc(v.x as int, 1_000_000, m) as i64,
        y: spec_muldiv_trunc(v.y as int, 1_000_000, m) as i64,
        z: spec_muldiv_trunc(v.z as int, 1_000_000, m) as i64,
    }
}

/// Normalize a non-zero fixed-point vector to a micro-unit direction.
/// Every component of the result lies within one unit, `[-1_000_000, 1_000_000]`.
pub fn normalized(v: Vec3Fx) -> (r: Vec3Fx)
    requires
        -2_000_000_000 <= v.x <= 2_000_000_000,
        -2_000_000_000 <= v.y <= 2_000_000_000,
        -2_000_000_000 <= v.z <= 2_000_000_000,
        v != Vec3Fx::spec_zero(),
    ensures
        r == spec_normalized(v),
        -1_000_000 <= r.x <= 1_000_000,
        -1_000_000 <= r.y <= 1_000_000,
        -1_000_000 <= r.z <= 1_000_000,
{
    proof {
        assert(0 <= v.x * v.x <= 4_000_000_000_000_000_000 && 0 <= v.y * v.y
            <= 4_000_000_000_000_000_000 && 0 <= v.z * v.z <= 4_000_000_000_000_000_000 && 0
            < spec_len_sq(v)) by (nonlinear_arith)
            requires
                -2_000_000_000 <= v.x <= 2_000_000_000,
                -2_000_000_000 <= v.y <= 2_000_000_000,
                -2_000_000_000 <= v.z <= 2_000_000_000,
                v != (Vec3Fx { x: 0, y: 0, z: 0 }),
        ;
    }
    let xx = (v.x * v.x) as u64;
    let yy = (v.y * v.y) as u64;
    let zz = (v.z * v.z) as u64;
    let s: u64 = xx + yy + zz;
    let m64 = isqrt(s);
    proof {
        assert(m64 >= 1) by {
            if m64 == 0 {
                assert((m64 as int + 1) * (m64 as int + 1) == 1);
            }
        }
        assert(m64 <= 4_000_000_000) by {
            assert(4_000_000_001i64 as int * 4_000_000_001i64 as int > s as int)
                by (nonlinear_arith)
                requires
                    s <= 12_000_000_000_000_000_000u64,
            ;
            if m64 as int > 4_000_000_000 {
                assert(m64 as int * m64 as int >= 4_000_000_001 * 4_000_000_001)
                    by (nonlinear_arith)
                    requires
                        m64 as int >= 4_000_000_001,
                ;
            }
        }
    }
    let m = m64 as i64;
    let rx = muldiv_trunc(v.x, 1_000_000, m);
    let ry = muldiv_trunc(v.y, 1_000_000, m);
    let rz = muldiv_trunc(v.z, 1_000_000, m);
    proof {
        lemma_component_unit(v.x as int, m as int, s as int);
        lemma_component_unit(v.y as int, m as int, s as int);
        lemma_component_unit(v.z as int, m as int, s as int);
    }
    Vec3Fx { x: rx, y: ry, z: rz }
}

/// A component of a vector is no longer than the vector: the normalized
/// component stays within one micro-unit of length.
proof fn lemma_component_unit(c: int, m: int, s: int)
    requires
        1 <= m,
        c * c <= s,
        (m + 1) * (m + 1) > s,
    ensures
        -1_000_000 <= spec_muldiv_trunc(c, 1_000_000, m) <= 1_000_000,
{
    assert(-m <= c <= m) by (nonlinear_arith)
        requires
            1 <= m,
            c * c <= s,
            (m + 1) * (m + 1) > s,
    ;
    if c >= 0 {
        assert(c * 1_000_000 <= m * 1_000_000) by (nonlinear_arith)
            requires
                c <= m,
        ;
        vstd::arithmetic::div_mod::lemma_div_pos_is_pos(c * 1_000_000, m);
        vstd::arithmetic::div_mod::lemma_div_is_ordered(c * 1_000_000, m * 1_000_000, m);
        vstd::arithmetic::div_mod::lemma_div_by_multiple(1_000_000, m);
        assert(m * 1_000_000 == 1_000_000 * m);
    } else {
        assert((-c) * 1_000_000 <= m * 1_000_000) by (nonlinear_arith)
            requires
                -c <= m,
        ;
        vstd::arithmetic::div_mod::lemma_div_pos_is_pos((-c) * 1_000_000, m);
        vstd::arithmetic::div_mod::lemma_div_is_ordered((-c) * 1_000_000, m * 1_000_000, m);
        vstd::arithmetic::div_mod::lemma_div_by_multiple(1_000_000, m);
        assert(m * 1_000_000 == 1_000_000 * m);
    }
}

} // verus!
