//! Fixed-point scalars.
//!
//! Every length, speed and distance of the simulation is an exact integer
//! count of *units*; one block edge is [`UNITS_PER_BLOCK`] units long. The
//! tolerances of the collision code are whole numbers of units, so that all
//! comparisons are exact and every result is reproducible.
//!
//! Contracts are written over `int`; the executable helpers compute the same
//! values on machine integers and state when the result is representable.
use vstd::prelude::*;

verus! {

/// Units in one block edge: a unit is a billionth of a block.
pub const UNITS_PER_BLOCK: i64 = 1_000_000_000;

/// A displacement whose magnitude is below this many units (1e-7 blocks)
/// is snapped to zero after a clamp.
pub const EPSILON: i64 = 100;

/// A movement whose squared length is below this many square units
/// (1e-7 square blocks) is negligible and never clamped.
pub const NEGLIGIBLE_SQUARED: u128 = 100_000_000_000;

/// A horizontal direction whose squared length is below this many square
/// units (1e-5 square blocks) is degenerate and cannot be normalised.
pub const DEGENERATE_SQUARED: u128 = 10_000_000_000_000;

/// Largest magnitude of a coordinate or of a movement component for which
/// the collision code is free of overflow.
pub const COORD_LIMIT: i64 = 3_000_000_000_000_000_000;

/// `v` lies in `[-bound, bound]`.
pub open spec fn within(v: int, bound: int) -> bool {
    -bound <= v <= bound
}

/// `v` can be held by an `i64`.
pub open spec fn representable(v: int) -> bool {
    i64::MIN <= v <= i64::MAX
}

/// The magnitude of `v`.
pub open spec fn magnitude(v: int) -> int {
    if v < 0 {
        -v
    } else {
        v
    }
}

/// The smaller of two integers.
pub open spec fn lesser(a: int, b: int) -> int {
    if a <= b {
        a
    } else {
        b
    }
}

/// The larger of two integers.
pub open spec fn greater(a: int, b: int) -> int {
    if a >= b {
        a
    } else {
        b
    }
}

/// Tolerance policy: a value strictly inside `(-EPSILON, EPSILON)` becomes
/// exactly zero, any other value is kept.
pub open spec fn snap(v: int) -> int {
    if -EPSILON < v < EPSILON {
        0
    } else {
        v
    }
}

/// `a / b` rounded toward zero, for a positive divisor.
pub open spec fn quotient_toward_zero(a: int, b: int) -> int
    recommends
        b > 0,
{
    if a >= 0 {
        a / b
    } else {
        -((-a) / b)
    }
}

/// The fixed-point product of two scalars: their exact product, brought
/// back to units and rounded toward zero.
pub open spec fn product(a: int, b: int) -> int {
    quotient_toward_zero(a * b, UNITS_PER_BLOCK as int)
}

/// The fixed-point quotient `a / b` of two scalars, rounded toward zero, for
/// a positive divisor.
pub open spec fn ratio(a: int, b: int) -> int
    recommends
        b > 0,
{
    quotient_toward_zero(a * UNITS_PER_BLOCK, b)
}

/// Half of `v`, rounded toward zero.
pub open spec fn half(v: int) -> int {
    quotient_toward_zero(v, 2)
}

/// The largest whole number of blocks that is not above `v` units.
pub open spec fn floor_blocks(v: int) -> int {
    v / (UNITS_PER_BLOCK as int)
}

/// The smallest whole number of blocks that is not below `v` units.
pub open spec fn ceil_blocks(v: int) -> int {
    -((-v) / (UNITS_PER_BLOCK as int))
}

/// `v` limited to the range of an `i32`.
pub open spec fn saturate_i32(v: int) -> int {
    if v < i32::MIN {
        i32::MIN as int
    } else if v > i32::MAX {
        i32::MAX as int
    } else {
        v
    }
}

/// `r` is the integer square root of `n`: the largest `r` with `r * r <= n`.
pub open spec fn is_floor_sqrt(n: int, r: int) -> bool {
    0 <= r && r * r <= n < (r + 1) * (r + 1)
}

/// The integer square root of `n`, for `n >= 0`.
pub open spec fn floor_sqrt(n: int) -> int {
    choose|r: int| is_floor_sqrt(n, r)
}

/// A number has at most one integer square root.
pub proof fn lemma_floor_sqrt_unique(n: int, r: int, s: int)
    requires
        is_floor_sqrt(n, r),
        is_floor_sqrt(n, s),
    ensures
        r == s,
{
    if r < s {
        assert((r + 1) * (r + 1) <= s * s) by (nonlinear_arith)
            requires
                0 <= r,
                r + 1 <= s,
        ;
    } else if s < r {
        assert((s + 1) * (s + 1) <= r * r) by (nonlinear_arith)
            requires
                0 <= s,
                s + 1 <= r,
        ;
    }
}

/// Every number from zero on has an integer square root.
pub proof fn lemma_floor_sqrt_exists(n: int)
    requires
        n >= 0,
    ensures
        is_floor_sqrt(n, floor_sqrt(n)),
    decreases n,
{
    if n == 0 {
        assert(is_floor_sqrt(0, 0));
    } else {
        lemma_floor_sqrt_exists(n - 1);
        let r = floor_sqrt(n - 1);
        if n < (r + 1) * (r + 1) {
            assert(is_floor_sqrt(n, r));
        } else {
            assert((r + 1) * (r + 1) < (r + 2) * (r + 2)) by (nonlinear_arith)
                requires
                    r >= 0,
            ;
            assert(is_floor_sqrt(n, r + 1));
        }
    }
}

/// Whatever satisfies the definition is the integer square root.
pub proof fn lemma_floor_sqrt_is(n: int, r: int)
    requires
        is_floor_sqrt(n, r),
    ensures
        floor_sqrt(n) == r,
{
    lemma_floor_sqrt_unique(n, r, floor_sqrt(n));
}

/// Scaling by a factor between zero and one never lengthens: the product
/// lies between zero and the scaled value.
pub proof fn lemma_product_shrinks(a: int, k: int)
    requires
        0 <= k <= UNITS_PER_BLOCK,
    ensures
        a >= 0 ==> 0 <= product(a, k) <= a,
        a <= 0 ==> a <= product(a, k) <= 0,
{
    let s = UNITS_PER_BLOCK as int;
    if a >= 0 {
        assert(0 <= a * k <= a * s) by (nonlinear_arith)
            requires
                0 <= a,
                0 <= k <= s,
        ;
        assert((a * s) / s == a) by (nonlinear_arith)
            requires
                s > 0,
        ;
        assert((a * k) / s <= (a * s) / s) by (nonlinear_arith)
            requires
                a * k <= a * s,
                s > 0,
        ;
        assert(0 <= (a * k) / s) by (nonlinear_arith)
            requires
                0 <= a * k,
                s > 0,
        ;
    } else {
        let b = -a;
        assert(a * k == -(b * k)) by (nonlinear_arith)
            requires
                b == -a,
        ;
        assert(0 <= b * k <= b * s) by (nonlinear_arith)
            requires
                0 <= b,
                0 <= k <= s,
        ;
        assert((b * s) / s == b) by (nonlinear_arith)
            requires
                s > 0,
        ;
        assert((b * k) / s <= (b * s) / s) by (nonlinear_arith)
            requires
                b * k <= b * s,
                s > 0,
        ;
        assert(0 <= (b * k) / s) by (nonlinear_arith)
            requires
                0 <= b * k,
                s > 0,
        ;
    }
}

/// Bounds the exact product of two 64-bit values.
pub proof fn lemma_product_bound(a: int, b: int)
    requires
        -0x8000_0000_0000_0000 <= a <= 0x8000_0000_0000_0000,
        -0x8000_0000_0000_0000 <= b <= 0x8000_0000_0000_0000,
    ensures
        -0x4000_0000_0000_0000_0000_0000_0000_0000 <= a * b
            <= 0x4000_0000_0000_0000_0000_0000_0000_0000,
{
    assert(-0x4000_0000_0000_0000_0000_0000_0000_0000 <= a * b
        <= 0x4000_0000_0000_0000_0000_0000_0000_0000) by (nonlinear_arith)
        requires
            -0x8000_0000_0000_0000 <= a <= 0x8000_0000_0000_0000,
            -0x8000_0000_0000_0000 <= b <= 0x8000_0000_0000_0000,
    ;
}

/// The magnitude of `v`, which always fits in a `u64`.
pub fn magnitude_of(v: i64) -> (m: u64)
    ensures
        m == magnitude(v as int),
{
    if v == i64::MIN {
        0x8000_0000_0000_0000u64
    } else if v < 0 {
        (-v) as u64
    } else {
        v as u64
    }
}

/// The square of `v`, exactly.
pub fn square_of(v: i64) -> (s: u128)
    ensures
        s == (v as int) * (v as int),
        s <= 0x4000_0000_0000_0000_0000_0000_0000_0000,
{
    let m: u64 = magnitude_of(v);
    proof {
        lemma_product_bound(m as int, m as int);
        assert((m as int) * (m as int) == (v as int) * (v as int)) by (nonlinear_arith)
            requires
                m as int == v as int || m as int == -(v as int),
        ;
    }
    (m as u128) * (m as u128)
}

/// Applies the tolerance policy to `v`.
pub fn snap_to_zero(v: i64) -> (r: i64)
    ensures
        r == snap(v as int),
{
    if -EPSILON < v && v < EPSILON {
        0
    } else {
        v
    }
}

/// The fixed-point product of `a` and `b`, or `None` when it cannot be held.
pub fn checked_product(a: i64, b: i64) -> (r: Option<i64>)
    ensures
        representable(product(a as int, b as int)) ==> r == Some(product(a as int, b as int) as i64),
        !representable(product(a as int, b as int)) ==> r.is_none(),
{
    proof {
        lemma_product_bound(a as int, b as int);
    }
    let wide: i128 = (a as i128) * (b as i128);
    let q: i128 = wide / (UNITS_PER_BLOCK as i128);
    if q < i64::MIN as i128 || q > i64::MAX as i128 {
        None
    } else {
        Some(q as i64)
    }
}

/// The fixed-point product of `a` and `b`.
pub fn scaled_product(a: i64, b: i64) -> (r: i64)
    requires
        representable(product(a as int, b as int)),
    ensures
        r == product(a as int, b as int),
{
    proof {
        lemma_product_bound(a as int, b as int);
    }
    let wide: i128 = (a as i128) * (b as i128);
    (wide / (UNITS_PER_BLOCK as i128)) as i64
}

/// The integer square root of `n`.
pub fn floor_sqrt_of(n: u128) -> (r: u64)
    ensures
        r == floor_sqrt(n as int),
        is_floor_sqrt(n as int, r as int),
{
    let mut lo: u128 = 0;
    let mut hi: u128 = 0x1_0000_0000_0000_0000;
    assert(hi * hi > n) by (nonlinear_arith)
        requires
            hi == 0x1_0000_0000_0000_0000,
            n <= 0xffff_ffff_ffff_ffff_ffff_ffff_ffff_ffff,
    ;
    while hi - lo > 1
        invariant
            lo < hi <= 0x1_0000_0000_0000_0000,
            lo * lo <= n < hi * hi,
        decreases hi - lo,
    {
        let mid: u128 = lo + (hi - lo) / 2;
        assert(mid * mid <= 0xffff_ffff_ffff_ffff * 0xffff_ffff_ffff_ffff) by (nonlinear_arith)
            requires
                0 <= mid <= 0xffff_ffff_ffff_ffff,
        ;
        if mid * mid <= n {
            lo = mid;
        } else {
            hi = mid;
        }
    }
    proof {
        lemma_floor_sqrt_is(n as int, lo as int);
    }
    lo as u64
}

/// The fixed-point quotient of `a` by a divisor `b` that is at least as
/// large in magnitude; the result lies between minus one and one.
pub fn unit_ratio(a: i64, b: u64) -> (r: i64)
    requires
        b > 0,
        magnitude(a as int) <= b,
    ensures
        r == ratio(a as int, b as int),
        within(r as int, UNITS_PER_BLOCK as int),
{
    let s = UNITS_PER_BLOCK as i128;
    proof {
        lemma_product_bound(a as int, UNITS_PER_BLOCK as int);
        let m = magnitude(a as int);
        assert(0 <= m * UNITS_PER_BLOCK <= b * UNITS_PER_BLOCK) by (nonlinear_arith)
            requires
                0 <= m <= b,
        ;
        assert((m * UNITS_PER_BLOCK) / (b as int) <= UNITS_PER_BLOCK) by (nonlinear_arith)
            requires
                0 <= m * UNITS_PER_BLOCK <= b * UNITS_PER_BLOCK,
                b > 0,
        ;
        assert(0 <= (m * UNITS_PER_BLOCK) / (b as int)) by (nonlinear_arith)
            requires
                0 <= m * UNITS_PER_BLOCK,
                b > 0,
        ;
        if a < 0 {
            assert(-(a * UNITS_PER_BLOCK) == m * UNITS_PER_BLOCK) by (nonlinear_arith)
                requires
                    m == -a,
            ;
        }
    }
    let q: i128 = ((a as i128) * s) / (b as i128);
    q as i64
}

/// The smallest whole number of blocks that is not below `v` units.
pub fn ceil_to_blocks(v: i64) -> (c: i64)
    ensures
        c == ceil_blocks(v as int),
{
    let q: i64 = v / UNITS_PER_BLOCK;
    let r: i64 = v % UNITS_PER_BLOCK;
    if r > 0 {
        q + 1
    } else {
        q
    }
}

/// The largest whole number of blocks that is not above `v` units.
pub fn floor_to_blocks(v: i64) -> (f: i64)
    ensures
        f == floor_blocks(v as int),
{
    let q: i64 = v / UNITS_PER_BLOCK;
    let r: i64 = v % UNITS_PER_BLOCK;
    if r < 0 {
        q - 1
    } else {
        q
    }
}

/// Half of `v`, rounded toward zero.
pub fn half_of(v: i64) -> (r: i64)
    ensures
        r == half(v as int),
{
    v / 2
}

/// The block coordinate at or below `v` units, limited to the `i32` range.
pub fn block_floor(v: i64) -> (b: i32)
    ensures
        b == saturate_i32(floor_blocks(v as int)),
{
    let q: i64 = v / UNITS_PER_BLOCK;
    let r: i64 = v % UNITS_PER_BLOCK;
    let f: i64 = if r < 0 {
        q - 1
    } else {
        q
    };
    if f < i32::MIN as i64 {
        i32::MIN
    } else if f > i32::MAX as i64 {
        i32::MAX
    } else {
        f as i32
    }
}

/// The block coordinate at or above `v` units, limited to the `i32` range.
pub fn block_ceil(v: i64) -> (b: i32)
    ensures
        b == saturate_i32(ceil_blocks(v as int)),
{
    let q: i64 = v / UNITS_PER_BLOCK;
    let r: i64 = v % UNITS_PER_BLOCK;
    let c: i64 = if r > 0 {
        q + 1
    } else {
        q
    };
    if c < i32::MIN as i64 {
        i32::MIN
    } else if c > i32::MAX as i64 {
        i32::MAX
    } else {
        c as i32
    }
}

} // verus!
