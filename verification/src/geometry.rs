//! Integer 2D geometry: vectors, coordinate limits and the axis-aligned
//! overlap test used by the collision engine.
//!
//! The overlap test is the standard strict AABB test: two boxes centered at
//! their transforms overlap when they overlap on both axes simultaneously.
//! Working with doubled distances keeps the test exact in integers (no
//! halving of extents is needed).

use vstd::prelude::*;

use crate::UNITS_PER_PIXEL;

verus! {

/// Positions stay within this many world units of the origin.
pub const POS_LIMIT: i64 = 2_000_000_000;

/// Velocities stay within this many world units per tick.
pub const VEL_LIMIT: i64 = 100_000_000;

/// Hit-box extents and bounds offsets stay within this many world units.
pub const SIZE_LIMIT: i64 = 1_000_000_000;

/// Visual scale factors stay within this bound (thousandths; 1000 is 1.0).
pub const SCALE_LIMIT: i64 = 100_000;

/// A 2D vector over world units.
#[derive(Copy, Clone, Debug, PartialEq, Eq, Structural)]
pub struct Vec2i {
    pub x: i64,
    pub y: i64,
}

impl Vec2i {
    pub fn new(x: i64, y: i64) -> (v: Vec2i)
        ensures
            v.x == x && v.y == y,
    {
        Vec2i { x, y }
    }

    /// Both components within the position limit.
    pub open spec fn in_pos_range(self) -> bool {
        -POS_LIMIT <= self.x <= POS_LIMIT && -POS_LIMIT <= self.y <= POS_LIMIT
    }

    /// Both components within the velocity limit.
    pub open spec fn in_vel_range(self) -> bool {
        -VEL_LIMIT <= self.x <= VEL_LIMIT && -VEL_LIMIT <= self.y <= VEL_LIMIT
    }

    /// Both components non-negative and within the size limit.
    pub open spec fn in_size_range(self) -> bool {
        0 <= self.x <= SIZE_LIMIT && 0 <= self.y <= SIZE_LIMIT
    }
}

pub open spec fn spec_abs(v: int) -> int {
    if v < 0 {
        -v
    } else {
        v
    }
}

/// An extent multiplied by a visual scale factor, in world units.
pub open spec fn spec_scaled(extent: int, scale: int) -> int {
    extent * scale / (UNITS_PER_PIXEL as int)
}

/// Scales a hit-box extent by an entity's visual scale factor.
pub fn scaled_extent(extent: i64, scale: i64) -> (r: i64)
    requires
        0 <= extent <= SIZE_LIMIT,
        0 <= scale <= SCALE_LIMIT,
    ensures
        r == spec_scaled(extent as int, scale as int),
        0 <= r <= SIZE_LIMIT * SCALE_LIMIT / (UNITS_PER_PIXEL as int),
{
    proof {
        assert(0 <= extent * scale <= SIZE_LIMIT * SCALE_LIMIT) by (nonlinear_arith)
            requires
                0 <= extent <= SIZE_LIMIT,
                0 <= scale <= SCALE_LIMIT,
        ;
        assert(extent * scale / 1000 <= SIZE_LIMIT * SCALE_LIMIT / 1000) by (nonlinear_arith)
            requires
                0 <= extent * scale <= SIZE_LIMIT * SCALE_LIMIT,
        ;
    }
    extent * scale / UNITS_PER_PIXEL
}

/// Whether `r` is the integer square root of `n`.
pub open spec fn spec_is_isqrt(n: int, r: int) -> bool {
    0 <= r && r * r <= n < (r + 1) * (r + 1)
}

/// The integer square root, as a spec value; unique by
/// `lemma_isqrt_unique`.
pub open spec fn spec_isqrt(n: int) -> int {
    choose|r: int| spec_is_isqrt(n, r)
}

/// Two integer square roots of the same value coincide.
pub proof fn lemma_isqrt_unique(n: int, r1: int, r2: int)
    requires
        spec_is_isqrt(n, r1),
        spec_is_isqrt(n, r2),
    ensures
        r1 == r2,
{
    assert(r1 == r2) by (nonlinear_arith)
        requires
            0 <= r1 && r1 * r1 <= n < (r1 + 1) * (r1 + 1),
            0 <= r2 && r2 * r2 <= n < (r2 + 1) * (r2 + 1),
    ;
}

/// The integer square root, by binary search.
pub fn isqrt(n: u64) -> (r: u64)
    ensures
        spec_is_isqrt(n as int, r as int),
        r as int == spec_isqrt(n as int),
{
    let mut lo: u64 = 0;
    let mut hi: u64 = 4294967295;
    proof {
        assert((4294967295u64 as int + 1) * (4294967295u64 as int + 1) > u64::MAX as int)
            by (nonlinear_arith);
    }
    while lo < hi
        invariant
            lo <= hi <= 4294967295,
            lo * lo <= n,
            (hi + 1) * (hi + 1) > n,
        decreases hi - lo,
    {
        let mid = lo + (hi - lo + 1) / 2;
        proof {
            assert(mid * mid <= 4294967295u64 * 4294967295u64) by (nonlinear_arith)
                requires
                    0 <= mid <= 4294967295u64,
            ;
        }
        if mid * mid <= n {
            lo = mid;
        } else {
            hi = mid - 1;
        }
    }
    proof {
        assert(spec_is_isqrt(n as int, lo as int));
        let w = choose|r: int| spec_is_isqrt(n as int, r);
        lemma_isqrt_unique(n as int, lo as int, w);
    }
    lo
}

/// A value scaled by `num / den`, rounding the magnitude down and keeping
/// the sign.
pub open spec fn spec_scale(v: int, num: int, den: int) -> int {
    if v >= 0 {
        v * num / den
    } else {
        -((-v) * num / den)
    }
}

/// Scales `v` by `num / den`, truncating toward zero.
pub fn scale_magnitude(v: i64, num: i64, den: i64) -> (r: i64)
    requires
        0 < den,
        0 <= num,
        -1_000_000_000_000 <= v <= 1_000_000_000_000,
        num <= 1_000_000,
    ensures
        r == spec_scale(v as int, num as int, den as int),
        spec_abs(r as int) <= spec_abs(v as int) * (num as int) / (den as int),
{
    if v >= 0 {
        proof {
            assert(0 <= (v as int) * (num as int) <= 1_000_000_000_000_000_000)
                by (nonlinear_arith)
                requires
                    0 <= v <= 1_000_000_000_000,
                    0 <= num <= 1_000_000,
            ;
        }
        v * num / den
    } else {
        let m = -v;
        proof {
            assert(0 <= (m as int) * (num as int) <= 1_000_000_000_000_000_000)
                by (nonlinear_arith)
                requires
                    0 <= m <= 1_000_000_000_000,
                    0 <= num <= 1_000_000,
            ;
        }
        -(m * num / den)
    }
}

/// Whether two axis-aligned boxes, centered at `pa` and `pb` with full
/// extents `sa` and `sb`, overlap on both axes simultaneously (strict
/// inequality: boxes that merely touch do not overlap).
pub open spec fn spec_aabb_overlap(pa: Vec2i, sa: Vec2i, pb: Vec2i, sb: Vec2i) -> bool {
    &&& 2 * spec_abs(pa.x - pb.x) < sa.x + sb.x
    &&& 2 * spec_abs(pa.y - pb.y) < sa.y + sb.y
}

/// The strict AABB overlap test over box centers and full extents.
pub fn aabb_collide(pa: Vec2i, sa: Vec2i, pb: Vec2i, sb: Vec2i) -> (r: bool)
    requires
        pa.in_pos_range(),
        pb.in_pos_range(),
        0 <= sa.x && 0 <= sa.y && sa.x <= 100 * POS_LIMIT && sa.y <= 100 * POS_LIMIT,
        0 <= sb.x && 0 <= sb.y && sb.x <= 100 * POS_LIMIT && sb.y <= 100 * POS_LIMIT,
    ensures
        r == spec_aabb_overlap(pa, sa, pb, sb),
{
    let dx = if pa.x >= pb.x {
        pa.x - pb.x
    } else {
        pb.x - pa.x
    };
    let dy = if pa.y >= pb.y {
        pa.y - pb.y
    } else {
        pb.y - pa.y
    };
    2 * dx < sa.x + sb.x && 2 * dy < sa.y + sb.y
}

} // verus!
