use vstd::prelude::*;

verus! {

/// Steps per viewport unit: a coordinate of `UNIT` is one unit of the viewport,
/// and a factor of `UNIT` is the factor one.
pub const UNIT: i64 = 1_000_000;

/// Largest magnitude of a coordinate, speed or boundary that a tick accepts
/// (2^42 steps, about four million viewport units).
pub const COORD_LIMIT: i64 = 4_398_046_511_104;

/// Largest number of boids that a tick accepts.
pub const MAX_BOIDS: usize = 65_536;

/// Bound on a coordinate once the separation rule has nudged it: room for
/// `COORD_LIMIT` plus a push from every other boid of a full flock (2^60 steps).
pub const NUDGED_LIMIT: i64 = 1_152_921_504_606_846_976;

/// A point or vector in the plane, in fixed-point steps.
#[derive(Clone, Copy, Debug, PartialEq, Eq, Structural)]
pub struct Vec2 {
    pub x: i64,
    pub y: i64,
}

impl Vec2 {
    /// Both components lie within `limit` of zero.
    pub open spec fn bounded_by(self, limit: int) -> bool {
        -limit <= self.x <= limit && -limit <= self.y <= limit
    }
}

/// `v * factor / UNIT`, rounded toward zero.
pub open spec fn scaled(v: int, factor: int) -> int {
    let p = v * factor;
    if p >= 0 {
        p / (UNIT as int)
    } else {
        -((-p) / (UNIT as int))
    }
}

/// The magnitude of `scaled(v, factor)` is at most that of `v` when the factor
/// lies in `[-UNIT, UNIT]`.
pub proof fn lemma_scaled_shrinks(v: int, factor: int)
    requires
        -UNIT <= factor <= UNIT,
    ensures
        -(if v >= 0 { v } else { -v }) <= scaled(v, factor) <= (if v >= 0 { v } else { -v }),
{
    let m = if v >= 0 { v } else { -v };
    let f = if factor >= 0 { factor } else { -factor };
    let u = UNIT as int;
    assert(v * factor == m * f || v * factor == -(m * f)) by (nonlinear_arith)
        requires
            m == (if v >= 0 { v } else { -v }),
            f == (if factor >= 0 { factor } else { -factor }),
    ;
    assert(0 <= (m * f) / u <= m) by (nonlinear_arith)
        requires
            0 <= m,
            0 <= f <= u,
            u > 0,
    ;
    let p = v * factor;
    if p >= 0 {
        if p != m * f {
            assert(p == 0);
        }
        assert(scaled(v, factor) == (m * f) / u);
    } else {
        assert(-p == m * f);
        assert(scaled(v, factor) == -((m * f) / u));
    }
}

/// Multiplies `v` by the fixed-point `factor`, rounding toward zero.
pub fn scale_by(v: i64, factor: i64) -> (r: i64)
    requires
        -i64::MAX <= v,
        -UNIT <= factor <= UNIT,
    ensures
        r == scaled(v as int, factor as int),
{
    proof {
        lemma_scaled_shrinks(v as int, factor as int);
    }
    let p: i128 = (v as i128) * (factor as i128);
    if p >= 0 {
        let q: u128 = (p as u128) / (UNIT as u128);
        assert(q == scaled(v as int, factor as int));
        q as i64
    } else {
        let q: u128 = ((-p) as u128) / (UNIT as u128);
        assert(q == -scaled(v as int, factor as int));
        -(q as i64)
    }
}

} // verus!
