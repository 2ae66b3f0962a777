//! Three-component fixed-point vectors: positions, velocities and directions.
//!
//! Components are milli-units kept within `[-SIM_LIMIT, SIM_LIMIT]`
//! (`in_range`); sums and differences saturate there, so every operation is
//! total and closed over the simulation range.

use vstd::prelude::*;

use crate::fixp::{
    div_trunc, isqrt, sat, sat_add, scale, scale_i64, sqrt_floor, ISQRT_IN_BOUND, SCALE_MAX,
    SIM_LIMIT,
};

verus! {

/// A point or direction in the arena, in milli-units per component.
#[derive(Clone, Copy, Debug, PartialEq, Eq, Structural)]
pub struct Vec3 {
    pub x: i64,
    pub y: i64,
    pub z: i64,
}

/// Every component lies within the simulation range.
pub open spec fn in_range(v: Vec3) -> bool {
    &&& -SIM_LIMIT <= v.x <= SIM_LIMIT
    &&& -SIM_LIMIT <= v.y <= SIM_LIMIT
    &&& -SIM_LIMIT <= v.z <= SIM_LIMIT
}

/// Squared Euclidean magnitude, exact over the integers.
pub open spec fn mag_sq_spec(v: Vec3) -> int {
    (v.x as int) * (v.x as int) + (v.y as int) * (v.y as int) + (v.z as int) * (v.z as int)
}

/// Componentwise saturating sum.
pub open spec fn add_spec(a: Vec3, b: Vec3) -> Vec3 {
    Vec3 { x: sat(a.x + b.x) as i64, y: sat(a.y + b.y) as i64, z: sat(a.z + b.z) as i64 }
}

/// Componentwise saturating difference.
pub open spec fn sub_spec(a: Vec3, b: Vec3) -> Vec3 {
    Vec3 { x: sat(a.x - b.x) as i64, y: sat(a.y - b.y) as i64, z: sat(a.z - b.z) as i64 }
}

/// Componentwise fixed-point scaling by a per-mille factor.
pub open spec fn scale_spec(v: Vec3, f: int) -> Vec3 {
    Vec3 {
        x: scale(v.x as int, f) as i64,
        y: scale(v.y as int, f) as i64,
        z: scale(v.z as int, f) as i64,
    }
}

/// The direction of `v` as a milli-unit vector: each component is
/// `v_i * 1000 / |v|`, with `|v|` the floor square root of the squared
/// magnitude.
pub open spec fn normalized_spec(v: Vec3) -> Vec3 {
    let d = sqrt_floor(mag_sq_spec(v));
    Vec3 {
        x: div_trunc(v.x as int * 1000, d) as i64,
        y: div_trunc(v.y as int * 1000, d) as i64,
        z: div_trunc(v.z as int * 1000, d) as i64,
    }
}

/// Dot product scaled down by one thousand, truncated toward zero; used with
/// one milli-unit (direction) operand so the result stays in velocity units.
pub open spec fn dot_milli_spec(a: Vec3, b: Vec3) -> int {
    div_trunc(
        (a.x as int) * (b.x as int) + (a.y as int) * (b.y as int) + (a.z as int) * (b.z as int),
        1000,
    )
}

impl Vec3 {
    /// The origin / null vector.
    pub fn zero() -> (r: Vec3)
        ensures
            r == (Vec3 { x: 0, y: 0, z: 0 }),
    {
        Vec3 { x: 0, y: 0, z: 0 }
    }

    /// Builds a vector from components already in range.
    pub fn new(x: i64, y: i64, z: i64) -> (r: Vec3)
        requires
            -SIM_LIMIT <= x <= SIM_LIMIT,
            -SIM_LIMIT <= y <= SIM_LIMIT,
            -SIM_LIMIT <= z <= SIM_LIMIT,
        ensures
            r == (Vec3 { x, y, z }),
            in_range(r),
    {
        Vec3 { x, y, z }
    }

    /// Saturating vector sum.
    pub fn add(self, o: Vec3) -> (r: Vec3)
        requires
            in_range(self),
            in_range(o),
        ensures
            r == add_spec(self, o),
            in_range(r),
    {
        Vec3 {
            x: sat_add(self.x, o.x),
            y: sat_add(self.y, o.y),
            z: sat_add(self.z, o.z),
        }
    }

    /// Saturating vector difference.
    pub fn sub(self, o: Vec3) -> (r: Vec3)
        requires
            in_range(self),
            in_range(o),
        ensures
            r == sub_spec(self, o),
            in_range(r),
    {
        Vec3 {
            x: sat_add(self.x, -o.x),
            y: sat_add(self.y, -o.y),
            z: sat_add(self.z, -o.z),
        }
    }

    /// Scales every component by the per-mille factor `f`.
    pub fn scale(self, f: i64) -> (r: Vec3)
        requires
            in_range(self),
            0 <= f <= SCALE_MAX,
        ensures
            r == scale_spec(self, f as int),
            f <= 1000 ==> in_range(r),
            (-1000 <= self.x <= 1000 && -1000 <= self.y <= 1000 && -1000 <= self.z <= 1000) ==> (
            -f <= r.x <= f && -f <= r.y <= f && -f <= r.z <= f && in_range(r)),
    {
        proof {
            if f <= 1000 {
                crate::fixp::lemma_scale_shrinks(self.x as int, f as int);
                crate::fixp::lemma_scale_shrinks(self.y as int, f as int);
                crate::fixp::lemma_scale_shrinks(self.z as int, f as int);
            }
            if -1000 <= self.x <= 1000 && -1000 <= self.y <= 1000 && -1000 <= self.z <= 1000 {
                assert(-(1000 * (f as int)) <= (self.x as int) * (f as int) <= 1000 * (f as int)
                    && -(1000 * (f as int)) <= (self.y as int) * (f as int) <= 1000 * (f as int)
                    && -(1000 * (f as int)) <= (self.z as int) * (f as int) <= 1000 * (f as int))
                    by (nonlinear_arith)
                    requires
                        -1000 <= self.x as int <= 1000,
                        -1000 <= self.y as int <= 1000,
                        -1000 <= self.z as int <= 1000,
                        0 <= f as int,
                ;
                crate::fixp::lemma_div_trunc_bounds(
                    (self.x as int) * (f as int),
                    1000,
                    1000 * (f as int),
                );
                crate::fixp::lemma_div_trunc_bounds(
                    (self.y as int) * (f as int),
                    1000,
                    1000 * (f as int),
                );
                crate::fixp::lemma_div_trunc_bounds(
                    (self.z as int) * (f as int),
                    1000,
                    1000 * (f as int),
                );
                vstd::arithmetic::div_mod::lemma_div_multiples_vanish(f as int, 1000);
            }
        }
        Vec3 {
            x: scale_i64(self.x, f),
            y: scale_i64(self.y, f),
            z: scale_i64(self.z, f),
        }
    }

    /// Squared magnitude; always below the square-root input bound.
    pub fn mag_sq(self) -> (r: u128)
        requires
            in_range(self),
        ensures
            r as int == mag_sq_spec(self),
            r < ISQRT_IN_BOUND,
    {
        proof {
            assert((self.x as int) * (self.x as int) <= (SIM_LIMIT as int) * (SIM_LIMIT as int)
                && (self.x as int) * (self.x as int) >= 0) by (nonlinear_arith)
                requires
                    -SIM_LIMIT <= self.x <= SIM_LIMIT,
            ;
            assert((self.y as int) * (self.y as int) <= (SIM_LIMIT as int) * (SIM_LIMIT as int)
                && (self.y as int) * (self.y as int) >= 0) by (nonlinear_arith)
                requires
                    -SIM_LIMIT <= self.y <= SIM_LIMIT,
            ;
            assert((self.z as int) * (self.z as int) <= (SIM_LIMIT as int) * (SIM_LIMIT as int)
                && (self.z as int) * (self.z as int) >= 0) by (nonlinear_arith)
                requires
                    -SIM_LIMIT <= self.z <= SIM_LIMIT,
            ;
            assert(3 * (SIM_LIMIT as int) * (SIM_LIMIT as int) < ISQRT_IN_BOUND as int);
        }
        let xs: i128 = (self.x as i128) * (self.x as i128);
        let ys: i128 = (self.y as i128) * (self.y as i128);
        let zs: i128 = (self.z as i128) * (self.z as i128);
        (xs + ys + zs) as u128
    }

    /// Floor of the Euclidean magnitude, in milli-units.
    pub fn norm(self) -> (r: u64)
        requires
            in_range(self),
        ensures
            r == sqrt_floor(mag_sq_spec(self)),
            (r as int) * (r as int) <= mag_sq_spec(self) < (r as int + 1) * (r as int + 1),
            r < crate::fixp::ISQRT_OUT_BOUND,
    {
        isqrt(self.mag_sq())
    }

    /// Direction of a nonzero vector as a milli-unit vector; every component
    /// lies in `[-1000, 1000]`.
    pub fn normalized_milli(self) -> (r: Vec3)
        requires
            in_range(self),
            self.x != 0 || self.y != 0 || self.z != 0,
        ensures
            r == normalized_spec(self),
            -1000 <= r.x <= 1000,
            -1000 <= r.y <= 1000,
            -1000 <= r.z <= 1000,
            in_range(r),
    {
        proof {
            assert((self.x as int) * (self.x as int) >= 0
                && (self.y as int) * (self.y as int) >= 0
                && (self.z as int) * (self.z as int) >= 0
                && ((self.x != 0) ==> (self.x as int) * (self.x as int) >= 1)
                && ((self.y != 0) ==> (self.y as int) * (self.y as int) >= 1)
                && ((self.z != 0) ==> (self.z as int) * (self.z as int) >= 1))
                by (nonlinear_arith);
        }
        let d: u64 = self.norm();
        proof {
            if d == 0 {
                assert(mag_sq_spec(self) < (0 + 1) * (0 + 1));
            }
        }
        let db: i64 = d as i64;
        proof {
            let m = mag_sq_spec(self);
            let di = d as int;
            crate::fixp::lemma_abs_le_of_sq_lt((self.x as int), di);
            crate::fixp::lemma_abs_le_of_sq_lt((self.y as int), di);
            crate::fixp::lemma_abs_le_of_sq_lt((self.z as int), di);
            assert(-(di * 1000) <= (self.x as int) * 1000 <= di * 1000) by (nonlinear_arith)
                requires
                    -di <= self.x as int <= di,
            ;
            assert(-(di * 1000) <= (self.y as int) * 1000 <= di * 1000) by (nonlinear_arith)
                requires
                    -di <= self.y as int <= di,
            ;
            assert(-(di * 1000) <= (self.z as int) * 1000 <= di * 1000) by (nonlinear_arith)
                requires
                    -di <= self.z as int <= di,
            ;
            crate::fixp::lemma_div_trunc_bounds((self.x as int) * 1000, di, di * 1000);
            crate::fixp::lemma_div_trunc_bounds((self.y as int) * 1000, di, di * 1000);
            crate::fixp::lemma_div_trunc_bounds((self.z as int) * 1000, di, di * 1000);
            vstd::arithmetic::div_mod::lemma_div_multiples_vanish(1000, di);
        }
        Vec3 {
            x: crate::fixp::div_trunc_i128((self.x as i128) * 1000, db),
            y: crate::fixp::div_trunc_i128((self.y as i128) * 1000, db),
            z: crate::fixp::div_trunc_i128((self.z as i128) * 1000, db),
        }
    }

    /// Dot product with a milli-unit direction vector, scaled back down to
    /// plain units.
    pub fn dot_milli(self, dir: Vec3) -> (r: i64)
        requires
            in_range(self),
            -1000 <= dir.x <= 1000,
            -1000 <= dir.y <= 1000,
            -1000 <= dir.z <= 1000,
        ensures
            r == dot_milli_spec(self, dir),
            -3 * SIM_LIMIT <= r <= 3 * SIM_LIMIT,
    {
        proof {
            let lim = (SIM_LIMIT as int) * 1000;
            assert(-lim <= (self.x as int) * (dir.x as int) <= lim) by (nonlinear_arith)
                requires
                    lim == (SIM_LIMIT as int) * 1000,
                    -SIM_LIMIT <= self.x <= SIM_LIMIT,
                    -1000 <= dir.x <= 1000,
            ;
            assert(-lim <= (self.y as int) * (dir.y as int) <= lim) by (nonlinear_arith)
                requires
                    lim == (SIM_LIMIT as int) * 1000,
                    -SIM_LIMIT <= self.y <= SIM_LIMIT,
                    -1000 <= dir.y <= 1000,
            ;
            assert(-lim <= (self.z as int) * (dir.z as int) <= lim) by (nonlinear_arith)
                requires
                    lim == (SIM_LIMIT as int) * 1000,
                    -SIM_LIMIT <= self.z <= SIM_LIMIT,
                    -1000 <= dir.z <= 1000,
            ;
        }
        let px: i128 = (self.x as i128) * (dir.x as i128);
        let py: i128 = (self.y as i128) * (dir.y as i128);
        let pz: i128 = (self.z as i128) * (dir.z as i128);
        let s: i128 = px + py + pz;
        proof {
            crate::fixp::lemma_div_trunc_bounds(s as int, 1000, 3 * (SIM_LIMIT as int) * 1000);
        }
        crate::fixp::div_trunc_i128(s, 1000)
    }
}

} // verus!
