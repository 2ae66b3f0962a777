//! Horizontal steering: acceleration toward a desired velocity, a hard clamp
//! at the maximum speed, and the stopping factor applied when no movement is
//! wanted. Shared by the player controller and the zombie controller.

use vstd::prelude::*;

use crate::fixp::{div_trunc, sat, sat_add, scale, scale_i64, sqrt_ceil, SCALE_MAX, SIM_LIMIT};
use crate::physics::RigidBody;
use crate::vec3::{in_range, Vec3};

verus! {

/// Squared horizontal speed of a velocity.
pub open spec fn horiz_mag_sq(v: Vec3) -> int {
    (v.x as int) * (v.x as int) + (v.z as int) * (v.z as int)
}

/// Velocity after clamping its horizontal part to `speed`: if the
/// horizontal speed exceeds the limit, the horizontal part is rescaled by
/// `speed` over the ceiling square root of its squared magnitude. Rounding
/// the divisor up makes the resulting speed provably at most `speed`
/// (`lemma_clamp_caps_speed`).
pub open spec fn clamp_horiz_spec(v: Vec3, speed: int) -> Vec3 {
    if horiz_mag_sq(v) > speed * speed {
        let d = sqrt_ceil(horiz_mag_sq(v));
        Vec3 {
            x: div_trunc(v.x as int * speed, d) as i64,
            y: v.y,
            z: div_trunc(v.z as int * speed, d) as i64,
        }
    } else {
        v
    }
}

/// Law: the clamped horizontal speed never exceeds the cap.
pub proof fn lemma_clamp_caps_speed(v: Vec3, speed: int)
    requires
        in_range(v),
        0 <= speed <= SCALE_MAX,
    ensures
        horiz_mag_sq(clamp_horiz_spec(v, speed)) <= speed * speed,
        in_range(clamp_horiz_spec(v, speed)),
{
    let hs = horiz_mag_sq(v);
    assert((v.x as int) * (v.x as int) >= 0 && (v.z as int) * (v.z as int) >= 0)
        by (nonlinear_arith);
    if hs > speed * speed {
        assert(speed * speed >= 0) by (nonlinear_arith);
        crate::fixp::lemma_sqrt_ceil_props(hs);
        let d = sqrt_ceil(hs);
        assert(speed < d) by (nonlinear_arith)
            requires
                hs <= d * d,
                speed * speed < hs,
                0 <= d,
                0 <= speed,
        ;
        let ax = (v.x as int) * speed;
        let az = (v.z as int) * speed;
        let cx = div_trunc(ax, d);
        let cz = div_trunc(az, d);
        crate::fixp::lemma_div_trunc_mul_bound(ax, d);
        crate::fixp::lemma_div_trunc_mul_bound(az, d);
        let m = (SIM_LIMIT as int) * speed;
        assert(-m <= ax <= m && -m <= az <= m && 0 <= m) by (nonlinear_arith)
            requires
                m == (SIM_LIMIT as int) * speed,
                ax == (v.x as int) * speed,
                az == (v.z as int) * speed,
                -SIM_LIMIT <= v.x as int <= SIM_LIMIT,
                -SIM_LIMIT <= v.z as int <= SIM_LIMIT,
                0 <= speed,
        ;
        crate::fixp::lemma_div_trunc_bounds(ax, d, m);
        crate::fixp::lemma_div_trunc_bounds(az, d, m);
        assert(m <= (SIM_LIMIT as int) * d) by (nonlinear_arith)
            requires
                m == (SIM_LIMIT as int) * speed,
                speed <= d,
        ;
        vstd::arithmetic::div_mod::lemma_div_is_ordered(m, (SIM_LIMIT as int) * d, d);
        assert((SIM_LIMIT as int) * d == d * (SIM_LIMIT as int)) by (nonlinear_arith);
        vstd::arithmetic::div_mod::lemma_div_multiples_vanish(SIM_LIMIT as int, d);
        assert(-SIM_LIMIT <= cx <= SIM_LIMIT && -SIM_LIMIT <= cz <= SIM_LIMIT);
        assert(cx * cx * (d * d) <= ax * ax) by (nonlinear_arith)
            requires
                (ax >= 0 && 0 <= cx * d <= ax) || (ax < 0 && ax <= cx * d <= 0),
        ;
        assert(cz * cz * (d * d) <= az * az) by (nonlinear_arith)
            requires
                (az >= 0 && 0 <= cz * d <= az) || (az < 0 && az <= cz * d <= 0),
        ;
        assert(ax * ax + az * az == hs * (speed * speed)) by (nonlinear_arith)
            requires
                ax == (v.x as int) * speed,
                az == (v.z as int) * speed,
                hs == (v.x as int) * (v.x as int) + (v.z as int) * (v.z as int),
        ;
        assert(hs * (speed * speed) <= (d * d) * (speed * speed)) by (nonlinear_arith)
            requires
                hs <= d * d,
                speed * speed >= 0,
        ;
        assert(cx * cx + cz * cz <= speed * speed) by (nonlinear_arith)
            requires
                cx * cx * (d * d) + cz * cz * (d * d) <= (d * d) * (speed * speed),
                d >= 1,
        ;
    }
}

/// Velocity after one steering pass toward the milli-unit direction `dir`:
/// the horizontal velocity moves toward `dir * speed` by the per-mille
/// factor `factor` (an acceleration times the tick length), then is clamped
/// to `speed`. The vertical component is untouched.
pub open spec fn steer_spec(v: Vec3, dir: Vec3, speed: int, factor: int) -> Vec3 {
    let tx = scale(dir.x as int, speed);
    let tz = scale(dir.z as int, speed);
    let dx = scale(tx - v.x, factor);
    let dz = scale(tz - v.z, factor);
    clamp_horiz_spec(Vec3 { x: sat(v.x + dx) as i64, y: v.y, z: sat(v.z + dz) as i64 }, speed)
}

/// Velocity after the stopping factor: both horizontal components keep only
/// `stop` per-mille of their value.
pub open spec fn stop_spec(v: Vec3, stop: int) -> Vec3 {
    Vec3 { x: scale(v.x as int, stop) as i64, y: v.y, z: scale(v.z as int, stop) as i64 }
}

/// Steers a body's horizontal velocity toward `dir * speed`.
pub fn steer_horizontal(body: &mut RigidBody, dir: Vec3, speed: i64, factor: i64)
    requires
        old(body).wf(),
        -1000 <= dir.x <= 1000,
        -1000 <= dir.y <= 1000,
        -1000 <= dir.z <= 1000,
        0 <= speed <= SCALE_MAX,
        0 <= factor <= SCALE_MAX,
    ensures
        final(body).velocity == steer_spec(old(body).velocity, dir, speed as int, factor as int),
        *final(body) == (RigidBody { velocity: final(body).velocity, ..*old(body) }),
        final(body).wf(),
        horiz_mag_sq(final(body).velocity) <= speed * speed,
{
    proof {
        assert(-(1000 * (speed as int)) <= (dir.x as int) * (speed as int) <= 1000 * (speed as int)
            && -(1000 * (speed as int)) <= (dir.z as int) * (speed as int) <= 1000 * (
            speed as int)) by (nonlinear_arith)
            requires
                -1000 <= dir.x as int <= 1000,
                -1000 <= dir.z as int <= 1000,
                0 <= speed as int,
        ;
        crate::fixp::lemma_div_trunc_bounds(
            (dir.x as int) * (speed as int),
            1000,
            1000 * (speed as int),
        );
        crate::fixp::lemma_div_trunc_bounds(
            (dir.z as int) * (speed as int),
            1000,
            1000 * (speed as int),
        );
        vstd::arithmetic::div_mod::lemma_div_multiples_vanish(speed as int, 1000);
    }
    let tx: i64 = scale_i64(dir.x, speed);
    let tz: i64 = scale_i64(dir.z, speed);
    let dxd: i64 = tx - body.velocity.x;
    let dzd: i64 = tz - body.velocity.z;
    proof {
        let m = 2 * (SIM_LIMIT as int) * (SCALE_MAX as int);
        assert(-m <= (dxd as int) * (factor as int) <= m && -m <= (dzd as int) * (factor as int)
            <= m) by (nonlinear_arith)
            requires
                m == 2 * (SIM_LIMIT as int) * (SCALE_MAX as int),
                -2 * (SIM_LIMIT as int) <= dxd as int <= 2 * (SIM_LIMIT as int),
                -2 * (SIM_LIMIT as int) <= dzd as int <= 2 * (SIM_LIMIT as int),
                0 <= factor as int <= SCALE_MAX as int,
        ;
        crate::fixp::lemma_div_trunc_bounds((dxd as int) * (factor as int), 1000, m);
        crate::fixp::lemma_div_trunc_bounds((dzd as int) * (factor as int), 1000, m);
    }
    let dx: i64 = scale_i64(dxd, factor);
    let dz: i64 = scale_i64(dzd, factor);
    body.velocity.x = sat_add(body.velocity.x, dx);
    body.velocity.z = sat_add(body.velocity.z, dz);
    clamp_horizontal(body, speed);
}

/// Clamps a body's horizontal speed to at most `speed`.
pub fn clamp_horizontal(body: &mut RigidBody, speed: i64)
    requires
        old(body).wf(),
        0 <= speed <= SCALE_MAX,
    ensures
        final(body).velocity == clamp_horiz_spec(old(body).velocity, speed as int),
        *final(body) == (RigidBody { velocity: final(body).velocity, ..*old(body) }),
        final(body).wf(),
        horiz_mag_sq(final(body).velocity) <= speed * speed,
{
    proof {
        assert(0 <= (speed as int) * (speed as int) <= (SCALE_MAX as int) * (SCALE_MAX as int))
            by (nonlinear_arith)
            requires
                0 <= speed as int <= SCALE_MAX as int,
        ;
        lemma_clamp_caps_speed(old(body).velocity, speed as int);
    }
    let h = Vec3 { x: body.velocity.x, y: 0, z: body.velocity.z };
    let hs: u128 = h.mag_sq();
    if hs > (speed as u128) * (speed as u128) {
        let f: u64 = crate::fixp::isqrt(hs);
        proof {
            vstd::arithmetic::mul::lemma_mul_upper_bound(
                f as int,
                crate::fixp::ISQRT_OUT_BOUND as int,
                f as int,
                crate::fixp::ISQRT_OUT_BOUND as int,
            );
        }
        let exact: bool = (f as u128) * (f as u128) == hs;
        let d64: u64 = if exact {
            f
        } else {
            f + 1
        };
        proof {
            assert(d64 as int == sqrt_ceil(hs as int));
            crate::fixp::lemma_sqrt_ceil_props(hs as int);
            assert(speed < d64) by (nonlinear_arith)
                requires
                    hs as int <= (d64 as int) * (d64 as int),
                    (speed as int) * (speed as int) < hs as int,
                    0 <= d64 as int,
                    0 <= speed as int,
            ;
            let mx = i64::MAX as int;
            assert(-(mx * (d64 as int)) <= (body.velocity.x as int) * (speed as int) <= mx * (
            d64 as int) && -(mx * (d64 as int)) <= (body.velocity.z as int) * (speed as int) <= mx
                * (d64 as int)) by (nonlinear_arith)
                requires
                    mx == i64::MAX as int,
                    -SIM_LIMIT <= body.velocity.x as int <= SIM_LIMIT,
                    -SIM_LIMIT <= body.velocity.z as int <= SIM_LIMIT,
                    (SIM_LIMIT as int) < mx,
                    0 <= speed as int,
                    (speed as int) < d64 as int,
            ;
            let m = (SIM_LIMIT as int) * (speed as int);
            assert(-m <= (body.velocity.x as int) * (speed as int) <= m && -m <= (
            body.velocity.z as int) * (speed as int) <= m && 0 <= m && m <= (SIM_LIMIT as int) * (
            d64 as int)) by (nonlinear_arith)
                requires
                    m == (SIM_LIMIT as int) * (speed as int),
                    -SIM_LIMIT <= body.velocity.x as int <= SIM_LIMIT,
                    -SIM_LIMIT <= body.velocity.z as int <= SIM_LIMIT,
                    0 <= speed as int,
                    (speed as int) <= d64 as int,
            ;
            crate::fixp::lemma_div_trunc_bounds(
                (body.velocity.x as int) * (speed as int),
                d64 as int,
                m,
            );
            crate::fixp::lemma_div_trunc_bounds(
                (body.velocity.z as int) * (speed as int),
                d64 as int,
                m,
            );
            vstd::arithmetic::div_mod::lemma_div_is_ordered(
                m,
                (SIM_LIMIT as int) * (d64 as int),
                d64 as int,
            );
            assert((SIM_LIMIT as int) * (d64 as int) == (d64 as int) * (SIM_LIMIT as int))
                by (nonlinear_arith);
            vstd::arithmetic::div_mod::lemma_div_multiples_vanish(SIM_LIMIT as int, d64 as int);
        }
        let db: i64 = d64 as i64;
        let cx: i64 = crate::fixp::div_trunc_rel(
            (body.velocity.x as i128) * (speed as i128),
            db,
        );
        let cz: i64 = crate::fixp::div_trunc_rel(
            (body.velocity.z as i128) * (speed as i128),
            db,
        );
        body.velocity.x = cx;
        body.velocity.z = cz;
    }
}

/// Applies the stopping factor to a body's horizontal velocity.
pub fn apply_stopping(body: &mut RigidBody, stop: i64)
    requires
        old(body).wf(),
        0 <= stop <= 1000,
    ensures
        final(body).velocity == stop_spec(old(body).velocity, stop as int),
        *final(body) == (RigidBody { velocity: final(body).velocity, ..*old(body) }),
        final(body).wf(),
{
    proof {
        crate::fixp::lemma_scale_shrinks(body.velocity.x as int, stop as int);
        crate::fixp::lemma_scale_shrinks(body.velocity.z as int, stop as int);
    }
    body.velocity.x = scale_i64(body.velocity.x, stop);
    body.velocity.z = scale_i64(body.velocity.z, stop);
}

} // verus!
