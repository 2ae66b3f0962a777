//! Entity-entity collision resolution: layer filtering, overlap detection,
//! mass-weighted pairwise separation, and a damped impulse response.
//!
//! Two overlapping bodies are pushed apart along the line of centres so that
//! their displacements sum to the full overlap, each body moving in
//! proportion to the *other* body's share of the combined mass. When the
//! pair is closing, an impulse scaled by the configured damping is applied
//! along the same line, split by the same mass fractions. Kinematic bodies
//! never take part.

use vstd::prelude::*;

use crate::fixp::{sat_add, scale, scale_i64, scale_i64_signed, sqrt_floor, SIM_LIMIT};
use crate::physics::{layer_bit, Collider, RigidBody, ARENA_HALF};
use crate::vec3::{
    add_spec, dot_milli_spec, in_range, mag_sq_spec, normalized_spec, scale_spec, sub_spec, Vec3,
};

verus! {

/// Two colliders interact only when each one's mask contains the other's
/// layer bit (the mask check is required in both directions).
pub open spec fn layers_interact_spec(a: Collider, b: Collider) -> bool {
    &&& a.collision_mask & layer_bit(b.collision_layer) != 0
    &&& b.collision_mask & layer_bit(a.collision_layer) != 0
}

/// Tests whether two colliders are allowed to interact.
pub fn layers_interact(a: &Collider, b: &Collider) -> (r: bool)
    ensures
        r == layers_interact_spec(*a, *b),
{
    let ab = a.collision_mask & b.collision_layer.mask();
    let ba = b.collision_mask & a.collision_layer.mask();
    ab != 0 && ba != 0
}

/// Per-mille share of the combined mass that belongs to the opposing body.
pub open spec fn mass_frac(m_other: int, total: int) -> int {
    m_other * 1000 / total
}

/// How an overlap is split into two displacements: the first body moves by
/// the overlap scaled by the other body's mass fraction, the second body by
/// the exact remainder, so the two always sum to the whole overlap.
pub open spec fn sep_amounts(overlap: int, ma: int, mb: int) -> (int, int) {
    let da = scale(overlap, mass_frac(mb, ma + mb));
    (da, overlap - da)
}

/// Positions and bodies of an unordered pair after one resolution pass.
/// Pairs that are kinematic, coincident or not overlapping are untouched.
pub open spec fn pair_step(
    pa: Vec3,
    ba: RigidBody,
    pb: Vec3,
    bb: RigidBody,
    ra: int,
    rb: int,
    damping: int,
) -> (Vec3, RigidBody, Vec3, RigidBody) {
    let delta = sub_spec(pa, pb);
    let dist = sqrt_floor(mag_sq_spec(delta));
    let combined = ra + rb;
    if ba.is_kinematic || bb.is_kinematic || dist <= 0 || dist > combined {
        (pa, ba, pb, bb)
    } else {
        let n = normalized_spec(delta);
        let (da, db) = sep_amounts(combined - dist, ba.mass as int, bb.mass as int);
        let pa2 = add_spec(pa, scale_spec(n, da));
        let pb2 = sub_spec(pb, scale_spec(n, db));
        let frac_a = mass_frac(bb.mass as int, ba.mass as int + bb.mass as int);
        let frac_b = mass_frac(ba.mass as int, ba.mass as int + bb.mass as int);
        let j_raw = dot_milli_spec(sub_spec(ba.velocity, bb.velocity), n);
        if j_raw > 0 {
            let j = scale(j_raw, damping);
            let imp = scale_spec(n, j);
            let va2 = sub_spec(ba.velocity, scale_spec(imp, frac_a));
            let vb2 = add_spec(bb.velocity, scale_spec(imp, frac_b));
            (pa2, RigidBody { velocity: va2, ..ba }, pb2, RigidBody { velocity: vb2, ..bb })
        } else {
            (pa2, ba, pb2, bb)
        }
    }
}

/// Resolves one unordered pair of overlapping bodies: pushes them apart
/// along the connecting normal, the two displacements summing to the full
/// overlap and each weighted by the other body's mass fraction, then applies
/// a damped impulse if the pair is closing.
pub fn resolve_pair(
    pos_a: &mut Vec3,
    body_a: &mut RigidBody,
    pos_b: &mut Vec3,
    body_b: &mut RigidBody,
    radius_a: i64,
    radius_b: i64,
    damping: i64,
)
    requires
        in_range(*old(pos_a)),
        in_range(*old(pos_b)),
        old(body_a).wf(),
        old(body_b).wf(),
        1 <= radius_a <= ARENA_HALF,
        1 <= radius_b <= ARENA_HALF,
        0 <= damping <= 1000,
    ensures
        (*final(pos_a), *final(body_a), *final(pos_b), *final(body_b)) == pair_step(
            *old(pos_a),
            *old(body_a),
            *old(pos_b),
            *old(body_b),
            radius_a as int,
            radius_b as int,
            damping as int,
        ),
        in_range(*final(pos_a)),
        in_range(*final(pos_b)),
        final(body_a).wf(),
        final(body_b).wf(),
        final(body_a).mass == old(body_a).mass,
        final(body_b).mass == old(body_b).mass,
{
    if body_a.is_kinematic || body_b.is_kinematic {
        return ;
    }
    let delta = pos_a.sub(*pos_b);
    let dist: u64 = delta.norm();
    let combined: i64 = radius_a + radius_b;
    if dist == 0 || dist > combined as u64 {
        return ;
    }
    proof {
        if delta == (Vec3 { x: 0, y: 0, z: 0 }) {
            assert(mag_sq_spec(delta) == 0);
            assert((dist as int) * (dist as int) >= 1) by (nonlinear_arith)
                requires
                    dist as int >= 1,
            ;
        }
    }
    let n = delta.normalized_milli();
    let overlap: i64 = combined - (dist as i64);
    let total: i64 = body_a.mass + body_b.mass;
    let frac_a: i64 = mass_frac_exec(body_b.mass, total);
    let frac_b: i64 = mass_frac_exec(body_a.mass, total);
    proof {
        crate::fixp::lemma_scale_shrinks(overlap as int, mass_frac(
            body_b.mass as int,
            total as int,
        ));
    }
    let disp_a: i64 = scale_i64(overlap, frac_a);
    let disp_b: i64 = overlap - disp_a;
    let push_a = n.scale(disp_a);
    let push_b = n.scale(disp_b);
    *pos_a = pos_a.add(push_a);
    *pos_b = pos_b.sub(push_b);
    let rel = body_a.velocity.sub(body_b.velocity);
    let j_raw: i64 = rel.dot_milli(n);
    if j_raw > 0 {
        proof {
            crate::fixp::lemma_scale_shrinks(j_raw as int, damping as int);
        }
        let j: i64 = scale_i64(j_raw, damping);
        let imp = impulse_vector(j, n);
        proof {
            crate::fixp::lemma_scale_shrinks(imp.x as int, frac_a as int);
            crate::fixp::lemma_scale_shrinks(imp.y as int, frac_a as int);
            crate::fixp::lemma_scale_shrinks(imp.z as int, frac_a as int);
            crate::fixp::lemma_scale_shrinks(imp.x as int, frac_b as int);
            crate::fixp::lemma_scale_shrinks(imp.y as int, frac_b as int);
            crate::fixp::lemma_scale_shrinks(imp.z as int, frac_b as int);
        }
        body_a.velocity.x = sat_add(body_a.velocity.x, -scale_i64(imp.x, frac_a));
        body_a.velocity.y = sat_add(body_a.velocity.y, -scale_i64(imp.y, frac_a));
        body_a.velocity.z = sat_add(body_a.velocity.z, -scale_i64(imp.z, frac_a));
        body_b.velocity.x = sat_add(body_b.velocity.x, scale_i64(imp.x, frac_b));
        body_b.velocity.y = sat_add(body_b.velocity.y, scale_i64(imp.y, frac_b));
        body_b.velocity.z = sat_add(body_b.velocity.z, scale_i64(imp.z, frac_b));
    }
}

/// Per-mille mass fraction `m_other * 1000 / total`, always within
/// `[0, 1000]`.
fn mass_frac_exec(m_other: i64, total: i64) -> (r: i64)
    requires
        1 <= m_other <= SIM_LIMIT,
        m_other <= total <= 2 * SIM_LIMIT,
    ensures
        r == mass_frac(m_other as int, total as int),
        0 <= r <= 1000,
{
    let prod: u128 = (m_other as u128) * 1000;
    let q: u128 = prod / (total as u128);
    proof {
        assert((m_other as int) * 1000 <= (total as int) * 1000) by (nonlinear_arith)
            requires
                m_other as int <= total as int,
        ;
        vstd::arithmetic::div_mod::lemma_div_is_ordered(
            (m_other as int) * 1000,
            (total as int) * 1000,
            total as int,
        );
        vstd::arithmetic::div_mod::lemma_div_multiples_vanish(1000, total as int);
        vstd::arithmetic::div_mod::lemma_div_pos_is_pos((m_other as int) * 1000, total as int);
    }
    q as i64
}

/// Law: pairwise separation is symmetric in the masses and exhaustive in
/// the overlap. The two displacement magnitudes always sum to the full
/// overlap, and two equal-mass bodies with an even overlap are each
/// displaced by exactly half of it.
pub proof fn lemma_separation_splits_overlap(overlap: int, ma: int, mb: int)
    requires
        0 <= overlap,
        1 <= ma,
        1 <= mb,
    ensures
        sep_amounts(overlap, ma, mb).0 + sep_amounts(overlap, ma, mb).1 == overlap,
        ma == mb && overlap % 2 == 0 ==> sep_amounts(overlap, ma, mb).0 == overlap / 2
            && sep_amounts(overlap, ma, mb).1 == overlap / 2,
{
    if ma == mb && overlap % 2 == 0 {
        assert(mb * 1000 == (ma + mb) * 500) by (nonlinear_arith)
            requires
                ma == mb,
        ;
        vstd::arithmetic::div_mod::lemma_div_multiples_vanish(500, ma + mb);
        assert((ma + mb) * 500 == 500 * (ma + mb)) by (nonlinear_arith);
        assert(mass_frac(mb, ma + mb) == 500);
        let k = overlap / 2;
        vstd::arithmetic::div_mod::lemma_fundamental_div_mod(overlap, 2);
        assert(overlap == 2 * k);
        assert(overlap * 500 == 1000 * k) by (nonlinear_arith)
            requires
                overlap == 2 * k,
        ;
        vstd::arithmetic::div_mod::lemma_div_multiples_vanish(k, 1000);
        vstd::arithmetic::div_mod::lemma_div_pos_is_pos(overlap * 500, 1000);
        assert(scale(overlap, 500) == k);
    }
}

/// The impulse vector `n * j / 1000` for a milli-unit direction `n`.
fn impulse_vector(j: i64, n: Vec3) -> (r: Vec3)
    requires
        0 <= j <= 3 * SIM_LIMIT,
        -1000 <= n.x <= 1000,
        -1000 <= n.y <= 1000,
        -1000 <= n.z <= 1000,
    ensures
        r == scale_spec(n, j as int),
        -j <= r.x <= j,
        -j <= r.y <= j,
        -j <= r.z <= j,
{
    proof {
        assert((j as int) * (n.x as int) == (n.x as int) * (j as int)
            && (j as int) * (n.y as int) == (n.y as int) * (j as int)
            && (j as int) * (n.z as int) == (n.z as int) * (j as int)) by (nonlinear_arith);
        assert(-((j as int) * 1000) <= (n.x as int) * (j as int) <= (j as int) * 1000
            && -((j as int) * 1000) <= (n.y as int) * (j as int) <= (j as int) * 1000
            && -((j as int) * 1000) <= (n.z as int) * (j as int) <= (j as int) * 1000)
            by (nonlinear_arith)
            requires
                0 <= j as int,
                -1000 <= n.x as int <= 1000,
                -1000 <= n.y as int <= 1000,
                -1000 <= n.z as int <= 1000,
        ;
        crate::fixp::lemma_div_trunc_bounds((n.x as int) * (j as int), 1000, (j as int) * 1000);
        crate::fixp::lemma_div_trunc_bounds((n.y as int) * (j as int), 1000, (j as int) * 1000);
        crate::fixp::lemma_div_trunc_bounds((n.z as int) * (j as int), 1000, (j as int) * 1000);
        vstd::arithmetic::div_mod::lemma_div_multiples_vanish(j as int, 1000);
    }
    Vec3 {
        x: scale_i64_signed(j, n.x),
        y: scale_i64_signed(j, n.y),
        z: scale_i64_signed(j, n.z),
    }
}

} // verus!
