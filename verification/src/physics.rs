//! Rigid bodies, sphere colliders, ground detection and the per-tick
//! integration pipeline: gravity, velocity integration with drag and an
//! anti-jitter floor, ground friction, and arena-bound clamping with
//! restitution.

use vstd::prelude::*;

use crate::fixp::{sat, sat_add, scale, scale_i64, SIM_LIMIT};
use crate::vec3::{add_spec, in_range, mag_sq_spec, scale_spec, Vec3};

verus! {

/// Half-extent of the square arena, in milli-units (24 world units).
pub const ARENA_HALF: i64 = 24_000;

/// Extra reach of the ground probe below a collider (0.1 units).
pub const GROUND_EPS: i64 = 100;

/// Squared speed below which a velocity is snapped to zero (0.01 units/s).
pub const JITTER_FLOOR_SQ: u64 = 100;

/// Longest tick accepted by the integrator, in milliseconds.
pub const MAX_DT_MS: u64 = 1000;

/// Tunable constants of the physics pipeline.
#[derive(Clone, Copy, Debug, PartialEq, Eq)]
pub struct PhysicsSettings {
    /// Vertical acceleration in milli-units per second squared (negative is
    /// downward).
    pub gravity: i64,
    /// Height of the ground plane used by the ground detector.
    pub ground_level: i64,
    /// Upward velocity granted by a jump, milli-units per second.
    pub jump_force: i64,
    /// Milliseconds between two melee hits from the same contact.
    pub player_damage_cooldown: u64,
    /// Per-mille scale of the collision impulse.
    pub collision_damping: i64,
}

impl PhysicsSettings {
    /// Validity of a settings record.
    pub open spec fn wf(self) -> bool {
        &&& -SIM_LIMIT <= self.gravity <= SIM_LIMIT
        &&& -SIM_LIMIT <= self.ground_level <= SIM_LIMIT
        &&& 0 <= self.jump_force <= SIM_LIMIT
        &&& 0 <= self.collision_damping <= 1000
    }
}

impl Default for PhysicsSettings {
    /// Stock tuning: gravity -30 units/s², ground at zero, 15 units/s jumps,
    /// a one-second melee cooldown and half-strength impulses.
    fn default() -> (r: PhysicsSettings)
        ensures
            r == (PhysicsSettings {
                gravity: -30_000i64,
                ground_level: 0i64,
                jump_force: 15_000i64,
                player_damage_cooldown: 1000u64,
                collision_damping: 500i64,
            }),
            r.wf(),
    {
        PhysicsSettings {
            gravity: -30_000,
            ground_level: 0,
            jump_force: 15_000,
            player_damage_cooldown: 1000,
            collision_damping: 500,
        }
    }
}

/// Simulated physical state of one entity.
#[derive(Clone, Copy, Debug, PartialEq, Eq)]
pub struct RigidBody {
    /// Current velocity, milli-units per second.
    pub velocity: Vec3,
    /// Mass in milli-kilograms; always positive.
    pub mass: i64,
    /// Kinetic ground friction, per-mille of velocity lost per second.
    pub friction: i64,
    /// Bounciness: per-mille of speed kept when reflecting off a bound.
    pub restitution: i64,
    /// Per-mille of velocity kept each tick.
    pub drag: i64,
    /// A kinematic body ignores forces but can still be moved externally.
    pub is_kinematic: bool,
}

impl RigidBody {
    /// Validity of a body: positive mass, per-mille coefficients, velocity in
    /// the simulation range.
    pub open spec fn wf(self) -> bool {
        &&& in_range(self.velocity)
        &&& 1 <= self.mass <= SIM_LIMIT
        &&& 0 <= self.friction <= 1000
        &&& 0 <= self.restitution <= 1000
        &&& 0 <= self.drag <= 1000
    }
}

impl Default for RigidBody {
    /// One-kilogram dynamic body at rest with stock coefficients.
    fn default() -> (r: RigidBody)
        ensures
            r == (RigidBody {
                velocity: Vec3 { x: 0, y: 0, z: 0 },
                mass: 1000i64,
                friction: 800i64,
                restitution: 100i64,
                drag: 980i64,
                is_kinematic: false,
            }),
            r.wf(),
    {
        RigidBody {
            velocity: Vec3 { x: 0, y: 0, z: 0 },
            mass: 1000,
            friction: 800,
            restitution: 100,
            drag: 980,
            is_kinematic: false,
        }
    }
}

/// Tags deciding which colliders may interact.
#[derive(Clone, Copy, Debug, PartialEq, Eq, Structural)]
pub enum CollisionLayer {
    Default,
    Player,
    Zombie,
    Bullet,
    Environment,
}

/// The single-bit mask of a layer.
pub open spec fn layer_bit(l: CollisionLayer) -> u32 {
    match l {
        CollisionLayer::Default => 1u32,
        CollisionLayer::Player => 2u32,
        CollisionLayer::Zombie => 4u32,
        CollisionLayer::Bullet => 8u32,
        CollisionLayer::Environment => 16u32,
    }
}

impl CollisionLayer {
    /// Bit of this layer inside a collision mask.
    pub fn mask(&self) -> (r: u32)
        ensures
            r == layer_bit(*self),
    {
        match self {
            CollisionLayer::Default => 1,
            CollisionLayer::Player => 2,
            CollisionLayer::Zombie => 4,
            CollisionLayer::Bullet => 8,
            CollisionLayer::Environment => 16,
        }
    }
}

/// Spherical collision proxy of an entity.
#[derive(Clone, Copy, Debug, PartialEq, Eq)]
pub struct Collider {
    /// Radius in milli-units; positive and no larger than the arena
    /// half-extent.
    pub radius: i64,
    /// The layer this collider belongs to.
    pub collision_layer: CollisionLayer,
    /// Bitset of layers this collider interacts with.
    pub collision_mask: u32,
}

impl Collider {
    /// Validity of a collider.
    pub open spec fn wf(self) -> bool {
        1 <= self.radius <= ARENA_HALF
    }
}

impl Default for Collider {
    /// Half-unit sphere on the default layer colliding with everything.
    fn default() -> (r: Collider)
        ensures
            r == (Collider {
                radius: 500i64,
                collision_layer: CollisionLayer::Default,
                collision_mask: 0xffu32,
            }),
            r.wf(),
    {
        Collider { radius: 500, collision_layer: CollisionLayer::Default, collision_mask: 0xff }
    }
}

/// Derived grounded state of an entity.
#[derive(Clone, Copy, Debug, PartialEq, Eq)]
pub struct GroundDetector {
    /// Whether the entity touched the ground on the last detection pass.
    pub is_grounded: bool,
    /// Signed height of the entity centre above the ground plane.
    pub ground_distance: i64,
}

impl Default for GroundDetector {
    /// Airborne with no recorded distance.
    fn default() -> (r: GroundDetector)
        ensures
            r == (GroundDetector { is_grounded: false, ground_distance: 0i64 }),
    {
        GroundDetector { is_grounded: false, ground_distance: 0 }
    }
}

/// Jump bookkeeping of an entity.
#[derive(Clone, Copy, Debug, PartialEq, Eq)]
pub struct Jumper {
    /// Cleared while the jump key is held so one press gives one jump.
    pub can_jump: bool,
    /// Jumps taken since the entity last touched the ground.
    pub jump_count: u32,
    /// Jumps allowed before landing again.
    pub max_jumps: u32,
}

impl Default for Jumper {
    /// A single-jump entity, ready to jump.
    fn default() -> (r: Jumper)
        ensures
            r == (Jumper { can_jump: true, jump_count: 0u32, max_jumps: 1u32 }),
    {
        Jumper { can_jump: true, jump_count: 0, max_jumps: 1 }
    }
}

/// Contact damage dealt by an entity, with its cooldown bookkeeping.
#[derive(Clone, Copy, Debug, PartialEq, Eq)]
pub struct CollisionDamage {
    /// Hit points removed per contact, in milli-units.
    pub damage: i64,
    /// Timestamp of the last hit dealt, milliseconds.
    pub last_damage_time: u64,
}

impl Default for CollisionDamage {
    /// Ten hit points per contact, never yet dealt.
    fn default() -> (r: CollisionDamage)
        ensures
            r == (CollisionDamage { damage: 10_000i64, last_damage_time: 0u64 }),
    {
        CollisionDamage { damage: 10_000, last_damage_time: 0 }
    }
}

/// Velocity after one gravity pass: a non-kinematic airborne body gains
/// `gravity * dt`; every other body is untouched.
pub open spec fn gravity_step(b: RigidBody, grounded: bool, gravity: int, dt: int) -> RigidBody {
    if !b.is_kinematic && !grounded {
        RigidBody {
            velocity: Vec3 {
                y: sat(b.velocity.y + scale(gravity, dt)) as i64,
                ..b.velocity
            },
            ..b
        }
    } else {
        b
    }
}

/// Applies gravity to one body. Kinematic and grounded bodies are skipped.
pub fn apply_gravity_body(body: &mut RigidBody, grounded: bool, gravity: i64, dt: u64)
    requires
        old(body).wf(),
        -SIM_LIMIT <= gravity <= SIM_LIMIT,
        1 <= dt <= MAX_DT_MS,
    ensures
        *final(body) == gravity_step(*old(body), grounded, gravity as int, dt as int),
        final(body).wf(),
{
    if !body.is_kinematic && !grounded {
        proof {
            crate::fixp::lemma_scale_shrinks(gravity as int, dt as int);
        }
        let dv = scale_i64(gravity, dt as i64);
        body.velocity.y = sat_add(body.velocity.y, dv);
    }
}

/// Velocity after drag and the anti-jitter floor.
pub open spec fn drag_floor_step(v: Vec3, drag: int) -> Vec3 {
    let vd = scale_spec(v, drag);
    if mag_sq_spec(vd) < JITTER_FLOOR_SQ {
        Vec3 { x: 0, y: 0, z: 0 }
    } else {
        vd
    }
}

/// Position and velocity after one integration pass: position advances by
/// `velocity * dt`, then drag and the anti-jitter floor apply to the
/// velocity. Kinematic bodies are untouched.
pub open spec fn integrate_step(pos: Vec3, b: RigidBody, dt: int) -> (Vec3, RigidBody) {
    if b.is_kinematic {
        (pos, b)
    } else {
        (
            add_spec(pos, scale_spec(b.velocity, dt)),
            RigidBody { velocity: drag_floor_step(b.velocity, b.drag as int), ..b },
        )
    }
}

/// Integrates one body: moves it by its velocity, then applies drag and
/// snaps a near-zero velocity to exactly zero.
pub fn integrate_body(pos: &mut Vec3, body: &mut RigidBody, dt: u64)
    requires
        in_range(*old(pos)),
        old(body).wf(),
        1 <= dt <= MAX_DT_MS,
    ensures
        (*final(pos), *final(body)) == integrate_step(*old(pos), *old(body), dt as int),
        in_range(*final(pos)),
        final(body).wf(),
{
    if !body.is_kinematic {
        let delta = body.velocity.scale(dt as i64);
        *pos = pos.add(delta);
        let vd = body.velocity.scale(body.drag);
        let m = vd.mag_sq();
        if m < JITTER_FLOOR_SQ as u128 {
            body.velocity = Vec3::zero();
        } else {
            body.velocity = vd;
        }
    }
}

/// Velocity after one friction pass: a grounded body keeps only
/// `1 - friction * dt` of its horizontal velocity.
pub open spec fn friction_step(b: RigidBody, grounded: bool, dt: int) -> RigidBody {
    if grounded {
        let keep = 1000 - scale(b.friction as int, dt);
        RigidBody {
            velocity: Vec3 {
                x: scale(b.velocity.x as int, keep) as i64,
                y: b.velocity.y,
                z: scale(b.velocity.z as int, keep) as i64,
            },
            ..b
        }
    } else {
        b
    }
}

/// Applies kinetic ground friction to one body's horizontal velocity.
pub fn apply_friction_body(body: &mut RigidBody, grounded: bool, dt: u64)
    requires
        old(body).wf(),
        1 <= dt <= MAX_DT_MS,
    ensures
        *final(body) == friction_step(*old(body), grounded, dt as int),
        final(body).wf(),
{
    if grounded {
        proof {
            crate::fixp::lemma_scale_shrinks(body.friction as int, dt as int);
            crate::fixp::lemma_scale_shrinks(body.velocity.x as int, 1000 - scale(
                body.friction as int,
                dt as int,
            ));
            crate::fixp::lemma_scale_shrinks(body.velocity.z as int, 1000 - scale(
                body.friction as int,
                dt as int,
            ));
        }
        let loss = scale_i64(body.friction, dt as i64);
        let keep = 1000 - loss;
        body.velocity.x = scale_i64(body.velocity.x, keep);
        body.velocity.z = scale_i64(body.velocity.z, keep);
    }
}

/// One horizontal axis of arena clamping: a body crossing a wall is set back
/// onto it and its velocity on that axis is reflected, scaled by the
/// restitution.
pub open spec fn bounce_axis(p: int, v: int, rest: int, radius: int) -> (int, int) {
    if p + radius > ARENA_HALF {
        (ARENA_HALF - radius, scale(-v, rest))
    } else if p - radius < -ARENA_HALF {
        (-ARENA_HALF + radius, scale(-v, rest))
    } else {
        (p, v)
    }
}

/// The vertical axis of arena clamping: a body below the ground plane is
/// lifted onto it and a downward velocity is reflected.
pub open spec fn bounce_ground(p: int, v: int, rest: int, radius: int) -> (int, int) {
    if p - radius < 0 {
        (radius, if v < 0 { scale(-v, rest) } else { v })
    } else {
        (p, v)
    }
}

/// Position and velocity after arena-bound enforcement on all three axes.
pub open spec fn arena_step(pos: Vec3, b: RigidBody, radius: int) -> (Vec3, RigidBody) {
    let (px, vx) = bounce_axis(pos.x as int, b.velocity.x as int, b.restitution as int, radius);
    let (pz, vz) = bounce_axis(pos.z as int, b.velocity.z as int, b.restitution as int, radius);
    let (py, vy) = bounce_ground(pos.y as int, b.velocity.y as int, b.restitution as int, radius);
    (
        Vec3 { x: px as i64, y: py as i64, z: pz as i64 },
        RigidBody { velocity: Vec3 { x: vx as i64, y: vy as i64, z: vz as i64 }, ..b },
    )
}

/// Clamps one body to the arena: each crossed bound puts the body back at
/// the bound minus its radius and reflects that velocity axis scaled by the
/// restitution.
pub fn check_arena_bounds_body(pos: &mut Vec3, body: &mut RigidBody, radius: i64)
    requires
        in_range(*old(pos)),
        old(body).wf(),
        1 <= radius <= ARENA_HALF,
    ensures
        (*final(pos), *final(body)) == arena_step(*old(pos), *old(body), radius as int),
        in_range(*final(pos)),
        final(body).wf(),
{
    proof {
        crate::fixp::lemma_scale_shrinks(-(body.velocity.x as int), body.restitution as int);
        crate::fixp::lemma_scale_shrinks(-(body.velocity.y as int), body.restitution as int);
        crate::fixp::lemma_scale_shrinks(-(body.velocity.z as int), body.restitution as int);
    }
    if pos.x + radius > ARENA_HALF {
        pos.x = ARENA_HALF - radius;
        body.velocity.x = scale_i64(-body.velocity.x, body.restitution);
    } else if pos.x - radius < -ARENA_HALF {
        pos.x = -ARENA_HALF + radius;
        body.velocity.x = scale_i64(-body.velocity.x, body.restitution);
    }
    if pos.z + radius > ARENA_HALF {
        pos.z = ARENA_HALF - radius;
        body.velocity.z = scale_i64(-body.velocity.z, body.restitution);
    } else if pos.z - radius < -ARENA_HALF {
        pos.z = -ARENA_HALF + radius;
        body.velocity.z = scale_i64(-body.velocity.z, body.restitution);
    }
    if pos.y - radius < 0 {
        pos.y = radius;
        if body.velocity.y < 0 {
            body.velocity.y = scale_i64(-body.velocity.y, body.restitution);
        }
    }
}

/// Ground state derived from a position: grounded exactly when the centre is
/// within radius plus a small epsilon of the ground plane.
pub open spec fn ground_step(pos: Vec3, radius: int, ground_level: int) -> GroundDetector {
    GroundDetector {
        is_grounded: pos.y - ground_level <= radius + GROUND_EPS,
        ground_distance: (pos.y - ground_level) as i64,
    }
}

/// Recomputes the grounded state of one entity and resets its jump count
/// when it touches down.
pub fn apply_ground_detection_body(
    pos: &Vec3,
    ground: &mut GroundDetector,
    jumper: &mut Jumper,
    radius: i64,
    ground_level: i64,
)
    requires
        in_range(*pos),
        -SIM_LIMIT <= ground_level <= SIM_LIMIT,
        1 <= radius <= ARENA_HALF,
    ensures
        *final(ground) == ground_step(*pos, radius as int, ground_level as int),
        *final(jumper) == (Jumper {
            jump_count: if final(ground).is_grounded {
                0u32
            } else {
                old(jumper).jump_count
            },
            ..*old(jumper)
        }),
{
    let distance = pos.y - ground_level;
    ground.ground_distance = distance;
    ground.is_grounded = distance <= radius + GROUND_EPS;
    if ground.is_grounded {
        jumper.jump_count = 0;
    }
}

/// Jump state after one press/release pass of the jump key.
pub open spec fn jump_step(b: RigidBody, j: Jumper, grounded: bool, pressed: bool, released: bool, jump_force: int) -> (RigidBody, Jumper) {
    let j1 = if pressed && grounded {
        Jumper { jump_count: 0u32, ..j }
    } else {
        j
    };
    let fired = pressed && j1.can_jump && j1.jump_count < j1.max_jumps;
    let b2 = if fired {
        RigidBody { velocity: Vec3 { y: jump_force as i64, ..b.velocity }, ..b }
    } else {
        b
    };
    let j2 = if fired {
        Jumper { can_jump: false, jump_count: (j1.jump_count + 1) as u32, ..j1 }
    } else {
        j1
    };
    let j3 = if released {
        Jumper { can_jump: true, ..j2 }
    } else {
        j2
    };
    (b2, j3)
}

/// Handles one tick of jump input: a press while a jump is available sets
/// the vertical velocity to the jump force; releasing the key re-arms it.
pub fn handle_jumping_body(
    body: &mut RigidBody,
    jumper: &mut Jumper,
    grounded: bool,
    pressed: bool,
    released: bool,
    jump_force: i64,
)
    requires
        old(body).wf(),
        0 <= jump_force <= SIM_LIMIT,
        old(jumper).jump_count < u32::MAX,
    ensures
        (*final(body), *final(jumper)) == jump_step(
            *old(body),
            *old(jumper),
            grounded,
            pressed,
            released,
            jump_force as int,
        ),
        final(body).wf(),
{
    if pressed {
        if grounded {
            jumper.jump_count = 0;
        }
        if jumper.can_jump && jumper.jump_count < jumper.max_jumps {
            body.velocity.y = jump_force;
            jumper.jump_count = jumper.jump_count + 1;
            jumper.can_jump = false;
        }
    }
    if released {
        jumper.can_jump = true;
    }
}

/// Drag with the anti-jitter floor never increases the squared speed; with
/// drag strictly below one it strictly decreases it, and zero is absorbing.
pub proof fn lemma_drag_floor_shrinks(v: Vec3, drag: int)
    requires
        in_range(v),
        0 <= drag <= 1000,
    ensures
        mag_sq_spec(drag_floor_step(v, drag)) <= mag_sq_spec(v),
        drag < 1000 && v != (Vec3 { x: 0, y: 0, z: 0 }) ==> mag_sq_spec(
            drag_floor_step(v, drag),
        ) < mag_sq_spec(v),
        v == (Vec3 { x: 0, y: 0, z: 0 }) ==> drag_floor_step(v, drag) == v,
{
    let vd = scale_spec(v, drag);
    crate::fixp::lemma_scale_shrinks(v.x as int, drag);
    crate::fixp::lemma_scale_shrinks(v.y as int, drag);
    crate::fixp::lemma_scale_shrinks(v.z as int, drag);
    crate::fixp::lemma_sq_between(vd.x as int, v.x as int);
    crate::fixp::lemma_sq_between(vd.y as int, v.y as int);
    crate::fixp::lemma_sq_between(vd.z as int, v.z as int);
    if v != (Vec3 { x: 0, y: 0, z: 0 }) {
        assert(v.x != 0 || v.y != 0 || v.z != 0);
        if drag < 1000 {
            if v.x != 0 {
                crate::fixp::lemma_scale_strict(v.x as int, drag);
                crate::fixp::lemma_sq_between_strict(vd.x as int, v.x as int);
            } else if v.y != 0 {
                crate::fixp::lemma_scale_strict(v.y as int, drag);
                crate::fixp::lemma_sq_between_strict(vd.y as int, v.y as int);
            } else {
                crate::fixp::lemma_scale_strict(v.z as int, drag);
                crate::fixp::lemma_sq_between_strict(vd.z as int, v.z as int);
            }
            assert(mag_sq_spec(vd) < mag_sq_spec(v));
        }
        assert(mag_sq_spec(v) >= 1) by (nonlinear_arith)
            requires
                v.x != 0 || v.y != 0 || v.z != 0,
                mag_sq_spec(v) == (v.x as int) * (v.x as int) + (v.y as int) * (v.y as int) + (
                v.z as int) * (v.z as int),
        ;
    }
}

/// Arena clamping never increases the squared speed, and leaves a resting
/// body at rest.
pub proof fn lemma_arena_no_speedup(pos: Vec3, b: RigidBody, radius: int)
    requires
        b.wf(),
    ensures
        mag_sq_spec(arena_step(pos, b, radius).1.velocity) <= mag_sq_spec(b.velocity),
        b.velocity == (Vec3 { x: 0, y: 0, z: 0 }) ==> arena_step(pos, b, radius).1.velocity == (
        Vec3 { x: 0, y: 0, z: 0 }),
{
    let v = b.velocity;
    let rest = b.restitution as int;
    let w = arena_step(pos, b, radius).1.velocity;
    crate::fixp::lemma_scale_shrinks(-(v.x as int), rest);
    crate::fixp::lemma_scale_shrinks(-(v.y as int), rest);
    crate::fixp::lemma_scale_shrinks(-(v.z as int), rest);
    crate::fixp::lemma_sq_between(scale(-(v.x as int), rest), -(v.x as int));
    crate::fixp::lemma_sq_between(scale(-(v.y as int), rest), -(v.y as int));
    crate::fixp::lemma_sq_between(scale(-(v.z as int), rest), -(v.z as int));
    assert((-(v.x as int)) * (-(v.x as int)) == (v.x as int) * (v.x as int)) by (nonlinear_arith);
    assert((-(v.y as int)) * (-(v.y as int)) == (v.y as int) * (v.y as int)) by (nonlinear_arith);
    assert((-(v.z as int)) * (-(v.z as int)) == (v.z as int) * (v.z as int)) by (nonlinear_arith);
    assert(mag_sq_spec(w) <= mag_sq_spec(v));
}

/// Ground friction never increases the squared speed, and leaves a resting
/// body at rest.
pub proof fn lemma_friction_shrinks(b: RigidBody, grounded: bool, dt: int)
    requires
        b.wf(),
        1 <= dt <= 1000,
    ensures
        mag_sq_spec(friction_step(b, grounded, dt).velocity) <= mag_sq_spec(b.velocity),
        b.velocity == (Vec3 { x: 0, y: 0, z: 0 }) ==> friction_step(b, grounded, dt).velocity == (
        Vec3 { x: 0, y: 0, z: 0 }),
{
    if grounded {
        let v = b.velocity;
        let keep = 1000 - scale(b.friction as int, dt);
        crate::fixp::lemma_scale_shrinks(b.friction as int, dt);
        crate::fixp::lemma_scale_shrinks(v.x as int, keep);
        crate::fixp::lemma_scale_shrinks(v.z as int, keep);
        crate::fixp::lemma_sq_between(scale(v.x as int, keep), v.x as int);
        crate::fixp::lemma_sq_between(scale(v.z as int, keep), v.z as int);
    }
}

/// Law: a grounded, non-kinematic body with drag strictly below one and no
/// steering input loses speed on every tick of the physics pipeline —
/// gravity (skipped while grounded), integration with drag, arena clamping
/// and ground friction. Its squared velocity magnitude never increases,
/// strictly decreases while the velocity is nonzero, is never negative, and
/// exact zero is absorbing.
pub proof fn lemma_grounded_body_decays(pos: Vec3, b: RigidBody, gravity: int, radius: int, dt: int)
    requires
        b.wf(),
        in_range(pos),
        !b.is_kinematic,
        b.drag < 1000,
        1 <= dt <= 1000,
        1 <= radius <= ARENA_HALF,
    ensures
        ({
            let b0 = gravity_step(b, true, gravity, dt);
            let (p1, b1) = integrate_step(pos, b0, dt);
            let (p2, b2) = arena_step(p1, b1, radius);
            let b3 = friction_step(b2, true, dt);
            &&& b0 == b
            &&& mag_sq_spec(b3.velocity) <= mag_sq_spec(b.velocity)
            &&& 0 <= mag_sq_spec(b3.velocity)
            &&& (b.velocity != (Vec3 { x: 0, y: 0, z: 0 }) ==> mag_sq_spec(b3.velocity)
                < mag_sq_spec(b.velocity))
            &&& (b.velocity == (Vec3 { x: 0, y: 0, z: 0 }) ==> b3.velocity == b.velocity)
            &&& b3.wf()
            &&& in_range(p2)
            &&& b3.mass == b.mass
            &&& b3.friction == b.friction
            &&& b3.restitution == b.restitution
            &&& b3.drag == b.drag
            &&& b3.is_kinematic == b.is_kinematic
        }),
{
    let b0 = gravity_step(b, true, gravity, dt);
    let (p1, b1) = integrate_step(pos, b0, dt);
    let (p2, b2) = arena_step(p1, b1, radius);
    let b3 = friction_step(b2, true, dt);
    lemma_drag_floor_shrinks(b.velocity, b.drag as int);
    assert(b1.wf()) by {
        crate::fixp::lemma_scale_shrinks(b.velocity.x as int, b.drag as int);
        crate::fixp::lemma_scale_shrinks(b.velocity.y as int, b.drag as int);
        crate::fixp::lemma_scale_shrinks(b.velocity.z as int, b.drag as int);
    }
    lemma_arena_no_speedup(p1, b1, radius);
    assert(b2.wf()) by {
        crate::fixp::lemma_scale_shrinks(-(b1.velocity.x as int), b1.restitution as int);
        crate::fixp::lemma_scale_shrinks(-(b1.velocity.y as int), b1.restitution as int);
        crate::fixp::lemma_scale_shrinks(-(b1.velocity.z as int), b1.restitution as int);
    }
    lemma_friction_shrinks(b2, true, dt);
    assert(0 <= mag_sq_spec(b3.velocity)) by (nonlinear_arith)
        requires
            mag_sq_spec(b3.velocity) == (b3.velocity.x as int) * (b3.velocity.x as int) + (
            b3.velocity.y as int) * (b3.velocity.y as int) + (b3.velocity.z as int) * (
            b3.velocity.z as int),
    ;
    assert(b3.wf()) by {
        let keep = 1000 - scale(b2.friction as int, dt);
        crate::fixp::lemma_scale_shrinks(b2.friction as int, dt);
        crate::fixp::lemma_scale_shrinks(b2.velocity.x as int, keep);
        crate::fixp::lemma_scale_shrinks(b2.velocity.z as int, keep);
    }
}

/// Position and body after one full grounded-physics round: gravity
/// (skipped while grounded), integration with drag, arena clamping, ground
/// friction.
pub open spec fn grounded_round_spec(pos: Vec3, b: RigidBody, gravity: int, radius: int, dt: int) -> (Vec3, RigidBody) {
    let b0 = gravity_step(b, true, gravity, dt);
    let pb1 = integrate_step(pos, b0, dt);
    let pb2 = arena_step(pb1.0, pb1.1, radius);
    (pb2.0, friction_step(pb2.1, true, dt))
}

/// `n` grounded-physics rounds in a row.
pub open spec fn iterate_grounded(
    pos: Vec3,
    b: RigidBody,
    gravity: int,
    radius: int,
    dt: int,
    n: nat,
) -> (Vec3, RigidBody)
    decreases n,
{
    if n == 0 {
        (pos, b)
    } else {
        let pb = grounded_round_spec(pos, b, gravity, radius, dt);
        iterate_grounded(pb.0, pb.1, gravity, radius, dt, (n - 1) as nat)
    }
}

/// Law: a grounded, non-kinematic body with drag strictly below one and no
/// steering input comes to a complete stop: within at most as many ticks as
/// its initial squared speed, its velocity is exactly zero.
pub proof fn lemma_grounded_body_stops(pos: Vec3, b: RigidBody, gravity: int, radius: int, dt: int)
    requires
        b.wf(),
        in_range(pos),
        !b.is_kinematic,
        b.drag < 1000,
        1 <= dt <= 1000,
        1 <= radius <= ARENA_HALF,
    ensures
        exists|n: nat|
            n <= mag_sq_spec(b.velocity) && #[trigger] iterate_grounded(
                pos,
                b,
                gravity,
                radius,
                dt,
                n,
            ).1.velocity == (Vec3 { x: 0, y: 0, z: 0 }),
    decreases mag_sq_spec(b.velocity),
{
    lemma_grounded_body_decays(pos, b, gravity, radius, dt);
    if b.velocity == (Vec3 { x: 0, y: 0, z: 0 }) {
        assert(iterate_grounded(pos, b, gravity, radius, dt, 0).1.velocity == (Vec3 {
            x: 0,
            y: 0,
            z: 0,
        }));
    } else {
        let pb = grounded_round_spec(pos, b, gravity, radius, dt);
        lemma_grounded_body_stops(pb.0, pb.1, gravity, radius, dt);
        let n1 = choose|n: nat|
            n <= mag_sq_spec(pb.1.velocity) && #[trigger] iterate_grounded(
                pb.0,
                pb.1,
                gravity,
                radius,
                dt,
                n,
            ).1.velocity == (Vec3 { x: 0, y: 0, z: 0 });
        assert(iterate_grounded(pos, b, gravity, radius, dt, (n1 + 1) as nat) == iterate_grounded(
            pb.0,
            pb.1,
            gravity,
            radius,
            dt,
            n1,
        ));
    }
}

} // verus!
