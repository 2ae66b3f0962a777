//! Zombies: the four agent presets, target-seeking steering toward the
//! player, melee attacks with a cooldown, and the interval spawner with its
//! population cap.

use rand::Rng;

use vstd::prelude::*;

use crate::fixp::{scale, scale_i64, SCALE_MAX, SIM_LIMIT};
use crate::motion::{steer_spec, stop_spec};
use crate::physics::{
    CollisionDamage, CollisionLayer, Collider, GroundDetector, RigidBody, MAX_DT_MS,
};
use crate::vec3::{in_range, mag_sq_spec, normalized_spec, sub_spec, Vec3};

verus! {

/// Steering gain of a grounded zombie, per-mille per second.
pub const ZOMBIE_GROUND_ACCEL: i64 = 15_000;

/// Steering gain of an airborne zombie, per-mille per second.
pub const ZOMBIE_AIR_ACCEL: i64 = 5_000;

/// Per-mille stopping factor applied inside attack range.
pub const ZOMBIE_STOP_FACTOR: i64 = 800;

/// Milliseconds between two melee attacks of one zombie.
pub const ATTACK_COOLDOWN_MS: u64 = 1000;

/// The four agent variants, each a fixed stat preset.
#[derive(Clone, Copy, Debug, PartialEq, Eq, Structural)]
pub enum ZombieType {
    Basic,
    Fast,
    Heavy,
    Exploder,
}

/// AI-controlled hostile agent.
#[derive(Clone, Copy, Debug, PartialEq, Eq)]
pub struct Zombie {
    /// Current hit points, milli-units; the zombie dies at zero or below.
    pub health: i64,
    /// Hit-point ceiling, milli-units.
    pub max_health: i64,
    /// Movement speed, milli-units per second.
    pub speed: i64,
    /// Melee damage per attack, milli-units.
    pub damage: i64,
    /// Distance at which the zombie stops and attacks, milli-units.
    pub attack_range: i64,
    /// Timestamp of the last attack, milliseconds.
    pub last_attack: u64,
    /// Which preset this zombie was built from.
    pub zombie_type: ZombieType,
}

impl Zombie {
    /// Validity of a zombie record.
    pub open spec fn wf(self) -> bool {
        &&& -SIM_LIMIT <= self.health <= SIM_LIMIT
        &&& 1 <= self.max_health <= SIM_LIMIT
        &&& 0 <= self.speed <= SCALE_MAX
        &&& 0 <= self.damage <= SIM_LIMIT
        &&& 0 <= self.attack_range <= SIM_LIMIT
    }
}

impl Default for Zombie {
    /// The basic preset: 30 hit points, 2 units/s, 10 damage at 2 units.
    fn default() -> (r: Zombie)
        ensures
            r == (Zombie {
                health: 30_000i64,
                max_health: 30_000i64,
                speed: 2000i64,
                damage: 10_000i64,
                attack_range: 2000i64,
                last_attack: 0u64,
                zombie_type: ZombieType::Basic,
            }),
            r.wf(),
    {
        Zombie {
            health: 30_000,
            max_health: 30_000,
            speed: 2000,
            damage: 10_000,
            attack_range: 2000,
            last_attack: 0,
            zombie_type: ZombieType::Basic,
        }
    }
}

/// The stat record of one preset.
pub open spec fn zombie_stats_spec(t: ZombieType) -> Zombie {
    match t {
        ZombieType::Basic => Zombie {
            health: 30_000i64,
            max_health: 30_000i64,
            speed: 2000i64,
            damage: 10_000i64,
            attack_range: 2000i64,
            last_attack: 0u64,
            zombie_type: ZombieType::Basic,
        },
        ZombieType::Fast => Zombie {
            health: 15_000i64,
            max_health: 15_000i64,
            speed: 4000i64,
            damage: 10_000i64,
            attack_range: 2000i64,
            last_attack: 0u64,
            zombie_type: ZombieType::Fast,
        },
        ZombieType::Heavy => Zombie {
            health: 60_000i64,
            max_health: 60_000i64,
            speed: 1000i64,
            damage: 20_000i64,
            attack_range: 2000i64,
            last_attack: 0u64,
            zombie_type: ZombieType::Heavy,
        },
        ZombieType::Exploder => Zombie {
            health: 10_000i64,
            max_health: 10_000i64,
            speed: 3000i64,
            damage: 50_000i64,
            attack_range: 5000i64,
            last_attack: 0u64,
            zombie_type: ZombieType::Exploder,
        },
    }
}

/// The body preset of one variant.
pub open spec fn zombie_body_spec(t: ZombieType) -> RigidBody {
    match t {
        ZombieType::Basic => RigidBody {
            velocity: Vec3 { x: 0, y: 0, z: 0 },
            mass: 80_000i64,
            friction: 700i64,
            restitution: 100i64,
            drag: 850i64,
            is_kinematic: false,
        },
        ZombieType::Fast => RigidBody {
            velocity: Vec3 { x: 0, y: 0, z: 0 },
            mass: 60_000i64,
            friction: 600i64,
            restitution: 200i64,
            drag: 900i64,
            is_kinematic: false,
        },
        ZombieType::Heavy => RigidBody {
            velocity: Vec3 { x: 0, y: 0, z: 0 },
            mass: 120_000i64,
            friction: 800i64,
            restitution: 50i64,
            drag: 800i64,
            is_kinematic: false,
        },
        ZombieType::Exploder => RigidBody {
            velocity: Vec3 { x: 0, y: 0, z: 0 },
            mass: 50_000i64,
            friction: 500i64,
            restitution: 300i64,
            drag: 900i64,
            is_kinematic: false,
        },
    }
}

/// The collider radius of one variant, milli-units.
pub open spec fn zombie_radius_spec(t: ZombieType) -> i64 {
    match t {
        ZombieType::Basic => 600i64,
        ZombieType::Fast => 500i64,
        ZombieType::Heavy => 800i64,
        ZombieType::Exploder => 400i64,
    }
}

/// The contact damage of one variant, milli-units.
pub open spec fn zombie_contact_damage_spec(t: ZombieType) -> i64 {
    match t {
        ZombieType::Basic => 10_000i64,
        ZombieType::Fast => 5_000i64,
        ZombieType::Heavy => 20_000i64,
        ZombieType::Exploder => 50_000i64,
    }
}

/// Builds the full component preset of one variant: stats, body, collider
/// and contact damage.
pub fn zombie_preset(t: ZombieType) -> (r: (Zombie, RigidBody, Collider, CollisionDamage))
    ensures
        r.0 == zombie_stats_spec(t),
        r.1 == zombie_body_spec(t),
        r.2 == (Collider {
            radius: zombie_radius_spec(t),
            collision_layer: CollisionLayer::Zombie,
            collision_mask: 22u32,
        }),
        r.3 == (CollisionDamage {
            damage: zombie_contact_damage_spec(t),
            last_damage_time: 0u64,
        }),
        r.0.wf(),
        r.1.wf(),
        r.2.wf(),
        r.0.health == r.0.max_health,
{
    let zombie = match t {
        ZombieType::Basic => Zombie {
            health: 30_000,
            max_health: 30_000,
            speed: 2000,
            damage: 10_000,
            attack_range: 2000,
            last_attack: 0,
            zombie_type: ZombieType::Basic,
        },
        ZombieType::Fast => Zombie {
            health: 15_000,
            max_health: 15_000,
            speed: 4000,
            damage: 10_000,
            attack_range: 2000,
            last_attack: 0,
            zombie_type: ZombieType::Fast,
        },
        ZombieType::Heavy => Zombie {
            health: 60_000,
            max_health: 60_000,
            speed: 1000,
            damage: 20_000,
            attack_range: 2000,
            last_attack: 0,
            zombie_type: ZombieType::Heavy,
        },
        ZombieType::Exploder => Zombie {
            health: 10_000,
            max_health: 10_000,
            speed: 3000,
            damage: 50_000,
            attack_range: 5000,
            last_attack: 0,
            zombie_type: ZombieType::Exploder,
        },
    };
    let (mass, friction, restitution, drag, radius, contact) = match t {
        ZombieType::Basic => (80_000i64, 700i64, 100i64, 850i64, 600i64, 10_000i64),
        ZombieType::Fast => (60_000i64, 600i64, 200i64, 900i64, 500i64, 5_000i64),
        ZombieType::Heavy => (120_000i64, 800i64, 50i64, 800i64, 800i64, 20_000i64),
        ZombieType::Exploder => (50_000i64, 500i64, 300i64, 900i64, 400i64, 50_000i64),
    };
    let body = RigidBody {
        velocity: Vec3 { x: 0, y: 0, z: 0 },
        mass,
        friction,
        restitution,
        drag,
        is_kinematic: false,
    };
    let collider = Collider {
        radius,
        collision_layer: CollisionLayer::Zombie,
        collision_mask: 22,
    };
    let damage = CollisionDamage { damage: contact, last_damage_time: 0 };
    (zombie, body, collider, damage)
}

/// Velocity after one zombie-steering pass: outside attack range the zombie
/// accelerates toward the player along the horizontal part of the direction
/// to them, clamped to its speed; inside attack range it brakes while
/// grounded.
pub open spec fn zombie_move_spec(
    v: Vec3,
    zpos: Vec3,
    player_pos: Vec3,
    z: Zombie,
    grounded: bool,
    dt: int,
) -> Vec3 {
    let delta = sub_spec(player_pos, zpos);
    let dist = crate::fixp::sqrt_floor(mag_sq_spec(delta));
    if dist > z.attack_range {
        let n3 = normalized_spec(delta);
        let n = Vec3 { x: n3.x, y: 0, z: n3.z };
        let accel: int = if grounded {
            ZOMBIE_GROUND_ACCEL as int
        } else {
            ZOMBIE_AIR_ACCEL as int
        };
        steer_spec(v, n, z.speed as int, scale(accel, dt))
    } else if grounded {
        stop_spec(v, ZOMBIE_STOP_FACTOR as int)
    } else {
        v
    }
}

/// Steers one zombie toward the player. A zombie exactly at the player's
/// position (distance zero) is inside every attack range and only brakes.
pub fn zombie_movement(
    body: &mut RigidBody,
    zombie: &Zombie,
    zpos: &Vec3,
    player_pos: &Vec3,
    grounded: bool,
    dt: u64,
)
    requires
        old(body).wf(),
        zombie.wf(),
        in_range(*zpos),
        in_range(*player_pos),
        1 <= dt <= MAX_DT_MS,
    ensures
        final(body).velocity == zombie_move_spec(
            old(body).velocity,
            *zpos,
            *player_pos,
            *zombie,
            grounded,
            dt as int,
        ),
        *final(body) == (RigidBody { velocity: final(body).velocity, ..*old(body) }),
        final(body).wf(),
        crate::fixp::sqrt_floor(mag_sq_spec(sub_spec(*player_pos, *zpos))) > zombie.attack_range
            ==> crate::motion::horiz_mag_sq(final(body).velocity) <= zombie.speed * zombie.speed,
        final(body).velocity.y == old(body).velocity.y,
{
    let delta = player_pos.sub(*zpos);
    let dist: u64 = delta.norm();
    if dist > zombie.attack_range as u64 {
        proof {
            if delta == (Vec3 { x: 0, y: 0, z: 0 }) {
                assert(mag_sq_spec(delta) == 0);
                assert((dist as int) * (dist as int) >= 1) by (nonlinear_arith)
                    requires
                        dist as int >= 1,
                ;
            }
        }
        let n3 = delta.normalized_milli();
        let n = Vec3 { x: n3.x, y: 0, z: n3.z };
        let accel: i64 = if grounded {
            ZOMBIE_GROUND_ACCEL
        } else {
            ZOMBIE_AIR_ACCEL
        };
        proof {
            crate::fixp::lemma_scale_shrinks(accel as int, dt as int);
        }
        let factor: i64 = scale_i64(accel, dt as i64);
        crate::motion::steer_horizontal(body, n, zombie.speed, factor);
    } else if grounded {
        crate::motion::apply_stopping(body, ZOMBIE_STOP_FACTOR);
    }
}

/// Zombie state and dealt damage after one attack check: within attack
/// range and off cooldown, the zombie attacks, its cooldown restarts, and
/// its damage is reported.
pub open spec fn zombie_attack_spec(z: Zombie, zpos: Vec3, player_pos: Vec3, now: int) -> (
    Zombie,
    Option<i64>,
) {
    let dist = crate::fixp::sqrt_floor(mag_sq_spec(sub_spec(zpos, player_pos)));
    if dist <= z.attack_range && now - z.last_attack > ATTACK_COOLDOWN_MS {
        (Zombie { last_attack: now as u64, ..z }, Some(z.damage))
    } else {
        (z, None)
    }
}

/// Runs one attack check of one zombie against the player; returns the
/// damage dealt, if any.
pub fn zombie_attack(zombie: &mut Zombie, zpos: &Vec3, player_pos: &Vec3, now: u64) -> (hit: Option<
    i64,
>)
    requires
        old(zombie).wf(),
        old(zombie).last_attack <= now,
        in_range(*zpos),
        in_range(*player_pos),
    ensures
        (*final(zombie), hit) == zombie_attack_spec(*old(zombie), *zpos, *player_pos, now as int),
        final(zombie).wf(),
        final(zombie).last_attack <= now,
        hit is Some ==> hit->0 == old(zombie).damage,
{
    let delta = zpos.sub(*player_pos);
    let dist: u64 = delta.norm();
    if dist <= zombie.attack_range as u64 && now - zombie.last_attack > ATTACK_COOLDOWN_MS {
        zombie.last_attack = now;
        Some(zombie.damage)
    } else {
        None
    }
}

/// Repeating spawn timer with the fixed spawn points and the population cap.
#[derive(Debug, PartialEq, Eq)]
pub struct ZombieSpawnTimer {
    /// Milliseconds accumulated toward the next firing.
    pub elapsed_ms: u64,
    /// Interval between firings, milliseconds.
    pub interval_ms: u64,
    /// The fixed spawn coordinates.
    pub spawn_points: Vec<Vec3>,
    /// Most zombies allowed alive at once.
    pub max_zombies: usize,
}

impl ZombieSpawnTimer {
    /// Validity: the interval covers at least one tick, the accumulator is
    /// below it, and every spawn point lies in range.
    pub open spec fn wf(self) -> bool {
        &&& MAX_DT_MS <= self.interval_ms <= 86_400_000
        &&& self.elapsed_ms < self.interval_ms
        &&& self.spawn_points@.len() > 0
        &&& forall|i: int|
            0 <= i < self.spawn_points@.len() ==> in_range(#[trigger] self.spawn_points@[i])
    }

    /// Advances the timer by one tick; reports whether it fired.
    pub fn tick(&mut self, dt: u64) -> (fired: bool)
        requires
            old(self).wf(),
            1 <= dt <= MAX_DT_MS,
        ensures
            fired == (old(self).elapsed_ms + dt >= old(self).interval_ms),
            final(self).elapsed_ms == if fired {
                old(self).elapsed_ms + dt - old(self).interval_ms
            } else {
                old(self).elapsed_ms + dt
            },
            final(self).interval_ms == old(self).interval_ms,
            final(self).spawn_points == old(self).spawn_points,
            final(self).max_zombies == old(self).max_zombies,
            final(self).wf(),
    {
        let e = self.elapsed_ms + dt;
        if e >= self.interval_ms {
            self.elapsed_ms = e - self.interval_ms;
            true
        } else {
            self.elapsed_ms = e;
            false
        }
    }
}

/// The eight fixed spawn coordinates: the four diagonal corners at
/// (±10, 0, ±10) and the four axis points fifteen units out.
pub open spec fn default_spawn_points() -> Seq<Vec3> {
    seq![
        Vec3 { x: 10_000i64, y: 0i64, z: 10_000i64 },
        Vec3 { x: -10_000i64, y: 0i64, z: 10_000i64 },
        Vec3 { x: 10_000i64, y: 0i64, z: -10_000i64 },
        Vec3 { x: -10_000i64, y: 0i64, z: -10_000i64 },
        Vec3 { x: 0i64, y: 0i64, z: 15_000i64 },
        Vec3 { x: 0i64, y: 0i64, z: -15_000i64 },
        Vec3 { x: 15_000i64, y: 0i64, z: 0i64 },
        Vec3 { x: -15_000i64, y: 0i64, z: 0i64 },
    ]
}

impl Default for ZombieSpawnTimer {
    /// Two-second repeating timer, the eight fixed spawn points on the
    /// arena edge, a cap of twenty zombies.
    fn default() -> (r: ZombieSpawnTimer)
        ensures
            r.elapsed_ms == 0,
            r.interval_ms == 2000,
            r.max_zombies == 20,
            r.spawn_points@ == default_spawn_points(),
            r.wf(),
    {
        let mut points: Vec<Vec3> = Vec::new();
        points.push(Vec3 { x: 10_000, y: 0, z: 10_000 });
        points.push(Vec3 { x: -10_000, y: 0, z: 10_000 });
        points.push(Vec3 { x: 10_000, y: 0, z: -10_000 });
        points.push(Vec3 { x: -10_000, y: 0, z: -10_000 });
        points.push(Vec3 { x: 0, y: 0, z: 15_000 });
        points.push(Vec3 { x: 0, y: 0, z: -15_000 });
        points.push(Vec3 { x: 15_000, y: 0, z: 0 });
        points.push(Vec3 { x: -15_000, y: 0, z: 0 });
        proof {
            assert(points@ =~= default_spawn_points());
        }
        ZombieSpawnTimer { elapsed_ms: 0, interval_ms: 2000, spawn_points: points, max_zombies: 20 }
    }
}

/// The variant picked from a uniform draw in `[0, 4)`.
pub open spec fn type_of_roll(roll: int) -> ZombieType {
    if roll == 0 {
        ZombieType::Basic
    } else if roll == 1 {
        ZombieType::Fast
    } else if roll == 2 {
        ZombieType::Heavy
    } else {
        ZombieType::Exploder
    }
}

/// Maps a uniform draw to a variant.
pub fn type_from_roll(roll: usize) -> (t: ZombieType)
    ensures
        t == type_of_roll(roll as int),
{
    match roll {
        0 => ZombieType::Basic,
        1 => ZombieType::Fast,
        2 => ZombieType::Heavy,
        _ => ZombieType::Exploder,
    }
}

/// Relies on rand's `thread_rng` and `Rng::gen_range`: returns a uniform
/// sample from `[0, n)`. `gen_range` panics only on an empty range, which
/// the precondition rules out; nothing beyond the bound is promised of a
/// random draw.
#[verifier::external_body]
pub(crate) fn pick_index(n: usize) -> (r: usize)
    requires
        n > 0,
    ensures
        r < n,
{
    rand::thread_rng().gen_range(0..n)
}

} // verus!
