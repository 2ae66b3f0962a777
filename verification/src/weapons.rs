//! Projectiles and combat resolution: bullet flight, lifetime expiry, and
//! the effect of a hit on the target and the shooter's score, charge and
//! kill count.

use vstd::prelude::*;

use crate::fixp::{sat, sat_add, scale, scale_i64, SCALE_MAX, SIM_LIMIT};
use crate::physics::MAX_DT_MS;
use crate::player::Player;
use crate::vec3::{add_spec, in_range, scale_spec, Vec3};
use crate::zombies::Zombie;

verus! {

/// Hit-detection radius of a bullet, milli-units (one world unit).
pub const BULLET_HIT_RADIUS: i64 = 1000;

/// Score awarded for any hit, in points.
pub const SCORE_PER_HIT: u32 = 10;

/// Extra score awarded when a hit kills, in points.
pub const SCORE_PER_KILL: u32 = 50;

/// Charge gained by the shooter per hit, per-mille of a full meter.
pub const CHARGE_PER_HIT: i64 = 200;

/// A projectile in flight.
#[derive(Clone, Copy, Debug, PartialEq, Eq)]
pub struct Bullet {
    /// Hit points removed from the target, milli-units.
    pub damage: i64,
    /// Flight speed, milli-units per second.
    pub speed: i64,
    /// Milliseconds since the bullet was fired.
    pub lifetime: u64,
    /// Lifetime at which the bullet expires, milliseconds.
    pub max_lifetime: u64,
}

impl Bullet {
    /// Validity of a bullet record.
    pub open spec fn wf(self) -> bool {
        &&& 0 <= self.damage <= SIM_LIMIT
        &&& 0 <= self.speed <= SCALE_MAX
        &&& self.max_lifetime <= 86_400_000
    }
}

impl Default for Bullet {
    /// The stock round: 25 damage, 50 units/s, three seconds of flight.
    fn default() -> (r: Bullet)
        ensures
            r == (Bullet {
                damage: 25_000i64,
                speed: 50_000i64,
                lifetime: 0u64,
                max_lifetime: 3000u64,
            }),
            r.wf(),
    {
        Bullet { damage: 25_000, speed: 50_000, lifetime: 0, max_lifetime: 3000 }
    }
}

/// Position after one tick of flight along the fixed milli-unit direction
/// captured at spawn: the bullet advances by `dir * speed * dt`.
pub open spec fn bullet_move_spec(pos: Vec3, dir: Vec3, speed: int, dt: int) -> Vec3 {
    add_spec(pos, scale_spec(dir, scale(speed, dt)))
}

/// Moves one bullet along its direction.
pub fn move_bullet(pos: &mut Vec3, dir: &Vec3, speed: i64, dt: u64)
    requires
        in_range(*old(pos)),
        -1000 <= dir.x <= 1000,
        -1000 <= dir.y <= 1000,
        -1000 <= dir.z <= 1000,
        0 <= speed <= SCALE_MAX,
        1 <= dt <= MAX_DT_MS,
    ensures
        *final(pos) == bullet_move_spec(*old(pos), *dir, speed as int, dt as int),
        in_range(*final(pos)),
{
    proof {
        crate::fixp::lemma_scale_shrinks(speed as int, dt as int);
    }
    let step: i64 = scale_i64(speed, dt as i64);
    let delta = dir.scale(step);
    *pos = pos.add(delta);
}

/// Bullet state after one aging pass, and whether it expired.
pub open spec fn bullet_age_spec(b: Bullet, dt: int) -> (Bullet, bool) {
    let b2 = Bullet { lifetime: (b.lifetime + dt) as u64, ..b };
    (b2, b2.lifetime >= b.max_lifetime)
}

/// Ages one bullet by a tick; reports whether its lifetime ran out.
pub fn age_bullet(bullet: &mut Bullet, dt: u64) -> (expired: bool)
    requires
        old(bullet).wf(),
        old(bullet).lifetime <= old(bullet).max_lifetime,
        1 <= dt <= MAX_DT_MS,
    ensures
        (*final(bullet), expired) == bullet_age_spec(*old(bullet), dt as int),
        final(bullet).wf(),
{
    bullet.lifetime = bullet.lifetime + dt;
    bullet.lifetime >= bullet.max_lifetime
}

/// Zombie and player after one bullet hit: the target loses the bullet's
/// damage; the shooter gains the hit score and charge; if the target's
/// health drops to zero or below, the shooter also gains one kill and the
/// kill bonus. Scores and kills saturate at their type's maximum.
pub open spec fn bullet_hit_spec(z: Zombie, p: Player, damage: int) -> (Zombie, Player, bool) {
    let h2 = sat(z.health - damage);
    let z2 = Zombie { health: h2 as i64, ..z };
    let died = h2 <= 0;
    let score1 = if p.score + SCORE_PER_HIT > u32::MAX {
        u32::MAX as int
    } else {
        p.score + SCORE_PER_HIT
    };
    let charge1 = if p.psychedelic_charge + CHARGE_PER_HIT > 1000 {
        1000
    } else {
        p.psychedelic_charge + CHARGE_PER_HIT
    };
    let score2 = if died && score1 + SCORE_PER_KILL <= u32::MAX {
        score1 + SCORE_PER_KILL
    } else {
        score1
    };
    let kills2 = if died && p.kill_count < u32::MAX {
        p.kill_count + 1
    } else {
        p.kill_count as int
    };
    (
        z2,
        Player {
            score: score2 as u32,
            psychedelic_charge: charge1 as i64,
            kill_count: kills2 as u32,
            ..p
        },
        died,
    )
}

/// Applies one bullet hit to a zombie and credits the shooting player;
/// returns whether the hit killed the zombie.
pub fn apply_bullet_hit(zombie: &mut Zombie, player: &mut Player, damage: i64) -> (died: bool)
    requires
        old(zombie).wf(),
        old(player).wf(),
        0 <= damage <= SIM_LIMIT,
    ensures
        (*final(zombie), *final(player), died) == bullet_hit_spec(
            *old(zombie),
            *old(player),
            damage as int,
        ),
        final(zombie).wf(),
        final(player).wf(),
        died == (final(zombie).health <= 0),
{
    zombie.health = sat_add(zombie.health, -damage);
    let died = zombie.health <= 0;
    player.score = if player.score > u32::MAX - SCORE_PER_HIT {
        u32::MAX
    } else {
        player.score + SCORE_PER_HIT
    };
    let c = player.psychedelic_charge + CHARGE_PER_HIT;
    player.psychedelic_charge = if c > 1000 {
        1000
    } else {
        c
    };
    if died {
        if player.score <= u32::MAX - SCORE_PER_KILL {
            player.score = player.score + SCORE_PER_KILL;
        }
        if player.kill_count < u32::MAX {
            player.kill_count = player.kill_count + 1;
        }
    }
    died
}

} // verus!
