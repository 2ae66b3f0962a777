//! The player: health, score, shooting state and the charge meter, plus the
//! movement controller that turns camera-relative input into horizontal
//! steering.

use vstd::prelude::*;

use crate::fixp::{scale, scale_i64, SCALE_MAX, SIM_LIMIT};
use crate::motion::{steer_spec, stop_spec};
use crate::physics::{GroundDetector, RigidBody, MAX_DT_MS};
use crate::vec3::{in_range, normalized_spec, Vec3};

verus! {

/// Per-mille stopping factor applied when the player gives no input.
pub const PLAYER_STOP_FACTOR: i64 = 900;

/// Milliseconds between two shots (ten shots per second).
pub const SHOT_INTERVAL_MS: u64 = 100;

/// Charge gained per shot, per-mille of a full meter.
pub const CHARGE_PER_SHOT: i64 = 100;

/// Charge lost per second while not shooting, per-mille of a full meter.
pub const CHARGE_DECAY_PER_S: i64 = 500;

/// Singleton player state during a match.
#[derive(Clone, Copy, Debug, PartialEq, Eq)]
pub struct Player {
    /// Current hit points, milli-units; the player dies at zero or below.
    pub health: i64,
    /// Hit-point ceiling, milli-units.
    pub max_health: i64,
    /// Base movement speed, milli-units per second.
    pub speed: i64,
    /// Whether a shot was fired this tick.
    pub is_shooting: bool,
    /// Timestamp of the last shot, milliseconds.
    pub last_shot: u64,
    /// Charge meter in per-mille of full; rises on shooting, decays idle.
    pub psychedelic_charge: i64,
    /// Enemies destroyed this match.
    pub kill_count: u32,
    /// Score in points.
    pub score: u32,
    /// Steering acceleration, per-mille gain per second.
    pub acceleration: i64,
    /// Per-mille of the acceleration available while airborne.
    pub air_control: i64,
}

impl Player {
    /// Validity of a player record.
    pub open spec fn wf(self) -> bool {
        &&& -SIM_LIMIT <= self.health <= SIM_LIMIT
        &&& 1 <= self.max_health <= SIM_LIMIT
        &&& 0 <= self.speed <= SCALE_MAX
        &&& 0 <= self.psychedelic_charge <= 1000
        &&& 0 <= self.acceleration <= SCALE_MAX
        &&& 0 <= self.air_control <= 1000
    }
}

impl Default for Player {
    /// A fresh player: full health, no score, no kills, empty charge meter.
    fn default() -> (r: Player)
        ensures
            r == (Player {
                health: 100_000i64,
                max_health: 100_000i64,
                speed: 5000i64,
                is_shooting: false,
                last_shot: 0u64,
                psychedelic_charge: 0i64,
                kill_count: 0u32,
                score: 0u32,
                acceleration: 20_000i64,
                air_control: 300i64,
            }),
            r.wf(),
    {
        Player {
            health: 100_000,
            max_health: 100_000,
            speed: 5000,
            is_shooting: false,
            last_shot: 0,
            psychedelic_charge: 0,
            kill_count: 0,
            score: 0,
            acceleration: 20_000,
            air_control: 300,
        }
    }
}

/// Velocity after one player-movement pass: with input, steer toward the
/// normalized horizontal input direction at `move_speed` (times one and a
/// half when sprinting), accelerating at the player's full rate on the
/// ground and at the air-control fraction of it in the air; with no input,
/// apply the stopping factor while grounded.
pub open spec fn player_move_spec(
    v: Vec3,
    dir: Vec3,
    sprint: bool,
    grounded: bool,
    move_speed: int,
    acceleration: int,
    air_control: int,
    dt: int,
) -> Vec3 {
    let h = Vec3 { x: dir.x, y: 0, z: dir.z };
    if h.x != 0 || h.z != 0 {
        let n = normalized_spec(h);
        let mult: int = if sprint {
            1500
        } else {
            1000
        };
        let max_speed = scale(move_speed, mult);
        let accel = if grounded {
            acceleration
        } else {
            scale(acceleration, air_control)
        };
        steer_spec(v, n, max_speed, scale(accel, dt))
    } else if grounded {
        stop_spec(v, PLAYER_STOP_FACTOR as int)
    } else {
        v
    }
}

/// Steers the player's body from raw camera-relative input. The input
/// vector's vertical component is discarded; a zero horizontal input brakes
/// the player while grounded.
pub fn player_movement(
    body: &mut RigidBody,
    player: &Player,
    ground: &GroundDetector,
    dir: Vec3,
    sprint: bool,
    move_speed: i64,
    dt: u64,
)
    requires
        old(body).wf(),
        player.wf(),
        in_range(dir),
        0 <= move_speed <= 500_000,
        1 <= dt <= MAX_DT_MS,
    ensures
        final(body).velocity == player_move_spec(
            old(body).velocity,
            dir,
            sprint,
            ground.is_grounded,
            move_speed as int,
            player.acceleration as int,
            player.air_control as int,
            dt as int,
        ),
        *final(body) == (RigidBody { velocity: final(body).velocity, ..*old(body) }),
        final(body).wf(),
        dir.x != 0 || dir.z != 0 ==> crate::motion::horiz_mag_sq(final(body).velocity) <= scale(
            move_speed as int,
            if sprint {
                1500
            } else {
                1000
            },
        ) * scale(
            move_speed as int,
            if sprint {
                1500
            } else {
                1000
            },
        ),
        final(body).velocity.y == old(body).velocity.y,
{
    let h = Vec3 { x: dir.x, y: 0, z: dir.z };
    if h.x != 0 || h.z != 0 {
        let n = h.normalized_milli();
        let mult: i64 = if sprint {
            1500
        } else {
            1000
        };
        proof {
            crate::fixp::lemma_scale_shrinks(player.acceleration as int, player.air_control as int);
            assert(0 <= (move_speed as int) * (mult as int) <= 500_000 * 1500) by (nonlinear_arith)
                requires
                    0 <= move_speed as int <= 500_000,
                    0 < mult as int <= 1500,
            ;
            crate::fixp::lemma_div_trunc_bounds(
                (move_speed as int) * (mult as int),
                1000,
                500_000int * 1500,
            );
            vstd::arithmetic::div_mod::lemma_div_pos_is_pos(
                (move_speed as int) * (mult as int),
                1000,
            );
        }
        let max_speed: i64 = scale_i64(move_speed, mult);
        let accel: i64 = if ground.is_grounded {
            player.acceleration
        } else {
            scale_i64(player.acceleration, player.air_control)
        };
        proof {
            crate::fixp::lemma_scale_shrinks(accel as int, dt as int);
        }
        let factor: i64 = scale_i64(accel, dt as i64);
        crate::motion::steer_horizontal(body, n, max_speed, factor);
    } else if ground.is_grounded {
        crate::motion::apply_stopping(body, PLAYER_STOP_FACTOR);
    }
}

/// Player state after one shooting pass: while the trigger is held a shot
/// fires every `SHOT_INTERVAL_MS`, raising the charge meter; between shots
/// of a held trigger the state — the shooting flag included — is unchanged,
/// so `is_shooting` stays set from the first accepted shot until the
/// trigger is released. Released, the meter decays toward zero.
pub open spec fn shooting_spec(p: Player, fire_held: bool, now: int, dt: int) -> Player {
    if fire_held {
        if now - p.last_shot > SHOT_INTERVAL_MS {
            Player {
                is_shooting: true,
                last_shot: now as u64,
                psychedelic_charge: if p.psychedelic_charge + CHARGE_PER_SHOT > 1000 {
                    1000i64
                } else {
                    (p.psychedelic_charge + CHARGE_PER_SHOT) as i64
                },
                ..p
            }
        } else {
            p
        }
    } else {
        let decayed = p.psychedelic_charge - scale(CHARGE_DECAY_PER_S as int, dt);
        Player {
            is_shooting: false,
            psychedelic_charge: if decayed < 0 {
                0i64
            } else {
                decayed as i64
            },
            ..p
        }
    }
}

/// Handles one tick of the trigger: fires at most ten shots per second and
/// moves the charge meter. Returns whether a shot was fired this tick
/// (distinct from `is_shooting`, which stays set while the trigger is
/// held).
pub fn handle_shooting(player: &mut Player, fire_held: bool, now: u64, dt: u64) -> (fired: bool)
    requires
        old(player).wf(),
        old(player).last_shot <= now,
        1 <= dt <= MAX_DT_MS,
    ensures
        *final(player) == shooting_spec(*old(player), fire_held, now as int, dt as int),
        fired == (fire_held && now - old(player).last_shot > SHOT_INTERVAL_MS),
        final(player).wf(),
{
    if fire_held {
        if now - player.last_shot > SHOT_INTERVAL_MS {
            player.is_shooting = true;
            player.last_shot = now;
            let c = player.psychedelic_charge + CHARGE_PER_SHOT;
            player.psychedelic_charge = if c > 1000 {
                1000
            } else {
                c
            };
            true
        } else {
            false
        }
    } else {
        player.is_shooting = false;
        proof {
            crate::fixp::lemma_scale_shrinks(CHARGE_DECAY_PER_S as int, dt as int);
        }
        let decay = scale_i64(CHARGE_DECAY_PER_S, dt as i64);
        let c = player.psychedelic_charge - decay;
        player.psychedelic_charge = if c < 0 {
            0
        } else {
            c
        };
        false
    }
}

} // verus!
