//! The simulation world: the typed entity arrays, the per-tick system
//! passes in their fixed order, the spawner, and the tick boundary where
//! phase transitions take effect.

use vstd::prelude::*;

use crate::fixp::{sat, sat_add, sqrt_floor, SIM_LIMIT};
use crate::game_state::{
    ButtonAction, GameConfig, GameState, GameStats, PhaseMachine, action_target, adjust_config,
    adjust_config_spec, allowed_transition, check_game_over, game_over_due, high_score_spec,
    stats_tick_spec, update_game_stats, update_high_score,
};
use crate::physics::{
    CollisionDamage, CollisionLayer, Collider, GroundDetector, Jumper, PhysicsSettings, RigidBody,
    MAX_DT_MS,
};
use crate::player::Player;
use crate::vec3::{add_spec, in_range, mag_sq_spec, sub_spec, Vec3};
use crate::weapons::Bullet;
use crate::zombies::{Zombie, ZombieSpawnTimer, ZombieType};

verus! {

/// The simulation clock saturates here (about thirty-six million years).
pub const NOW_LIMIT_MS: u64 = 0x1000_0000_0000_0000;

/// A zombie with all of its components.
#[derive(Clone, Copy, Debug, PartialEq, Eq)]
pub struct ZombieEntity {
    pub pos: Vec3,
    pub zombie: Zombie,
    pub body: RigidBody,
    pub collider: Collider,
    pub ground: GroundDetector,
    pub damage: CollisionDamage,
}

impl ZombieEntity {
    /// Validity of a zombie entity.
    pub open spec fn wf(self) -> bool {
        &&& in_range(self.pos)
        &&& self.zombie.wf()
        &&& self.body.wf()
        &&& self.collider.wf()
        &&& 0 <= self.damage.damage <= SIM_LIMIT
    }
}

/// The player with all of its components.
#[derive(Clone, Copy, Debug, PartialEq, Eq)]
pub struct PlayerEntity {
    pub pos: Vec3,
    pub player: Player,
    pub body: RigidBody,
    pub collider: Collider,
    pub ground: GroundDetector,
    pub jumper: Jumper,
}

impl PlayerEntity {
    /// Validity of a player entity.
    pub open spec fn wf(self) -> bool {
        &&& in_range(self.pos)
        &&& self.player.wf()
        &&& self.body.wf()
        &&& self.collider.wf()
        &&& self.jumper.jump_count <= self.jumper.max_jumps
        &&& self.jumper.max_jumps <= 1_000_000
    }

    /// The fresh player entity created on entering a match: default stats,
    /// a seventy-kilogram non-bouncing body, a half-unit collider on the
    /// player layer, standing one unit above the ground.
    pub open spec fn spawn_spec() -> PlayerEntity {
        PlayerEntity {
            pos: Vec3 { x: 0, y: 1000, z: 0 },
            player: Player {
                health: 100_000i64,
                max_health: 100_000i64,
                speed: 5000i64,
                is_shooting: false,
                last_shot: 0u64,
                psychedelic_charge: 0i64,
                kill_count: 0u32,
                score: 0u32,
                acceleration: 20_000i64,
                air_control: 300i64,
            },
            body: RigidBody {
                velocity: Vec3 { x: 0, y: 0, z: 0 },
                mass: 70_000i64,
                friction: 800i64,
                restitution: 0i64,
                drag: 950i64,
                is_kinematic: false,
            },
            collider: Collider {
                radius: 500i64,
                collision_layer: CollisionLayer::Player,
                collision_mask: 20u32,
            },
            ground: GroundDetector { is_grounded: false, ground_distance: 0i64 },
            jumper: Jumper { can_jump: true, jump_count: 0u32, max_jumps: 1u32 },
        }
    }

    /// Builds the fresh player entity.
    pub fn spawn() -> (r: PlayerEntity)
        ensures
            r == PlayerEntity::spawn_spec(),
            r.wf(),
    {
        PlayerEntity {
            pos: Vec3 { x: 0, y: 1000, z: 0 },
            player: Player::default(),
            body: RigidBody {
                velocity: Vec3 { x: 0, y: 0, z: 0 },
                mass: 70_000,
                friction: 800,
                restitution: 0,
                drag: 950,
                is_kinematic: false,
            },
            collider: Collider {
                radius: 500,
                collision_layer: CollisionLayer::Player,
                collision_mask: 20,
            },
            ground: GroundDetector::default(),
            jumper: Jumper::default(),
        }
    }
}

/// A projectile with its position and fixed flight direction.
#[derive(Clone, Copy, Debug, PartialEq, Eq)]
pub struct BulletEntity {
    pub pos: Vec3,
    /// Milli-unit direction captured at spawn; never re-aimed.
    pub dir: Vec3,
    pub bullet: Bullet,
}

impl BulletEntity {
    /// Validity of a bullet entity.
    pub open spec fn wf(self) -> bool {
        &&& in_range(self.pos)
        &&& -1000 <= self.dir.x <= 1000
        &&& -1000 <= self.dir.y <= 1000
        &&& -1000 <= self.dir.z <= 1000
        &&& self.bullet.wf()
        &&& self.bullet.lifetime <= self.bullet.max_lifetime
    }
}

/// A death-effect request handed to the presentation layer.
#[derive(Clone, Copy, Debug, PartialEq, Eq)]
pub struct DeathEffect {
    /// Where the zombie died.
    pub pos: Vec3,
    /// Which variant died, for the effect's colours.
    pub zombie_type: ZombieType,
}

/// Raw input state sampled for one tick.
#[derive(Clone, Copy, Debug, PartialEq, Eq)]
pub struct TickInput {
    /// Camera-relative movement direction; the vertical part is ignored.
    pub move_dir: Vec3,
    /// Camera forward direction as a milli-unit vector; bullets fly along
    /// it. An all-zero aim suppresses shots (degenerate geometry).
    pub aim_dir: Vec3,
    /// Sprint key held.
    pub sprint: bool,
    /// Jump key pressed this tick.
    pub jump_pressed: bool,
    /// Jump key released this tick.
    pub jump_released: bool,
    /// Fire button held.
    pub fire_held: bool,
    /// Pause key pressed this tick.
    pub pause_pressed: bool,
    /// Tick length in milliseconds.
    pub dt_ms: u64,
}

/// What one tick reports to the presentation layer.
pub struct TickOutput {
    /// One request per zombie that died this tick.
    pub death_effects: Vec<DeathEffect>,
    /// Whether the player fired a shot this tick.
    pub shot_fired: bool,
}

/// The whole simulation state.
pub struct World {
    pub config: GameConfig,
    pub settings: PhysicsSettings,
    pub phase: PhaseMachine,
    pub stats: GameStats,
    pub player: Option<PlayerEntity>,
    pub zombies: Vec<ZombieEntity>,
    pub bullets: Vec<BulletEntity>,
    pub spawn_timer: ZombieSpawnTimer,
    /// Elapsed simulation time, milliseconds.
    pub now_ms: u64,
    /// Set when a quit action was taken; the shell decides what to do.
    pub quit_requested: bool,
}

impl World {
    /// The world invariant: every entity is valid, every cooldown timestamp
    /// lies in the past, and the zombie population never exceeds the
    /// spawner's cap.
    pub open spec fn wf(self) -> bool {
        &&& self.config.wf()
        &&& self.settings.wf()
        &&& self.phase.wf()
        &&& self.spawn_timer.wf()
        &&& (self.player matches Some(p) ==> p.wf() && p.player.last_shot <= self.now_ms)
        &&& forall|i: int|
            0 <= i < self.zombies@.len() ==> (#[trigger] self.zombies@[i]).wf()
                && self.zombies@[i].zombie.last_attack <= self.now_ms
                && self.zombies@[i].damage.last_damage_time <= self.now_ms
        &&& forall|i: int| 0 <= i < self.bullets@.len() ==> (#[trigger] self.bullets@[i]).wf()
        &&& self.zombies@.len() <= self.spawn_timer.max_zombies
        &&& self.now_ms <= NOW_LIMIT_MS
    }

    /// A fresh world in the main menu with stock configuration and no
    /// entities.
    pub fn new() -> (r: World)
        ensures
            r.wf(),
            r.phase == (PhaseMachine {
                current: GameState::MainMenu,
                pending: Option::<GameState>::None,
                settings_return: GameState::MainMenu,
            }),
            r.player is None,
            r.zombies@.len() == 0,
            r.bullets@.len() == 0,
            r.now_ms == 0,
            !r.quit_requested,
            r.spawn_timer.elapsed_ms == 0,
            r.spawn_timer.interval_ms == 2000,
            r.spawn_timer.max_zombies == 20,
            r.spawn_timer.spawn_points@ == crate::zombies::default_spawn_points(),
            r.config == (GameConfig {
                mouse_sensitivity: 2000i64,
                movement_speed: 5000i64,
                psychedelic_intensity: 1000i64,
                zombie_spawn_rate: 1000i64,
                score_multiplier: 1000i64,
            }),
            r.settings == (PhysicsSettings {
                gravity: -30_000i64,
                ground_level: 0i64,
                jump_force: 15_000i64,
                player_damage_cooldown: 1000u64,
                collision_damping: 500i64,
            }),
            r.stats == (GameStats {
                total_kills: 0u32,
                total_score: 0u32,
                high_score: 0u32,
                games_played: 0u32,
                time_played: 0u64,
            }),
    {
        World {
            config: GameConfig::default(),
            settings: PhysicsSettings::default(),
            phase: PhaseMachine::new(),
            stats: GameStats::default(),
            player: None,
            zombies: Vec::new(),
            bullets: Vec::new(),
            spawn_timer: ZombieSpawnTimer::default(),
            now_ms: 0,
            quit_requested: false,
        }
    }
}

/// One zombie after the gravity and integration passes.
pub open spec fn zombie_pre_physics_spec(e: ZombieEntity, gravity: int, dt: int) -> ZombieEntity {
    let b1 = crate::physics::gravity_step(e.body, e.ground.is_grounded, gravity, dt);
    let pb = crate::physics::integrate_step(e.pos, b1, dt);
    ZombieEntity { pos: pb.0, body: pb.1, ..e }
}

/// Applies gravity and velocity integration to every zombie.
pub fn zombie_pre_physics_pass(zombies: &mut Vec<ZombieEntity>, gravity: i64, dt: u64)
    requires
        forall|i: int| 0 <= i < old(zombies)@.len() ==> (#[trigger] old(zombies)@[i]).wf(),
        -SIM_LIMIT <= gravity <= SIM_LIMIT,
        1 <= dt <= MAX_DT_MS,
    ensures
        final(zombies)@.len() == old(zombies)@.len(),
        forall|i: int|
            0 <= i < old(zombies)@.len() ==> #[trigger] final(zombies)@[i]
                == zombie_pre_physics_spec(old(zombies)@[i], gravity as int, dt as int),
        forall|i: int| 0 <= i < final(zombies)@.len() ==> (#[trigger] final(zombies)@[i]).wf(),
{
    let n = zombies.len();
    let mut i: usize = 0;
    while i < n
        invariant
            n == zombies@.len(),
            n == old(zombies)@.len(),
            i <= n,
            -SIM_LIMIT <= gravity <= SIM_LIMIT,
            1 <= dt <= MAX_DT_MS,
            forall|k: int| 0 <= k < n ==> (#[trigger] old(zombies)@[k]).wf(),
            forall|k: int| i <= k < n ==> #[trigger] zombies@[k] == old(zombies)@[k],
            forall|k: int|
                0 <= k < i ==> #[trigger] zombies@[k] == zombie_pre_physics_spec(
                    old(zombies)@[k],
                    gravity as int,
                    dt as int,
                ),
            forall|k: int| 0 <= k < i ==> (#[trigger] zombies@[k]).wf(),
        decreases n - i,
    {
        let mut e = zombies[i];
        crate::physics::apply_gravity_body(&mut e.body, e.ground.is_grounded, gravity, dt);
        crate::physics::integrate_body(&mut e.pos, &mut e.body, dt);
        zombies[i] = e;
        i = i + 1;
    }
}

/// One zombie after arena clamping, ground detection and friction.
pub open spec fn zombie_post_physics_spec(e: ZombieEntity, ground_level: int, dt: int) -> ZombieEntity {
    let pb = crate::physics::arena_step(e.pos, e.body, e.collider.radius as int);
    let g1 = crate::physics::ground_step(pb.0, e.collider.radius as int, ground_level);
    let b2 = crate::physics::friction_step(pb.1, g1.is_grounded, dt);
    ZombieEntity { pos: pb.0, body: b2, ground: g1, ..e }
}

/// Applies arena bounds, ground detection and friction to every zombie.
pub fn zombie_post_physics_pass(zombies: &mut Vec<ZombieEntity>, ground_level: i64, dt: u64)
    requires
        forall|i: int| 0 <= i < old(zombies)@.len() ==> (#[trigger] old(zombies)@[i]).wf(),
        -SIM_LIMIT <= ground_level <= SIM_LIMIT,
        1 <= dt <= MAX_DT_MS,
    ensures
        final(zombies)@.len() == old(zombies)@.len(),
        forall|i: int|
            0 <= i < old(zombies)@.len() ==> #[trigger] final(zombies)@[i]
                == zombie_post_physics_spec(old(zombies)@[i], ground_level as int, dt as int),
        forall|i: int| 0 <= i < final(zombies)@.len() ==> (#[trigger] final(zombies)@[i]).wf(),
{
    let n = zombies.len();
    let mut i: usize = 0;
    while i < n
        invariant
            n == zombies@.len(),
            n == old(zombies)@.len(),
            i <= n,
            -SIM_LIMIT <= ground_level <= SIM_LIMIT,
            1 <= dt <= MAX_DT_MS,
            forall|k: int| 0 <= k < n ==> (#[trigger] old(zombies)@[k]).wf(),
            forall|k: int| i <= k < n ==> #[trigger] zombies@[k] == old(zombies)@[k],
            forall|k: int|
                0 <= k < i ==> #[trigger] zombies@[k] == zombie_post_physics_spec(
                    old(zombies)@[k],
                    ground_level as int,
                    dt as int,
                ),
            forall|k: int| 0 <= k < i ==> (#[trigger] zombies@[k]).wf(),
        decreases n - i,
    {
        let mut e = zombies[i];
        crate::physics::check_arena_bounds_body(&mut e.pos, &mut e.body, e.collider.radius);
        let distance = e.pos.y - ground_level;
        e.ground.ground_distance = distance;
        e.ground.is_grounded = distance <= e.collider.radius + crate::physics::GROUND_EPS;
        crate::physics::apply_friction_body(&mut e.body, e.ground.is_grounded, dt);
        zombies[i] = e;
        i = i + 1;
    }
}

/// The zombies after one pair `(i, j)` is resolved: where the two layers
/// interact, `crate::collision::pair_step` is applied to the pair's
/// positions and bodies; otherwise nothing changes.
pub open spec fn pair_apply(zs: Seq<ZombieEntity>, i: int, j: int, damping: int) -> Seq<
    ZombieEntity,
> {
    if crate::collision::layers_interact_spec(zs[i].collider, zs[j].collider) {
        let r = crate::collision::pair_step(
            zs[i].pos,
            zs[i].body,
            zs[j].pos,
            zs[j].body,
            zs[i].collider.radius as int,
            zs[j].collider.radius as int,
            damping,
        );
        zs.update(i, ZombieEntity { pos: r.0, body: r.1, ..zs[i] }).update(
            j,
            ZombieEntity { pos: r.2, body: r.3, ..zs[j] },
        )
    } else {
        zs
    }
}

/// The zombies after the pairs `(i, j), (i, j+1), ...` are resolved in
/// order, for one fixed first index `i`.
pub open spec fn pairs_fold_inner(zs: Seq<ZombieEntity>, damping: int, i: int, j: int) -> Seq<
    ZombieEntity,
>
    decreases zs.len() - j,
{
    if i < 0 || j < i + 1 || j >= zs.len() {
        zs
    } else {
        pairs_fold_inner(pair_apply(zs, i, j, damping), damping, i, j + 1)
    }
}

/// The zombies after every unordered pair from first index `i` upward is
/// resolved in lexicographic order.
pub open spec fn pairs_fold(zs: Seq<ZombieEntity>, damping: int, i: int) -> Seq<ZombieEntity>
    decreases zs.len() - i,
    via pairs_fold_decreases
{
    if i < 0 || i + 1 >= zs.len() {
        zs
    } else {
        pairs_fold(pairs_fold_inner(zs, damping, i, i + 1), damping, i + 1)
    }
}

#[via_fn]
proof fn pairs_fold_decreases(zs: Seq<ZombieEntity>, damping: int, i: int) {
    if !(i < 0 || i + 1 >= zs.len()) {
        lemma_pairs_fold_inner_len(zs, damping, i, i + 1);
    }
}

/// The inner pair pass keeps the sequence length.
pub proof fn lemma_pairs_fold_inner_len(zs: Seq<ZombieEntity>, damping: int, i: int, j: int)
    ensures
        pairs_fold_inner(zs, damping, i, j).len() == zs.len(),
    decreases zs.len() - j,
{
    if !(i < 0 || j < i + 1 || j >= zs.len()) {
        lemma_pairs_fold_inner_len(pair_apply(zs, i, j, damping), damping, i, j + 1);
    }
}

/// Resolves every unordered zombie pair whose layers interact, in
/// lexicographic order: the result is exactly `pairs_fold` of the input.
/// Pair physics follows `crate::collision::pair_step` for each resolved
/// pair; across the whole pass each zombie keeps its stats, collider,
/// ground state and contact damage, and every entity stays valid.
#[verifier::rlimit(60)]
pub fn resolve_zombie_pairs(zombies: &mut Vec<ZombieEntity>, damping: i64)
    requires
        forall|i: int| 0 <= i < old(zombies)@.len() ==> (#[trigger] old(zombies)@[i]).wf(),
        0 <= damping <= 1000,
    ensures
        final(zombies)@ == pairs_fold(old(zombies)@, damping as int, 0),
        final(zombies)@.len() == old(zombies)@.len(),
        forall|i: int| 0 <= i < final(zombies)@.len() ==> (#[trigger] final(zombies)@[i]).wf(),
        forall|i: int|
            0 <= i < final(zombies)@.len() ==> {
                &&& (#[trigger] final(zombies)@[i]).zombie == old(zombies)@[i].zombie
                &&& final(zombies)@[i].collider == old(zombies)@[i].collider
                &&& final(zombies)@[i].ground == old(zombies)@[i].ground
                &&& final(zombies)@[i].damage == old(zombies)@[i].damage
            },
{
    let n = zombies.len();
    let mut i: usize = 0;
    while i < n
        invariant
            n == zombies@.len(),
            n == old(zombies)@.len(),
            i <= n,
            0 <= damping <= 1000,
            forall|k: int| 0 <= k < n ==> (#[trigger] zombies@[k]).wf(),
            forall|k: int|
                0 <= k < n ==> (#[trigger] zombies@[k]).zombie == old(zombies)@[k].zombie
                    && zombies@[k].collider == old(zombies)@[k].collider && zombies@[k].ground
                    == old(zombies)@[k].ground && zombies@[k].damage == old(zombies)@[k].damage,
            pairs_fold(old(zombies)@, damping as int, 0) == pairs_fold(
                zombies@,
                damping as int,
                i as int,
            ),
        decreases n - i,
    {
        let mut j: usize = i + 1;
        while j < n
            invariant
                n == zombies@.len(),
                n == old(zombies)@.len(),
                i < j <= n || (i >= n && j >= n),
                i < n,
                0 <= damping <= 1000,
                forall|k: int| 0 <= k < n ==> (#[trigger] zombies@[k]).wf(),
                forall|k: int|
                    0 <= k < n ==> (#[trigger] zombies@[k]).zombie == old(zombies)@[k].zombie
                        && zombies@[k].collider == old(zombies)@[k].collider && zombies@[k].ground
                        == old(zombies)@[k].ground && zombies@[k].damage == old(
                    zombies)@[k].damage,
                pairs_fold(old(zombies)@, damping as int, 0) == pairs_fold(
                    pairs_fold_inner(zombies@, damping as int, i as int, j as int),
                    damping as int,
                    i + 1,
                ),
            decreases n - j,
        {
            let ghost zs_pre = zombies@;
            let mut a = zombies[i];
            let mut b = zombies[j];
            if crate::collision::layers_interact(&a.collider, &b.collider) {
                crate::collision::resolve_pair(
                    &mut a.pos,
                    &mut a.body,
                    &mut b.pos,
                    &mut b.body,
                    a.collider.radius,
                    b.collider.radius,
                    damping,
                );
                zombies[i] = a;
                zombies[j] = b;
                proof {
                    assert(zombies@ =~= pair_apply(zs_pre, i as int, j as int, damping as int));
                }
            } else {
                proof {
                    assert(zombies@ =~= pair_apply(zs_pre, i as int, j as int, damping as int));
                }
            }
            proof {
                assert(pairs_fold_inner(zs_pre, damping as int, i as int, j as int)
                    == pairs_fold_inner(zombies@, damping as int, i as int, j + 1));
            }
            j = j + 1;
        }
        proof {
            assert(pairs_fold_inner(zombies@, damping as int, i as int, n as int) =~= zombies@);
        }
        i = i + 1;
    }
}

/// Whether a zombie is in melee contact with the player and off cooldown.
pub open spec fn melee_hit(e: ZombieEntity, ppos: Vec3, pradius: int, now: int, cd: int) -> bool {
    let dist = sqrt_floor(mag_sq_spec(sub_spec(ppos, e.pos)));
    dist <= pradius + e.collider.radius && now - e.damage.last_damage_time > cd
}

/// The zombie after landing a melee hit: its contact cooldown restarts.
pub open spec fn melee_mark(e: ZombieEntity, now: int) -> ZombieEntity {
    ZombieEntity {
        damage: CollisionDamage { last_damage_time: now as u64, ..e.damage },
        ..e
    }
}

/// The player's health after the zombies from index `i` on have dealt their
/// melee contact damage in order, saturating at the simulation bound.
pub open spec fn melee_health(
    zs: Seq<ZombieEntity>,
    ppos: Vec3,
    pradius: int,
    now: int,
    cd: int,
    h: int,
    i: int,
) -> int
    decreases zs.len() - i,
{
    if i < 0 || i >= zs.len() {
        h
    } else {
        let h2 = if melee_hit(zs[i], ppos, pradius, now, cd) {
            sat(h - zs[i].damage.damage)
        } else {
            h
        };
        melee_health(zs, ppos, pradius, now, cd, h2, i + 1)
    }
}

/// Applies melee contact damage from every overlapping zombie to the
/// player, one hit per zombie per cooldown window.
pub fn player_zombie_contact(
    zombies: &mut Vec<ZombieEntity>,
    player: &mut PlayerEntity,
    cooldown: u64,
    now: u64,
)
    requires
        forall|i: int| 0 <= i < old(zombies)@.len() ==> (#[trigger] old(zombies)@[i]).wf(),
        forall|i: int|
            0 <= i < old(zombies)@.len() ==> (#[trigger] old(zombies)@[i]).damage.last_damage_time
                <= now,
        old(player).wf(),
    ensures
        final(zombies)@.len() == old(zombies)@.len(),
        forall|i: int|
            0 <= i < old(zombies)@.len() ==> #[trigger] final(zombies)@[i] == if melee_hit(
                old(zombies)@[i],
                old(player).pos,
                old(player).collider.radius as int,
                now as int,
                cooldown as int,
            ) {
                melee_mark(old(zombies)@[i], now as int)
            } else {
                old(zombies)@[i]
            },
        forall|i: int| 0 <= i < final(zombies)@.len() ==> (#[trigger] final(zombies)@[i]).wf(),
        final(player).player.health == melee_health(
            old(zombies)@,
            old(player).pos,
            old(player).collider.radius as int,
            now as int,
            cooldown as int,
            old(player).player.health as int,
            0,
        ),
        *final(player) == (PlayerEntity {
            player: Player { health: final(player).player.health, ..old(player).player },
            ..*old(player)
        }),
        final(player).wf(),
{
    let ghost ppos = player.pos;
    let ghost pr = player.collider.radius as int;
    let n = zombies.len();
    let mut i: usize = 0;
    while i < n
        invariant
            n == zombies@.len(),
            n == old(zombies)@.len(),
            i <= n,
            player.pos == ppos,
            player.collider.radius as int == pr,
            forall|k: int| 0 <= k < n ==> (#[trigger] old(zombies)@[k]).wf(),
            forall|k: int|
                0 <= k < n ==> (#[trigger] old(zombies)@[k]).damage.last_damage_time <= now,
            forall|k: int| i <= k < n ==> #[trigger] zombies@[k] == old(zombies)@[k],
            forall|k: int|
                0 <= k < i ==> #[trigger] zombies@[k] == if melee_hit(
                    old(zombies)@[k],
                    ppos,
                    pr,
                    now as int,
                    cooldown as int,
                ) {
                    melee_mark(old(zombies)@[k], now as int)
                } else {
                    old(zombies)@[k]
                },
            forall|k: int| 0 <= k < i ==> (#[trigger] zombies@[k]).wf(),
            melee_health(
                old(zombies)@,
                ppos,
                pr,
                now as int,
                cooldown as int,
                old(player).player.health as int,
                0,
            ) == melee_health(
                old(zombies)@,
                ppos,
                pr,
                now as int,
                cooldown as int,
                player.player.health as int,
                i as int,
            ),
            *player == (PlayerEntity {
                player: Player { health: player.player.health, ..old(player).player },
                ..*old(player)
            }),
            player.wf(),
        decreases n - i,
    {
        let mut e = zombies[i];
        let delta = player.pos.sub(e.pos);
        let dist: u64 = delta.norm();
        let reach: i64 = player.collider.radius + e.collider.radius;
        if dist <= reach as u64 && now - e.damage.last_damage_time > cooldown {
            player.player.health = sat_add(player.player.health, -e.damage.damage);
            e.damage.last_damage_time = now;
            zombies[i] = e;
        }
        i = i + 1;
    }
}

/// One zombie after its steering pass toward the player.
pub open spec fn zombie_steer_spec(e: ZombieEntity, player_pos: Vec3, dt: int) -> ZombieEntity {
    ZombieEntity {
        body: RigidBody {
            velocity: crate::zombies::zombie_move_spec(
                e.body.velocity,
                e.pos,
                player_pos,
                e.zombie,
                e.ground.is_grounded,
                dt,
            ),
            ..e.body
        },
        ..e
    }
}

/// Steers every zombie toward the player.
pub fn steer_zombies(zombies: &mut Vec<ZombieEntity>, player_pos: Vec3, dt: u64)
    requires
        forall|i: int| 0 <= i < old(zombies)@.len() ==> (#[trigger] old(zombies)@[i]).wf(),
        in_range(player_pos),
        1 <= dt <= MAX_DT_MS,
    ensures
        final(zombies)@.len() == old(zombies)@.len(),
        forall|i: int|
            0 <= i < old(zombies)@.len() ==> #[trigger] final(zombies)@[i] == zombie_steer_spec(
                old(zombies)@[i],
                player_pos,
                dt as int,
            ),
        forall|i: int| 0 <= i < final(zombies)@.len() ==> (#[trigger] final(zombies)@[i]).wf(),
{
    let n = zombies.len();
    let mut i: usize = 0;
    while i < n
        invariant
            n == zombies@.len(),
            n == old(zombies)@.len(),
            i <= n,
            in_range(player_pos),
            1 <= dt <= MAX_DT_MS,
            forall|k: int| 0 <= k < n ==> (#[trigger] old(zombies)@[k]).wf(),
            forall|k: int| i <= k < n ==> #[trigger] zombies@[k] == old(zombies)@[k],
            forall|k: int|
                0 <= k < i ==> #[trigger] zombies@[k] == zombie_steer_spec(
                    old(zombies)@[k],
                    player_pos,
                    dt as int,
                ),
            forall|k: int| 0 <= k < i ==> (#[trigger] zombies@[k]).wf(),
        decreases n - i,
    {
        let mut e = zombies[i];
        let pos = e.pos;
        let zombie = e.zombie;
        crate::zombies::zombie_movement(
            &mut e.body,
            &zombie,
            &pos,
            &player_pos,
            e.ground.is_grounded,
            dt,
        );
        zombies[i] = e;
        i = i + 1;
    }
}

/// Whether a zombie is in attack range of the player and off cooldown.
pub open spec fn attack_hit(e: ZombieEntity, player_pos: Vec3, now: int) -> bool {
    let dist = sqrt_floor(mag_sq_spec(sub_spec(e.pos, player_pos)));
    dist <= e.zombie.attack_range && now - e.zombie.last_attack
        > crate::zombies::ATTACK_COOLDOWN_MS
}

/// The zombie after an attack: its attack cooldown restarts.
pub open spec fn attack_mark(e: ZombieEntity, now: int) -> ZombieEntity {
    ZombieEntity { zombie: Zombie { last_attack: now as u64, ..e.zombie }, ..e }
}

/// The player's health after the zombies from index `i` on have attacked in
/// order, saturating at the simulation bound.
pub open spec fn attack_health(zs: Seq<ZombieEntity>, player_pos: Vec3, now: int, h: int, i: int) -> int
    decreases zs.len() - i,
{
    if i < 0 || i >= zs.len() {
        h
    } else {
        let h2 = if attack_hit(zs[i], player_pos, now) {
            sat(h - zs[i].zombie.damage)
        } else {
            h
        };
        attack_health(zs, player_pos, now, h2, i + 1)
    }
}

/// Runs every zombie's attack check against the player and applies the
/// damage of each attack that lands.
pub fn zombie_attacks(zombies: &mut Vec<ZombieEntity>, player: &mut PlayerEntity, now: u64)
    requires
        forall|i: int| 0 <= i < old(zombies)@.len() ==> (#[trigger] old(zombies)@[i]).wf(),
        forall|i: int|
            0 <= i < old(zombies)@.len() ==> (#[trigger] old(zombies)@[i]).zombie.last_attack
                <= now,
        old(player).wf(),
    ensures
        final(zombies)@.len() == old(zombies)@.len(),
        forall|i: int|
            0 <= i < old(zombies)@.len() ==> #[trigger] final(zombies)@[i] == if attack_hit(
                old(zombies)@[i],
                old(player).pos,
                now as int,
            ) {
                attack_mark(old(zombies)@[i], now as int)
            } else {
                old(zombies)@[i]
            },
        forall|i: int| 0 <= i < final(zombies)@.len() ==> (#[trigger] final(zombies)@[i]).wf(),
        forall|i: int|
            0 <= i < final(zombies)@.len() ==> (#[trigger] final(zombies)@[i]).zombie.last_attack
                <= now,
        final(player).player.health == attack_health(
            old(zombies)@,
            old(player).pos,
            now as int,
            old(player).player.health as int,
            0,
        ),
        *final(player) == (PlayerEntity {
            player: Player { health: final(player).player.health, ..old(player).player },
            ..*old(player)
        }),
        final(player).wf(),
{
    let ghost ppos = player.pos;
    let n = zombies.len();
    let mut i: usize = 0;
    while i < n
        invariant
            n == zombies@.len(),
            n == old(zombies)@.len(),
            i <= n,
            player.pos == ppos,
            forall|k: int| 0 <= k < n ==> (#[trigger] old(zombies)@[k]).wf(),
            forall|k: int|
                0 <= k < n ==> (#[trigger] old(zombies)@[k]).zombie.last_attack <= now,
            forall|k: int| i <= k < n ==> #[trigger] zombies@[k] == old(zombies)@[k],
            forall|k: int|
                0 <= k < i ==> #[trigger] zombies@[k] == if attack_hit(
                    old(zombies)@[k],
                    ppos,
                    now as int,
                ) {
                    attack_mark(old(zombies)@[k], now as int)
                } else {
                    old(zombies)@[k]
                },
            forall|k: int| 0 <= k < i ==> (#[trigger] zombies@[k]).wf(),
            forall|k: int| 0 <= k < i ==> (#[trigger] zombies@[k]).zombie.last_attack <= now,
            attack_health(
                old(zombies)@,
                ppos,
                now as int,
                old(player).player.health as int,
                0,
            ) == attack_health(old(zombies)@, ppos, now as int, player.player.health as int, i as int),
            *player == (PlayerEntity {
                player: Player { health: player.player.health, ..old(player).player },
                ..*old(player)
            }),
            player.wf(),
        decreases n - i,
    {
        let mut e = zombies[i];
        let delta = e.pos.sub(player.pos);
        let dist: u64 = delta.norm();
        if dist <= e.zombie.attack_range as u64 && now - e.zombie.last_attack
            > crate::zombies::ATTACK_COOLDOWN_MS {
            player.player.health = sat_add(player.player.health, -e.zombie.damage);
            e.zombie.last_attack = now;
            zombies[i] = e;
        }
        i = i + 1;
    }
}

/// Squared hit-detection radius of a bullet.
pub const BULLET_HIT_SQ: u64 = 1_000_000;

/// Squared distance from a bullet position to one zombie.
pub open spec fn target_dist_sq(bpos: Vec3, e: ZombieEntity) -> int {
    mag_sq_spec(sub_spec(bpos, e.pos))
}

/// Whether a zombie is still alive (dead ones await the cleanup pass).
pub open spec fn is_live(e: ZombieEntity) -> bool {
    e.zombie.health > 0
}

/// Moves every bullet along its fixed direction.
pub fn move_bullets(bullets: &mut Vec<BulletEntity>, dt: u64)
    requires
        forall|i: int| 0 <= i < old(bullets)@.len() ==> (#[trigger] old(bullets)@[i]).wf(),
        1 <= dt <= MAX_DT_MS,
    ensures
        final(bullets)@.len() == old(bullets)@.len(),
        forall|i: int|
            0 <= i < old(bullets)@.len() ==> #[trigger] final(bullets)@[i] == (BulletEntity {
                pos: crate::weapons::bullet_move_spec(
                    old(bullets)@[i].pos,
                    old(bullets)@[i].dir,
                    old(bullets)@[i].bullet.speed as int,
                    dt as int,
                ),
                ..old(bullets)@[i]
            }),
        forall|i: int| 0 <= i < final(bullets)@.len() ==> (#[trigger] final(bullets)@[i]).wf(),
{
    let n = bullets.len();
    let mut i: usize = 0;
    while i < n
        invariant
            n == bullets@.len(),
            n == old(bullets)@.len(),
            i <= n,
            1 <= dt <= MAX_DT_MS,
            forall|k: int| 0 <= k < n ==> (#[trigger] old(bullets)@[k]).wf(),
            forall|k: int| i <= k < n ==> #[trigger] bullets@[k] == old(bullets)@[k],
            forall|k: int|
                0 <= k < i ==> #[trigger] bullets@[k] == (BulletEntity {
                    pos: crate::weapons::bullet_move_spec(
                        old(bullets)@[k].pos,
                        old(bullets)@[k].dir,
                        old(bullets)@[k].bullet.speed as int,
                        dt as int,
                    ),
                    ..old(bullets)@[k]
                }),
            forall|k: int| 0 <= k < i ==> (#[trigger] bullets@[k]).wf(),
        decreases n - i,
    {
        let mut b = bullets[i];
        let dir = b.dir;
        crate::weapons::move_bullet(&mut b.pos, &dir, b.bullet.speed, dt);
        bullets[i] = b;
        i = i + 1;
    }
}

/// Whether a zombie is a valid bullet target at `pos`: alive and strictly
/// within the hit radius.
pub open spec fn is_target(e: ZombieEntity, pos: Vec3) -> bool {
    is_live(e) && target_dist_sq(pos, e) < BULLET_HIT_SQ
}

/// The index of the nearest target among the zombies from index `i` on;
/// the lowest index wins a tie.
pub open spec fn nearest_target_from(zs: Seq<ZombieEntity>, pos: Vec3, i: int) -> Option<int>
    decreases zs.len() - i,
{
    if i < 0 || i >= zs.len() {
        None
    } else {
        let rest = nearest_target_from(zs, pos, i + 1);
        if !is_target(zs[i], pos) {
            rest
        } else {
            match rest {
                None => Some(i),
                Some(j) => if target_dist_sq(pos, zs[i]) <= target_dist_sq(pos, zs[j]) {
                    Some(i)
                } else {
                    Some(j)
                },
            }
        }
    }
}

/// The index of the nearest target among all the zombies.
pub open spec fn nearest_target(zs: Seq<ZombieEntity>, pos: Vec3) -> Option<int> {
    nearest_target_from(zs, pos, 0)
}

/// `nearest_target_from` really is the nearest target of the suffix: it is
/// a target, no target of the suffix is nearer, and it answers `None`
/// exactly when the suffix has no target.
pub proof fn lemma_nearest_target_props(zs: Seq<ZombieEntity>, pos: Vec3, i: int)
    requires
        0 <= i <= zs.len(),
    ensures
        match nearest_target_from(zs, pos, i) {
            None => forall|j: int| i <= j < zs.len() ==> !is_target(#[trigger] zs[j], pos),
            Some(k) => {
                &&& i <= k < zs.len()
                &&& is_target(zs[k], pos)
                &&& forall|j: int|
                    i <= j < zs.len() && is_target(#[trigger] zs[j], pos) ==> target_dist_sq(
                        pos,
                        zs[k],
                    ) < target_dist_sq(pos, zs[j]) || (target_dist_sq(pos, zs[k])
                        == target_dist_sq(pos, zs[j]) && k <= j)
            },
        },
    decreases zs.len() - i,
{
    if i < zs.len() {
        lemma_nearest_target_props(zs, pos, i + 1);
    }
}

/// Picks the nearest live zombie strictly within the hit radius of `pos`;
/// among equally distant targets the lowest index wins. Returns `None`
/// exactly when no live zombie is within the radius.
pub fn nearest_live_target(zombies: &Vec<ZombieEntity>, pos: Vec3) -> (r: Option<usize>)
    requires
        forall|i: int| 0 <= i < zombies@.len() ==> (#[trigger] zombies@[i]).wf(),
        in_range(pos),
    ensures
        r is None <==> nearest_target(zombies@, pos) is None,
        r matches Some(u) ==> nearest_target(zombies@, pos) == Some(u as int),
        r is None ==> forall|j: int|
            0 <= j < zombies@.len() && is_live(#[trigger] zombies@[j]) ==> target_dist_sq(
                pos,
                zombies@[j],
            ) >= BULLET_HIT_SQ,
        r matches Some(i) ==> {
            &&& i < zombies@.len()
            &&& is_live(zombies@[i as int])
            &&& target_dist_sq(pos, zombies@[i as int]) < BULLET_HIT_SQ
            &&& forall|j: int|
                0 <= j < zombies@.len() && is_live(#[trigger] zombies@[j]) && target_dist_sq(
                    pos,
                    zombies@[j],
                ) < BULLET_HIT_SQ ==> target_dist_sq(pos, zombies@[i as int]) < target_dist_sq(
                    pos,
                    zombies@[j],
                ) || (target_dist_sq(pos, zombies@[i as int]) == target_dist_sq(pos, zombies@[j])
                    && i <= j)
        },
{
    let n = zombies.len();
    let mut best: Option<usize> = None;
    let mut best_d: u128 = 0;
    let mut j: usize = 0;
    while j < n
        invariant
            n == zombies@.len(),
            j <= n,
            in_range(pos),
            forall|k: int| 0 <= k < n ==> (#[trigger] zombies@[k]).wf(),
            best is None ==> forall|k: int|
                0 <= k < j && is_live(#[trigger] zombies@[k]) ==> target_dist_sq(pos, zombies@[k])
                    >= BULLET_HIT_SQ,
            best matches Some(b) ==> {
                &&& b < j
                &&& is_live(zombies@[b as int])
                &&& best_d == target_dist_sq(pos, zombies@[b as int])
                &&& best_d < BULLET_HIT_SQ
                &&& forall|k: int|
                    0 <= k < j && is_live(#[trigger] zombies@[k]) && target_dist_sq(
                        pos,
                        zombies@[k],
                    ) < BULLET_HIT_SQ ==> best_d < target_dist_sq(pos, zombies@[k]) || (best_d
                        == target_dist_sq(pos, zombies@[k]) && b <= k)
            },
        decreases n - j,
    {
        let e = zombies[j];
        if e.zombie.health > 0 {
            let d: u128 = pos.sub(e.pos).mag_sq();
            if d < BULLET_HIT_SQ as u128 {
                match best {
                    None => {
                        best = Some(j);
                        best_d = d;
                    },
                    Some(_) => {
                        if d < best_d {
                            best = Some(j);
                            best_d = d;
                        }
                    },
                }
            }
        }
        j = j + 1;
    }
    proof {
        lemma_nearest_target_props(zombies@, pos, 0);
        let sp = nearest_target(zombies@, pos);
        match best {
            None => {
                match sp {
                    Option::Some(k) => {
                        assert(is_target(zombies@[k], pos));
                        assert(false);
                    },
                    Option::None => {},
                }
            },
            Some(b) => {
                assert(is_target(zombies@[b as int], pos));
                match sp {
                    Option::None => {
                        assert(!is_target(zombies@[b as int], pos));
                    },
                    Option::Some(k) => {
                        assert(target_dist_sq(pos, zombies@[b as int]) < target_dist_sq(
                            pos,
                            zombies@[k],
                        ) || (target_dist_sq(pos, zombies@[b as int]) == target_dist_sq(
                            pos,
                            zombies@[k],
                        ) && b <= k));
                        assert(k == b as int);
                    },
                }
            },
        }
    }
    best
}

/// Zombies and player after one bullet is resolved, and whether the bullet
/// was consumed: the nearest live target strictly within the hit radius
/// takes the bullet's damage and the shooter is credited.
pub open spec fn combat_step(zs: Seq<ZombieEntity>, p: Player, b: BulletEntity) -> (
    Seq<ZombieEntity>,
    Player,
    bool,
) {
    match nearest_target(zs, b.pos) {
        None => (zs, p, false),
        Some(zi) => {
            let hit = crate::weapons::bullet_hit_spec(zs[zi].zombie, p, b.bullet.damage as int);
            (zs.update(zi, ZombieEntity { zombie: hit.0, ..zs[zi] }), hit.1, true)
        },
    }
}

/// Surviving bullets, zombies and player after the bullets from index `i`
/// on are resolved in order.
pub open spec fn combat_fold(
    bs: Seq<BulletEntity>,
    zs: Seq<ZombieEntity>,
    p: Player,
    i: int,
) -> (Seq<BulletEntity>, Seq<ZombieEntity>, Player)
    decreases bs.len() - i,
{
    if i < 0 || i >= bs.len() {
        (Seq::empty(), zs, p)
    } else {
        let stepped = combat_step(zs, p, bs[i]);
        let rest = combat_fold(bs, stepped.0, stepped.1, i + 1);
        (
            if stepped.2 {
                rest.0
            } else {
                seq![bs[i]] + rest.0
            },
            rest.1,
            rest.2,
        )
    }
}

/// Resolves every bullet against the zombies, in order: a bullet strictly
/// within one unit of a live zombie damages the nearest such zombie,
/// credits the player, and is destroyed; a bullet that hits nothing flies
/// on. Dead zombies are left in place for the cleanup pass, so one kill is
/// credited at most once. The result is exactly `combat_fold` of the
/// inputs; in particular zombies can only lose health here and the bullets
/// that remain are a subset of those that came in.
pub fn resolve_bullet_hits(
    bullets: &mut Vec<BulletEntity>,
    zombies: &mut Vec<ZombieEntity>,
    player: &mut Player,
)
    requires
        forall|i: int| 0 <= i < old(bullets)@.len() ==> (#[trigger] old(bullets)@[i]).wf(),
        forall|i: int| 0 <= i < old(zombies)@.len() ==> (#[trigger] old(zombies)@[i]).wf(),
        old(player).wf(),
    ensures
        (final(bullets)@, final(zombies)@, *final(player)) == combat_fold(
            old(bullets)@,
            old(zombies)@,
            *old(player),
            0,
        ),
        final(bullets)@.len() <= old(bullets)@.len(),
        forall|i: int| 0 <= i < final(bullets)@.len() ==> (#[trigger] final(bullets)@[i]).wf(),
        final(zombies)@.len() == old(zombies)@.len(),
        forall|i: int| 0 <= i < final(zombies)@.len() ==> (#[trigger] final(zombies)@[i]).wf(),
        forall|i: int|
            0 <= i < final(zombies)@.len() ==> #[trigger] final(zombies)@[i] == (ZombieEntity {
                zombie: Zombie {
                    health: final(zombies)@[i].zombie.health,
                    ..old(zombies)@[i].zombie
                },
                ..old(zombies)@[i]
            }) && final(zombies)@[i].zombie.health <= old(zombies)@[i].zombie.health,
        final(player).wf(),
        *final(player) == (Player {
            score: final(player).score,
            psychedelic_charge: final(player).psychedelic_charge,
            kill_count: final(player).kill_count,
            ..*old(player)
        }),
        final(player).score >= old(player).score,
        final(player).kill_count >= old(player).kill_count,
{
    let n = bullets.len();
    let mut out: Vec<BulletEntity> = Vec::new();
    proof {
        let rem0 = combat_fold(old(bullets)@, old(zombies)@, *old(player), 0);
        assert(out@ + rem0.0 =~= rem0.0);
    }
    let mut i: usize = 0;
    while i < n
        invariant
            n == bullets@.len(),
            n == old(bullets)@.len(),
            i <= n,
            out@.len() <= i,
            forall|k: int| 0 <= k < n ==> #[trigger] bullets@[k] == old(bullets)@[k],
            forall|k: int| 0 <= k < n ==> (#[trigger] bullets@[k]).wf(),
            forall|k: int| 0 <= k < out@.len() ==> (#[trigger] out@[k]).wf(),
            zombies@.len() == old(zombies)@.len(),
            forall|k: int| 0 <= k < zombies@.len() ==> (#[trigger] zombies@[k]).wf(),
            forall|k: int|
                0 <= k < zombies@.len() ==> #[trigger] zombies@[k] == (ZombieEntity {
                    zombie: Zombie { health: zombies@[k].zombie.health, ..old(zombies)@[k].zombie },
                    ..old(zombies)@[k]
                }) && zombies@[k].zombie.health <= old(zombies)@[k].zombie.health,
            player.wf(),
            *player == (Player {
                score: player.score,
                psychedelic_charge: player.psychedelic_charge,
                kill_count: player.kill_count,
                ..*old(player)
            }),
            player.score >= old(player).score,
            player.kill_count >= old(player).kill_count,
            combat_fold(old(bullets)@, old(zombies)@, *old(player), 0) == ({
                let rem = combat_fold(old(bullets)@, zombies@, *player, i as int);
                (out@ + rem.0, rem.1, rem.2)
            }),
        decreases n - i,
    {
        let ghost zs_pre = zombies@;
        let ghost p_pre = *player;
        let ghost out_pre = out@;
        let b = bullets[i];
        match nearest_live_target(zombies, b.pos) {
            Some(zi) => {
                let mut z = zombies[zi];
                let mut hit = z.zombie;
                crate::weapons::apply_bullet_hit(&mut hit, player, b.bullet.damage);
                z.zombie = hit;
                zombies[zi] = z;
                proof {
                    assert(combat_step(zs_pre, p_pre, b) == (zombies@, *player, true));
                }
            },
            None => {
                out.push(b);
                proof {
                    assert(combat_step(zs_pre, p_pre, b) == (zs_pre, p_pre, false));
                }
            },
        }
        proof {
            let stepped = combat_step(zs_pre, p_pre, b);
            let rem_pre = combat_fold(old(bullets)@, zs_pre, p_pre, i as int);
            let rem_next = combat_fold(old(bullets)@, zombies@, *player, i + 1);
            assert(rem_pre == (
                if stepped.2 {
                    rem_next.0
                } else {
                    seq![b] + rem_next.0
                },
                rem_next.1,
                rem_next.2,
            ));
            if !stepped.2 {
                assert(out@ =~= out_pre + seq![b]);
                assert(out_pre + (seq![b] + rem_next.0) =~= out@ + rem_next.0);
            }
        }
        i = i + 1;
    }
    proof {
        let rem_end = combat_fold(old(bullets)@, zombies@, *player, n as int);
        assert(rem_end.0 =~= Seq::<BulletEntity>::empty());
        assert(out@ + rem_end.0 =~= out@);
    }
    *bullets = out;
}

/// The bullets from index `i` on that survive one aging pass, each with its
/// lifetime advanced.
pub open spec fn surviving_bullets(bs: Seq<BulletEntity>, dt: int, i: int) -> Seq<BulletEntity>
    decreases bs.len() - i,
{
    if i < 0 || i >= bs.len() {
        Seq::empty()
    } else {
        let aged = BulletEntity {
            bullet: Bullet {
                lifetime: (bs[i].bullet.lifetime + dt) as u64,
                ..bs[i].bullet
            },
            ..bs[i]
        };
        let rest = surviving_bullets(bs, dt, i + 1);
        if aged.bullet.lifetime >= aged.bullet.max_lifetime {
            rest
        } else {
            seq![aged] + rest
        }
    }
}

/// Ages every bullet by one tick and drops those whose lifetime ran out.
pub fn cleanup_bullets(bullets: &mut Vec<BulletEntity>, dt: u64)
    requires
        forall|i: int| 0 <= i < old(bullets)@.len() ==> (#[trigger] old(bullets)@[i]).wf(),
        1 <= dt <= MAX_DT_MS,
    ensures
        final(bullets)@ == surviving_bullets(old(bullets)@, dt as int, 0),
        forall|i: int| 0 <= i < final(bullets)@.len() ==> (#[trigger] final(bullets)@[i]).wf(),
        final(bullets)@.len() <= old(bullets)@.len(),
{
    let n = bullets.len();
    let mut out: Vec<BulletEntity> = Vec::new();
    let mut i: usize = 0;
    while i < n
        invariant
            n == bullets@.len(),
            n == old(bullets)@.len(),
            i <= n,
            1 <= dt <= MAX_DT_MS,
            out@.len() <= i,
            forall|k: int| 0 <= k < n ==> #[trigger] bullets@[k] == old(bullets)@[k],
            forall|k: int| 0 <= k < n ==> (#[trigger] bullets@[k]).wf(),
            forall|k: int| 0 <= k < out@.len() ==> (#[trigger] out@[k]).wf(),
            surviving_bullets(old(bullets)@, dt as int, 0) == out@ + surviving_bullets(
                old(bullets)@,
                dt as int,
                i as int,
            ),
        decreases n - i,
    {
        let mut b = bullets[i];
        let expired = crate::weapons::age_bullet(&mut b.bullet, dt);
        if !expired {
            out.push(b);
        }
        proof {
            assert(surviving_bullets(old(bullets)@, dt as int, 0) == out@ + surviving_bullets(
                old(bullets)@,
                dt as int,
                i + 1,
            ));
        }
        i = i + 1;
    }
    proof {
        assert(surviving_bullets(old(bullets)@, dt as int, n as int) =~= Seq::<
            BulletEntity,
        >::empty());
        assert(out@ + Seq::<BulletEntity>::empty() =~= out@);
    }
    *bullets = out;
}

/// The zombies from index `i` on that are still alive.
pub open spec fn surviving_zombies(zs: Seq<ZombieEntity>, i: int) -> Seq<ZombieEntity>
    decreases zs.len() - i,
{
    if i < 0 || i >= zs.len() {
        Seq::empty()
    } else {
        let rest = surviving_zombies(zs, i + 1);
        if zs[i].zombie.health <= 0 {
            rest
        } else {
            seq![zs[i]] + rest
        }
    }
}

/// One death-effect request per dead zombie from index `i` on.
pub open spec fn death_requests(zs: Seq<ZombieEntity>, i: int) -> Seq<DeathEffect>
    decreases zs.len() - i,
{
    if i < 0 || i >= zs.len() {
        Seq::empty()
    } else {
        let rest = death_requests(zs, i + 1);
        if zs[i].zombie.health <= 0 {
            seq![DeathEffect { pos: zs[i].pos, zombie_type: zs[i].zombie.zombie_type }] + rest
        } else {
            rest
        }
    }
}

/// Removes every zombie whose health reached zero and emits one
/// death-effect request for each, in order.
pub fn cleanup_dead_zombies(zombies: &mut Vec<ZombieEntity>, effects: &mut Vec<DeathEffect>)
    requires
        forall|i: int| 0 <= i < old(zombies)@.len() ==> (#[trigger] old(zombies)@[i]).wf(),
    ensures
        final(zombies)@ == surviving_zombies(old(zombies)@, 0),
        final(effects)@ == old(effects)@ + death_requests(old(zombies)@, 0),
        forall|i: int| 0 <= i < final(zombies)@.len() ==> (#[trigger] final(zombies)@[i]).wf(),
        final(zombies)@.len() <= old(zombies)@.len(),
        forall|i: int| 0 <= i < final(zombies)@.len() ==> (#[trigger] final(zombies)@[i]).zombie.health > 0,
        forall|i: int|
            0 <= i < final(zombies)@.len() ==> old(zombies)@.contains(#[trigger] final(zombies)@[i]),
{
    let n = zombies.len();
    let mut out: Vec<ZombieEntity> = Vec::new();
    let mut i: usize = 0;
    while i < n
        invariant
            n == zombies@.len(),
            n == old(zombies)@.len(),
            i <= n,
            out@.len() <= i,
            forall|k: int| 0 <= k < n ==> #[trigger] zombies@[k] == old(zombies)@[k],
            forall|k: int| 0 <= k < n ==> (#[trigger] zombies@[k]).wf(),
            forall|k: int| 0 <= k < out@.len() ==> (#[trigger] out@[k]).wf(),
            forall|k: int| 0 <= k < out@.len() ==> (#[trigger] out@[k]).zombie.health > 0,
            forall|k: int| 0 <= k < out@.len() ==> old(zombies)@.contains(#[trigger] out@[k]),
            surviving_zombies(old(zombies)@, 0) == out@ + surviving_zombies(
                old(zombies)@,
                i as int,
            ),
            effects@ == old(effects)@ + death_requests(old(zombies)@, 0).take(
                death_requests(old(zombies)@, 0).len() - death_requests(
                    old(zombies)@,
                    i as int,
                ).len(),
            ),
            death_requests(old(zombies)@, 0) == death_requests(old(zombies)@, 0).take(
                death_requests(old(zombies)@, 0).len() - death_requests(
                    old(zombies)@,
                    i as int,
                ).len(),
            ) + death_requests(old(zombies)@, i as int),
        decreases n - i,
    {
        let e = zombies[i];
        if e.zombie.health <= 0 {
            effects.push(DeathEffect { pos: e.pos, zombie_type: e.zombie.zombie_type });
        } else {
            out.push(e);
        }
        proof {
            let all = death_requests(old(zombies)@, 0);
            let prev = death_requests(old(zombies)@, i as int);
            let next = death_requests(old(zombies)@, i + 1);
            assert(prev.len() <= all.len() && next.len() <= prev.len()) by {
                lemma_death_requests_len(old(zombies)@, i as int);
            }
            if e.zombie.health <= 0 {
                assert(prev == seq![
                    DeathEffect { pos: e.pos, zombie_type: e.zombie.zombie_type },
                ] + next);
                assert(all.take(all.len() - next.len()) =~= all.take(all.len() - prev.len())
                    + seq![DeathEffect { pos: e.pos, zombie_type: e.zombie.zombie_type }]);
                assert(all =~= all.take(all.len() - next.len()) + next);
            } else {
                assert(surviving_zombies(old(zombies)@, 0) =~= out@ + surviving_zombies(
                    old(zombies)@,
                    i + 1,
                ));
                assert(old(zombies)@.contains(e)) by {
                    assert(old(zombies)@[i as int] == e);
                }
            }
        }
        i = i + 1;
    }
    proof {
        assert(surviving_zombies(old(zombies)@, n as int) =~= Seq::<ZombieEntity>::empty());
        assert(out@ + Seq::<ZombieEntity>::empty() =~= out@);
        assert(death_requests(old(zombies)@, n as int) =~= Seq::<DeathEffect>::empty());
        let all = death_requests(old(zombies)@, 0);
        assert(all.take(all.len() - 0) =~= all);
    }
    *zombies = out;
}

/// The suffix sequences of death requests shrink with the index.
proof fn lemma_death_requests_len(zs: Seq<ZombieEntity>, i: int)
    requires
        0 <= i <= zs.len(),
    ensures
        death_requests(zs, i).len() <= zs.len() - i,
        forall|j: int|
            i <= j <= zs.len() ==> #[trigger] death_requests(zs, j).len() <= death_requests(
                zs,
                i,
            ).len(),
    decreases zs.len() - i,
{
    if i < zs.len() {
        lemma_death_requests_len(zs, i + 1);
    }
}

/// A freshly spawned zombie entity of variant `t` standing at `pos`.
pub open spec fn make_zombie_entity(pos: Vec3, t: ZombieType) -> ZombieEntity {
    ZombieEntity {
        pos,
        zombie: crate::zombies::zombie_stats_spec(t),
        body: crate::zombies::zombie_body_spec(t),
        collider: Collider {
            radius: crate::zombies::zombie_radius_spec(t),
            collision_layer: CollisionLayer::Zombie,
            collision_mask: 22u32,
        },
        ground: GroundDetector { is_grounded: false, ground_distance: 0i64 },
        damage: CollisionDamage {
            damage: crate::zombies::zombie_contact_damage_spec(t),
            last_damage_time: 0u64,
        },
    }
}

impl ZombieEntity {
    /// Builds a fresh zombie entity of variant `t` standing at `pos`.
    pub fn spawn_at(pos: Vec3, t: ZombieType) -> (r: ZombieEntity)
        requires
            in_range(pos),
        ensures
            r == make_zombie_entity(pos, t),
            r.wf(),
    {
        let preset = crate::zombies::zombie_preset(t);
        ZombieEntity {
            pos,
            zombie: preset.0,
            body: preset.1,
            collider: preset.2,
            ground: GroundDetector::default(),
            damage: preset.3,
        }
    }
}

/// Runs the spawner for one tick: when the interval timer fires and the
/// population is below the cap, one zombie of a uniformly drawn variant
/// appears at a uniformly drawn spawn point. The cap is never exceeded.
pub fn spawn_zombies(zombies: &mut Vec<ZombieEntity>, timer: &mut ZombieSpawnTimer, dt: u64) -> (spawned:
    bool)
    requires
        forall|i: int| 0 <= i < old(zombies)@.len() ==> (#[trigger] old(zombies)@[i]).wf(),
        old(timer).wf(),
        old(zombies)@.len() <= old(timer).max_zombies,
        1 <= dt <= MAX_DT_MS,
    ensures
        final(timer).wf(),
        final(timer).max_zombies == old(timer).max_zombies,
        final(timer).spawn_points == old(timer).spawn_points,
        final(timer).interval_ms == old(timer).interval_ms,
        final(timer).elapsed_ms as int == if old(timer).elapsed_ms + dt >= old(
            timer,
        ).interval_ms {
            old(timer).elapsed_ms + dt - old(timer).interval_ms
        } else {
            old(timer).elapsed_ms + dt
        },
        spawned == (old(timer).elapsed_ms + dt >= old(timer).interval_ms && old(zombies)@.len()
            < old(timer).max_zombies),
        spawned ==> {
            &&& final(zombies)@.len() == old(zombies)@.len() + 1
            &&& forall|i: int|
                0 <= i < old(zombies)@.len() ==> #[trigger] final(zombies)@[i] == old(zombies)@[i]
            &&& exists|pi: int, ti: int|
                0 <= pi < old(timer).spawn_points@.len() && 0 <= ti < 4 && final(zombies)@.last()
                    == make_zombie_entity(
                    old(timer).spawn_points@[pi],
                    crate::zombies::type_of_roll(ti),
                )
        },
        !spawned ==> final(zombies)@ == old(zombies)@,
        forall|i: int| 0 <= i < final(zombies)@.len() ==> (#[trigger] final(zombies)@[i]).wf(),
        final(zombies)@.len() <= final(timer).max_zombies,
{
    let fired = timer.tick(dt);
    if fired && zombies.len() < timer.max_zombies {
        let np = timer.spawn_points.len();
        let pi = crate::zombies::pick_index(np);
        let p = timer.spawn_points[pi];
        let ti = crate::zombies::pick_index(4);
        let t = crate::zombies::type_from_roll(ti);
        let e = ZombieEntity::spawn_at(p, t);
        proof {
            assert(e == make_zombie_entity(p, crate::zombies::type_of_roll(ti as int)));
        }
        zombies.push(e);
        true
    } else {
        false
    }
}

impl World {
    /// Runs the enter/exit hooks of one applied transition, exactly once per
    /// transition. Entering a match from the main menu or the game-over
    /// screen resets the player to defaults and clears every zombie and
    /// bullet and the spawn timer; resuming from pause keeps everything;
    /// returning to the main menu destroys the match entities.
    pub fn run_transition_hooks(&mut self, from: GameState, to: GameState)
        requires
            old(self).wf(),
        ensures
            final(self).wf(),
            to == GameState::InGame && from != GameState::Paused ==> {
                &&& final(self).player == Some(PlayerEntity::spawn_spec())
                &&& final(self).zombies@.len() == 0
                &&& final(self).bullets@.len() == 0
                &&& final(self).spawn_timer.elapsed_ms == 0
            },
            to == GameState::MainMenu ==> {
                &&& final(self).player is None
                &&& final(self).zombies@.len() == 0
                &&& final(self).bullets@.len() == 0
            },
            !(to == GameState::InGame && from != GameState::Paused) && to != GameState::MainMenu
                ==> {
                &&& final(self).player == old(self).player
                &&& final(self).zombies == old(self).zombies
                &&& final(self).bullets == old(self).bullets
                &&& final(self).spawn_timer == old(self).spawn_timer
            },
            final(self).config == old(self).config,
            final(self).settings == old(self).settings,
            final(self).phase == old(self).phase,
            final(self).stats == old(self).stats,
            final(self).now_ms == old(self).now_ms,
            final(self).quit_requested == old(self).quit_requested,
    {
        if matches!(to, GameState::InGame) && !matches!(from, GameState::Paused) {
            self.player = Some(PlayerEntity::spawn());
            self.zombies.clear();
            self.bullets.clear();
            self.spawn_timer.elapsed_ms = 0;
        } else if matches!(to, GameState::MainMenu) {
            self.player = None;
            self.zombies.clear();
            self.bullets.clear();
        }
    }

    /// Handles one menu or input action: phase-transition buttons queue the
    /// matching transition, the settings screen's buttons adjust the
    /// configuration, and quitting from a menu raises the quit flag.
    pub fn menu_action(&mut self, action: ButtonAction) -> (accepted: bool)
        requires
            old(self).wf(),
        ensures
            final(self).wf(),
            final(self).config == if old(self).phase.current == GameState::Settings {
                adjust_config_spec(old(self).config, action)
            } else {
                old(self).config
            },
            final(self).quit_requested == (old(self).quit_requested || (action
                == ButtonAction::Quit && (old(self).phase.current == GameState::MainMenu
                || old(self).phase.current == GameState::GameOver))),
            final(self).phase.current == old(self).phase.current,
            accepted ==> (action_target(old(self).phase, action) matches Some(t)
                && final(self).phase == (PhaseMachine { pending: Some(t), ..old(self).phase })),
            !accepted ==> final(self).phase == old(self).phase,
            accepted == (old(self).phase.pending is None && (action_target(
                old(self).phase,
                action,
            ) matches Some(t) && allowed_transition(old(self).phase, t))),
            final(self).player == old(self).player,
            final(self).zombies == old(self).zombies,
            final(self).bullets == old(self).bullets,
            final(self).spawn_timer == old(self).spawn_timer,
            final(self).stats == old(self).stats,
            final(self).settings == old(self).settings,
            final(self).now_ms == old(self).now_ms,
    {
        if matches!(self.phase.current, GameState::Settings) {
            adjust_config(&mut self.config, action);
        }
        if matches!(action, ButtonAction::Quit) && (matches!(
            self.phase.current,
            GameState::MainMenu,
        ) || matches!(self.phase.current, GameState::GameOver)) {
            self.quit_requested = true;
        }
        let target: Option<GameState> = match self.phase.current {
            GameState::MainMenu => match action {
                ButtonAction::StartGame => Some(GameState::InGame),
                ButtonAction::Settings => Some(GameState::Settings),
                _ => None,
            },
            GameState::Paused => match action {
                ButtonAction::ResumeGame => Some(GameState::InGame),
                ButtonAction::Settings => Some(GameState::Settings),
                ButtonAction::MainMenu => Some(GameState::MainMenu),
                _ => None,
            },
            GameState::GameOver => match action {
                ButtonAction::RestartGame => Some(GameState::InGame),
                ButtonAction::MainMenu => Some(GameState::MainMenu),
                _ => None,
            },
            GameState::Settings => match action {
                ButtonAction::Back => Some(self.phase.settings_return),
                _ => None,
            },
            GameState::InGame => None,
        };
        match target {
            Some(t) => self.phase.request(t),
            None => false,
        }
    }
}

/// The transition that one playing tick queues when none is pending yet:
/// exhausted health queues the game-over transition, else a pause press
/// queues the pause; an already-pending transition is left as it is.
pub open spec fn ingame_pending_spec(
    pending: Option<GameState>,
    health: int,
    pause_pressed: bool,
) -> Option<GameState> {
    match pending {
        Some(t) => Some(t),
        None => if game_over_due(GameState::InGame, health) {
            Some(GameState::GameOver)
        } else if pause_pressed {
            Some(GameState::Paused)
        } else {
            None
        },
    }
}

/// The simulation clock after one tick; it saturates at `NOW_LIMIT_MS`.
pub open spec fn clock_step(now: int, dt: int) -> int {
    if now + dt > NOW_LIMIT_MS {
        NOW_LIMIT_MS as int
    } else {
        now + dt
    }
}

/// Every zombie after one steering pass toward the player at `ppos`.
pub open spec fn steer_all_spec(zs: Seq<ZombieEntity>, ppos: Vec3, dt: int) -> Seq<ZombieEntity> {
    Seq::new(zs.len(), |k: int| zombie_steer_spec(zs[k], ppos, dt))
}

/// Every zombie after gravity and integration.
pub open spec fn pre_physics_all_spec(zs: Seq<ZombieEntity>, gravity: int, dt: int) -> Seq<
    ZombieEntity,
> {
    Seq::new(zs.len(), |k: int| zombie_pre_physics_spec(zs[k], gravity, dt))
}

/// Every zombie after the melee contact pass against the player.
pub open spec fn melee_all_spec(
    zs: Seq<ZombieEntity>,
    ppos: Vec3,
    pradius: int,
    now: int,
    cd: int,
) -> Seq<ZombieEntity> {
    Seq::new(
        zs.len(),
        |k: int|
            if melee_hit(zs[k], ppos, pradius, now, cd) {
                melee_mark(zs[k], now)
            } else {
                zs[k]
            },
    )
}

/// Every zombie after arena bounds, ground detection and friction.
pub open spec fn post_physics_all_spec(zs: Seq<ZombieEntity>, ground_level: int, dt: int) -> Seq<
    ZombieEntity,
> {
    Seq::new(zs.len(), |k: int| zombie_post_physics_spec(zs[k], ground_level, dt))
}

/// Every zombie after its attack check against the player at `ppos`.
pub open spec fn attack_all_spec(zs: Seq<ZombieEntity>, ppos: Vec3, now: int) -> Seq<ZombieEntity> {
    Seq::new(
        zs.len(),
        |k: int|
            if attack_hit(zs[k], ppos, now) {
                attack_mark(zs[k], now)
            } else {
                zs[k]
            },
    )
}

/// Every bullet advanced by one tick of flight.
pub open spec fn move_bullets_all_spec(bs: Seq<BulletEntity>, dt: int) -> Seq<BulletEntity> {
    Seq::new(
        bs.len(),
        |k: int|
            BulletEntity {
                pos: crate::weapons::bullet_move_spec(
                    bs[k].pos,
                    bs[k].dir,
                    bs[k].bullet.speed as int,
                    dt,
                ),
                ..bs[k]
            },
    )
}

/// The player entity and the zombies after the movement half of one
/// playing tick, in system order: player steering from input, zombie
/// steering toward the player, gravity and integration for everyone, jump
/// handling, melee contact damage, pairwise resolution, arena bounds,
/// ground detection and friction for the player, the same for the zombies,
/// and finally the zombies' attack checks.
pub open spec fn match_physics_spec(
    pe: PlayerEntity,
    zs: Seq<ZombieEntity>,
    config: GameConfig,
    st: PhysicsSettings,
    input: TickInput,
    now: int,
) -> (PlayerEntity, Seq<ZombieEntity>) {
    let dt = input.dt_ms as int;
    let b1 = RigidBody {
        velocity: crate::player::player_move_spec(
            pe.body.velocity,
            input.move_dir,
            input.sprint,
            pe.ground.is_grounded,
            config.movement_speed as int,
            pe.player.acceleration as int,
            pe.player.air_control as int,
            dt,
        ),
        ..pe.body
    };
    let zs1 = steer_all_spec(zs, pe.pos, dt);
    let b2 = crate::physics::gravity_step(b1, pe.ground.is_grounded, st.gravity as int, dt);
    let pi = crate::physics::integrate_step(pe.pos, b2, dt);
    let zs2 = pre_physics_all_spec(zs1, st.gravity as int, dt);
    let jj = crate::physics::jump_step(
        pi.1,
        pe.jumper,
        pe.ground.is_grounded,
        input.jump_pressed,
        input.jump_released,
        st.jump_force as int,
    );
    let zs3 = melee_all_spec(
        zs2,
        pi.0,
        pe.collider.radius as int,
        now,
        st.player_damage_cooldown as int,
    );
    let h1 = melee_health(
        zs2,
        pi.0,
        pe.collider.radius as int,
        now,
        st.player_damage_cooldown as int,
        pe.player.health as int,
        0,
    );
    let zs4 = pairs_fold(zs3, st.collision_damping as int, 0);
    let ar = crate::physics::arena_step(pi.0, jj.0, pe.collider.radius as int);
    let gd = crate::physics::ground_step(ar.0, pe.collider.radius as int, st.ground_level as int);
    let jumper3 = Jumper {
        jump_count: if gd.is_grounded {
            0u32
        } else {
            jj.1.jump_count
        },
        ..jj.1
    };
    let b6 = crate::physics::friction_step(ar.1, gd.is_grounded, dt);
    let zs5 = post_physics_all_spec(zs4, st.ground_level as int, dt);
    let zs6 = attack_all_spec(zs5, ar.0, now);
    let h2 = attack_health(zs5, ar.0, now, h1, 0);
    (
        PlayerEntity {
            pos: ar.0,
            player: Player { health: h2 as i64, ..pe.player },
            body: b6,
            collider: pe.collider,
            ground: gd,
            jumper: jumper3,
        },
        zs6,
    )
}

/// The player, zombies, bullets, configuration, death-effect requests and
/// shot flag after the combat half of one playing tick, in system order:
/// the trigger pass, the spawning of one bullet per accepted shot with a
/// nonzero aim (at the 1.8-unit eye point plus the aim direction, with
/// stock stats), the visual-intensity signal, bullet flight, nearest-target
/// hit resolution, bullet expiry and the removal of dead zombies.
pub open spec fn match_combat_spec(
    pe: PlayerEntity,
    zs: Seq<ZombieEntity>,
    bs: Seq<BulletEntity>,
    config: GameConfig,
    input: TickInput,
    now: int,
) -> (PlayerEntity, Seq<ZombieEntity>, Seq<BulletEntity>, GameConfig, Seq<DeathEffect>, bool) {
    let dt = input.dt_ms as int;
    let p1 = crate::player::shooting_spec(pe.player, input.fire_held, now, dt);
    let fired = input.fire_held && now - pe.player.last_shot
        > crate::player::SHOT_INTERVAL_MS;
    let bs1 = if fired && (input.aim_dir.x != 0 || input.aim_dir.y != 0 || input.aim_dir.z != 0) {
        bs.push(
            BulletEntity {
                pos: add_spec(add_spec(pe.pos, Vec3 { x: 0, y: 1800, z: 0 }), input.aim_dir),
                dir: input.aim_dir,
                bullet: Bullet {
                    damage: 25_000i64,
                    speed: 50_000i64,
                    lifetime: 0u64,
                    max_lifetime: 3000u64,
                },
            },
        )
    } else {
        bs
    };
    let cfg1 = GameConfig {
        psychedelic_intensity: (500 + crate::fixp::scale(p1.psychedelic_charge as int, 500)) as i64,
        ..config
    };
    let bs2 = move_bullets_all_spec(bs1, dt);
    let cf = combat_fold(bs2, zs, p1, 0);
    let bs3 = surviving_bullets(cf.0, dt, 0);
    let zs1 = surviving_zombies(cf.1, 0);
    let effects = death_requests(cf.1, 0);
    (PlayerEntity { player: cf.2, ..pe }, zs1, bs3, cfg1, effects, fired)
}

impl World {
    /// Advances the world by one tick. Within the playing phase the systems
    /// run in their fixed order — steering, gravity, integration, jumping,
    /// collision resolution, arena bounds, ground detection, friction,
    /// combat, cleanup, spawning — then the game-over condition is checked,
    /// and finally the pending phase transition, if any, takes effect with
    /// its hooks. In every other phase only that phase's own bookkeeping
    /// runs. The playing tick's whole effect is stated below against
    /// `match_physics_spec` and `match_combat_spec`, with the spawner's two
    /// uniform draws bounded existentially; a playing tick without a player
    /// recovers as a no-op; exhausted health while playing ends the tick in
    /// the game-over phase; the pause key queues its transition in either
    /// direction. The world invariant is preserved, the population cap
    /// holds, and a tick that starts in the pause phase can never end in
    /// the game-over phase, whatever the player's health.
    #[verifier::rlimit(100)]
    pub fn tick(&mut self, input: TickInput) -> (out: TickOutput)
        requires
            old(self).wf(),
            in_range(input.move_dir),
            -1000 <= input.aim_dir.x <= 1000,
            -1000 <= input.aim_dir.y <= 1000,
            -1000 <= input.aim_dir.z <= 1000,
            1 <= input.dt_ms <= MAX_DT_MS,
        ensures
            final(self).wf(),
            final(self).zombies@.len() <= final(self).spawn_timer.max_zombies,
            old(self).phase.current == GameState::Paused ==> final(self).phase.current
                != GameState::GameOver,
            final(self).settings == old(self).settings,
            final(self).quit_requested == old(self).quit_requested,
            final(self).phase.pending is None,
            (old(self).phase.current == GameState::MainMenu || old(self).phase.current
                == GameState::Settings) && old(self).phase.pending is None ==> *final(self) == (
            World { now_ms: final(self).now_ms, ..*old(self) }),
            old(self).phase.current == GameState::Paused && !input.pause_pressed && old(self).phase.pending is None ==> *final(self) == (World {
                now_ms: final(self).now_ms,
                ..*old(self)
            }),
            old(self).phase.current == GameState::GameOver && old(self).phase.pending is None
                ==> *final(self) == (World {
                now_ms: final(self).now_ms,
                stats: final(self).stats,
                ..*old(self)
            }) && final(self).stats == (match old(self).player {
                Some(p) => high_score_spec(
                    old(self).stats,
                    GameState::GameOver,
                    p.player.score as int,
                ),
                None => old(self).stats,
            }),
            final(self).now_ms as int == clock_step(old(self).now_ms as int, input.dt_ms as int),
            old(self).phase.current == GameState::Paused ==> final(self).phase.current == (
            match old(self).phase.pending {
                Some(t) => t,
                None => if input.pause_pressed {
                    GameState::InGame
                } else {
                    GameState::Paused
                },
            }),
            old(self).phase.current == GameState::InGame ==> (match old(self).player {
                Some(pe0) => ({
                let now2 = clock_step(old(self).now_ms as int, input.dt_ms as int);
                let mp = match_physics_spec(
                    pe0,
                    old(self).zombies@,
                    old(self).config,
                    old(self).settings,
                    input,
                    now2,
                );
                let mc = match_combat_spec(
                    mp.0,
                    mp.1,
                    old(self).bullets@,
                    old(self).config,
                    input,
                    now2,
                );
                let spawned = old(self).spawn_timer.elapsed_ms + input.dt_ms >= old(self).spawn_timer.interval_ms && mc.1.len() < old(self).spawn_timer.max_zombies;
                &&& final(self).player == Some(mc.0)
                &&& final(self).bullets@ == mc.2
                &&& final(self).config == mc.3
                &&& out.death_effects@ == mc.4
                &&& out.shot_fired == mc.5
                &&& (spawned ==> final(self).zombies@.len() == mc.1.len() + 1 && final(self).zombies@.take(mc.1.len() as int) == mc.1 && (exists|pi: int, ti: int|
                    0 <= pi < old(self).spawn_timer.spawn_points@.len() && 0 <= ti < 4 && final(self).zombies@.last() == make_zombie_entity(
                        old(self).spawn_timer.spawn_points@[pi],
                        crate::zombies::type_of_roll(ti),
                    )))
                &&& (!spawned ==> final(self).zombies@ == mc.1)
                &&& final(self).stats == stats_tick_spec(
                    old(self).stats,
                    GameState::InGame,
                    input.dt_ms as int,
                )
                &&& final(self).phase.current == (match ingame_pending_spec(
                    old(self).phase.pending,
                    mc.0.player.health as int,
                    input.pause_pressed,
                ) {
                    Some(t) => t,
                    None => GameState::InGame,
                })
                }),
                None => ({
                    &&& final(self).player is None
                    &&& final(self).zombies == old(self).zombies
                    &&& final(self).bullets == old(self).bullets
                    &&& final(self).config == old(self).config
                    &&& final(self).spawn_timer == old(self).spawn_timer
                    &&& out.death_effects@.len() == 0
                    &&& !out.shot_fired
                    &&& final(self).stats == stats_tick_spec(
                        old(self).stats,
                        GameState::InGame,
                        input.dt_ms as int,
                    )
                    &&& final(self).phase.current == (match old(self).phase.pending {
                        Some(t) => t,
                        None => if input.pause_pressed {
                            GameState::Paused
                        } else {
                            GameState::InGame
                        },
                    })
                }),
            }),
    {
        let dt = input.dt_ms;
        if self.now_ms > NOW_LIMIT_MS - dt {
            self.now_ms = NOW_LIMIT_MS;
        } else {
            self.now_ms = self.now_ms + dt;
        }
        let now = self.now_ms;
        let mut effects: Vec<DeathEffect> = Vec::new();
        let mut fired = false;
        match self.phase.current {
            GameState::InGame => {
                let r = self.ingame_tick(input, now);
                effects = r.0;
                fired = r.1;
            },
            GameState::Paused => {
                if input.pause_pressed {
                    self.phase.request(GameState::InGame);
                }
            },
            GameState::GameOver => {
                match self.player {
                    Some(pe) => {
                        update_high_score(&mut self.stats, GameState::GameOver, pe.player.score);
                    },
                    None => {},
                }
            },
            GameState::MainMenu => {},
            GameState::Settings => {},
        }
        let taken = self.phase.apply_pending();
        match taken {
            Some(pair) => {
                self.run_transition_hooks(pair.0, pair.1);
            },
            None => {},
        }
        TickOutput { death_effects: effects, shot_fired: fired }
    }

    /// One tick of the playing phase: every simulation system in order,
    /// then the game-over check and the pause input. Transitions are only
    /// queued here; the phase itself does not change.
    #[verifier::rlimit(100)]
    #[verifier::rlimit(100)]
    fn ingame_tick(&mut self, input: TickInput, now: u64) -> (r: (Vec<DeathEffect>, bool))
        requires
            old(self).wf(),
            old(self).phase.current == GameState::InGame,
            now == old(self).now_ms,
            in_range(input.move_dir),
            -1000 <= input.aim_dir.x <= 1000,
            -1000 <= input.aim_dir.y <= 1000,
            -1000 <= input.aim_dir.z <= 1000,
            1 <= input.dt_ms <= MAX_DT_MS,
        ensures
            final(self).wf(),
            final(self).now_ms == old(self).now_ms,
            final(self).phase.current == old(self).phase.current,
            final(self).settings == old(self).settings,
            final(self).quit_requested == old(self).quit_requested,
            final(self).stats == stats_tick_spec(
                old(self).stats,
                GameState::InGame,
                input.dt_ms as int,
            ),
            old(self).player matches Some(pe0) ==> ({
                let mp = match_physics_spec(
                    pe0,
                    old(self).zombies@,
                    old(self).config,
                    old(self).settings,
                    input,
                    now as int,
                );
                let mc = match_combat_spec(
                    mp.0,
                    mp.1,
                    old(self).bullets@,
                    old(self).config,
                    input,
                    now as int,
                );
                let spawned = old(self).spawn_timer.elapsed_ms + input.dt_ms >= old(self).spawn_timer.interval_ms && mc.1.len() < old(self).spawn_timer.max_zombies;
                &&& final(self).player == Some(mc.0)
                &&& final(self).bullets@ == mc.2
                &&& final(self).config == mc.3
                &&& r.0@ == mc.4
                &&& r.1 == mc.5
                &&& final(self).spawn_timer.interval_ms == old(self).spawn_timer.interval_ms
                &&& final(self).spawn_timer.max_zombies == old(self).spawn_timer.max_zombies
                &&& final(self).spawn_timer.spawn_points == old(self).spawn_timer.spawn_points
                &&& final(self).spawn_timer.elapsed_ms as int == if old(self).spawn_timer.elapsed_ms + input.dt_ms >= old(self).spawn_timer.interval_ms {
                    old(self).spawn_timer.elapsed_ms + input.dt_ms - old(self).spawn_timer.interval_ms
                } else {
                    old(self).spawn_timer.elapsed_ms + input.dt_ms
                }
                &&& (spawned ==> final(self).zombies@.len() == mc.1.len() + 1 && final(self).zombies@.take(mc.1.len() as int) == mc.1 && (exists|pi: int, ti: int|
                    0 <= pi < old(self).spawn_timer.spawn_points@.len() && 0 <= ti < 4 && final(self).zombies@.last() == make_zombie_entity(
                        old(self).spawn_timer.spawn_points@[pi],
                        crate::zombies::type_of_roll(ti),
                    )))
                &&& (!spawned ==> final(self).zombies@ == mc.1)
                &&& final(self).phase == (PhaseMachine {
                    pending: ingame_pending_spec(
                        old(self).phase.pending,
                        mc.0.player.health as int,
                        input.pause_pressed,
                    ),
                    ..old(self).phase
                })
            }),
            old(self).player is None ==> ({
                &&& final(self).player is None
                &&& final(self).zombies == old(self).zombies
                &&& final(self).bullets == old(self).bullets
                &&& final(self).config == old(self).config
                &&& final(self).spawn_timer == old(self).spawn_timer
                &&& r.0@.len() == 0
                &&& !r.1
                &&& final(self).phase == (PhaseMachine {
                    pending: match old(self).phase.pending {
                        Some(t) => Some(t),
                        None => if input.pause_pressed {
                            Some(GameState::Paused)
                        } else {
                            Option::<GameState>::None
                        },
                    },
                    ..old(self).phase
                })
            }),
    {
        let dt = input.dt_ms;
        let mut effects: Vec<DeathEffect> = Vec::new();
        let mut fired = false;
        match self.player {
            Some(pe_in) => {
                let pe1 = self.match_physics(pe_in, input, now);
                proof {
                    let mp = match_physics_spec(
                        pe_in,
                        old(self).zombies@,
                        old(self).config,
                        old(self).settings,
                        input,
                        now as int,
                    );
                    assert(pe1 == mp.0);
                    assert(self.zombies@ == mp.1);
                    assert(self.bullets@ == old(self).bullets@);
                    assert(self.config == old(self).config);
                }
                let r = self.match_combat(pe1, input, now);
                let pe = r.0;
                effects = r.1;
                fired = r.2;
                proof {
                    let mp = match_physics_spec(
                        pe_in,
                        old(self).zombies@,
                        old(self).config,
                        old(self).settings,
                        input,
                        now as int,
                    );
                    let mc = match_combat_spec(
                        mp.0,
                        mp.1,
                        old(self).bullets@,
                        old(self).config,
                        input,
                        now as int,
                    );
                    assert(pe == mc.0);
                    assert(self.zombies@ == mc.1);
                    assert(self.bullets@ == mc.2);
                    assert(self.config == mc.3);
                    assert(effects@ == mc.4);
                    assert(fired == mc.5);
                }
                let ghost zs_pre = self.zombies@;
                spawn_zombies(&mut self.zombies, &mut self.spawn_timer, dt);
                proof {
                    assert(self.zombies@.take(zs_pre.len() as int) =~= zs_pre);
                }
                if check_game_over(GameState::InGame, pe.player.health) {
                    self.phase.request(GameState::GameOver);
                }
                if input.pause_pressed {
                    self.phase.request(GameState::Paused);
                }
                self.player = Some(pe);
            },
            None => {
                if input.pause_pressed {
                    self.phase.request(GameState::Paused);
                }
            },
        }
        update_game_stats(&mut self.stats, GameState::InGame, dt);
        (effects, fired)
    }

    /// The movement half of one playing tick: player and zombie steering,
    /// gravity, integration, jumping, melee contact, pairwise resolution,
    /// arena bounds, ground detection, friction and zombie attacks. Only
    /// the zombies and the returned player entity change.
    #[verifier::rlimit(100)]
    fn match_physics(&mut self, pe_in: PlayerEntity, input: TickInput, now: u64) -> (pe: PlayerEntity)
        requires
            old(self).wf(),
            now == old(self).now_ms,
            pe_in.wf(),
            pe_in.player.last_shot <= now,
            in_range(input.move_dir),
            1 <= input.dt_ms <= MAX_DT_MS,
        ensures
            final(self).wf(),
            pe.wf(),
            pe.player.last_shot <= now,
            final(self).player == old(self).player,
            final(self).phase == old(self).phase,
            final(self).settings == old(self).settings,
            final(self).stats == old(self).stats,
            final(self).config == old(self).config,
            final(self).bullets == old(self).bullets,
            final(self).spawn_timer == old(self).spawn_timer,
            final(self).now_ms == old(self).now_ms,
            final(self).quit_requested == old(self).quit_requested,
            (pe, final(self).zombies@) == match_physics_spec(
                pe_in,
                old(self).zombies@,
                old(self).config,
                old(self).settings,
                input,
                now as int,
            ),
    {
        let ghost zs0 = self.zombies@;
        let dt = input.dt_ms;
        let mut pe = pe_in;
        crate::player::player_movement(
            &mut pe.body,
            &pe.player,
            &pe.ground,
            input.move_dir,
            input.sprint,
            self.config.movement_speed,
            dt,
        );
        steer_zombies(&mut self.zombies, pe.pos, dt);
        proof {
            assert(self.zombies@ =~= steer_all_spec(zs0, pe_in.pos, dt as int));
        }
        crate::physics::apply_gravity_body(
            &mut pe.body,
            pe.ground.is_grounded,
            self.settings.gravity,
            dt,
        );
        crate::physics::integrate_body(&mut pe.pos, &mut pe.body, dt);
        zombie_pre_physics_pass(&mut self.zombies, self.settings.gravity, dt);
        proof {
            assert(self.zombies@ =~= pre_physics_all_spec(
                steer_all_spec(zs0, pe_in.pos, dt as int),
                old(self).settings.gravity as int,
                dt as int,
            ));
        }
        crate::physics::handle_jumping_body(
            &mut pe.body,
            &mut pe.jumper,
            pe.ground.is_grounded,
            input.jump_pressed,
            input.jump_released,
            self.settings.jump_force,
        );
        let ghost zs2 = self.zombies@;
        let ghost pos_mid = pe.pos;
        player_zombie_contact(
            &mut self.zombies,
            &mut pe,
            self.settings.player_damage_cooldown,
            now,
        );
        proof {
            assert(self.zombies@ =~= melee_all_spec(
                zs2,
                pos_mid,
                pe_in.collider.radius as int,
                now as int,
                old(self).settings.player_damage_cooldown as int,
            ));
        }
        resolve_zombie_pairs(&mut self.zombies, self.settings.collision_damping);
        crate::physics::check_arena_bounds_body(&mut pe.pos, &mut pe.body, pe.collider.radius);
        let ppos = pe.pos;
        crate::physics::apply_ground_detection_body(
            &ppos,
            &mut pe.ground,
            &mut pe.jumper,
            pe.collider.radius,
            self.settings.ground_level,
        );
        crate::physics::apply_friction_body(&mut pe.body, pe.ground.is_grounded, dt);
        let ghost zs4 = self.zombies@;
        zombie_post_physics_pass(&mut self.zombies, self.settings.ground_level, dt);
        proof {
            assert(self.zombies@ =~= post_physics_all_spec(
                zs4,
                old(self).settings.ground_level as int,
                dt as int,
            ));
        }
        let ghost zs5 = self.zombies@;
        zombie_attacks(&mut self.zombies, &mut pe, now);
        proof {
            assert(self.zombies@ =~= attack_all_spec(zs5, pe.pos, now as int));
            let r = match_physics_spec(
                pe_in,
                zs0,
                old(self).config,
                old(self).settings,
                input,
                now as int,
            );
            assert(r.1 == self.zombies@);
            assert(r.0 == pe);
        }
        pe
    }

    /// The combat half of one playing tick: shooting and the charge meter,
    /// bullet spawning and flight, nearest-target hits, and bullet and
    /// corpse cleanup with death-effect requests.
    #[verifier::rlimit(100)]
    fn match_combat(&mut self, pe_in: PlayerEntity, input: TickInput, now: u64) -> (r: (
        PlayerEntity,
        Vec<DeathEffect>,
        bool,
    ))
        requires
            old(self).wf(),
            now == old(self).now_ms,
            pe_in.wf(),
            pe_in.player.last_shot <= now,
            -1000 <= input.aim_dir.x <= 1000,
            -1000 <= input.aim_dir.y <= 1000,
            -1000 <= input.aim_dir.z <= 1000,
            1 <= input.dt_ms <= MAX_DT_MS,
        ensures
            final(self).wf(),
            r.0.wf(),
            r.0.player.last_shot <= now,
            final(self).player == old(self).player,
            final(self).phase == old(self).phase,
            final(self).settings == old(self).settings,
            final(self).stats == old(self).stats,
            final(self).spawn_timer == old(self).spawn_timer,
            final(self).now_ms == old(self).now_ms,
            final(self).quit_requested == old(self).quit_requested,
            (r.0, final(self).zombies@, final(self).bullets@, final(self).config, r.1@, r.2)
                == match_combat_spec(
                pe_in,
                old(self).zombies@,
                old(self).bullets@,
                old(self).config,
                input,
                now as int,
            ),
    {
        let dt = input.dt_ms;
        let mut pe = pe_in;
        let mut effects: Vec<DeathEffect> = Vec::new();
        let ghost bs0 = self.bullets@;
        let fired = crate::player::handle_shooting(&mut pe.player, input.fire_held, now, dt);
        if fired && (input.aim_dir.x != 0 || input.aim_dir.y != 0 || input.aim_dir.z != 0) {
            let eye = pe.pos.add(Vec3 { x: 0, y: 1800, z: 0 });
            let muzzle = eye.add(input.aim_dir);
            self.bullets.push(
                BulletEntity { pos: muzzle, dir: input.aim_dir, bullet: Bullet::default() },
            );
        }
        proof {
            crate::fixp::lemma_scale_shrinks(pe.player.psychedelic_charge as int, 500);
        }
        self.config.psychedelic_intensity = 500 + crate::fixp::scale_i64(
            pe.player.psychedelic_charge,
            500,
        );
        let ghost bs1 = self.bullets@;
        move_bullets(&mut self.bullets, dt);
        proof {
            assert(self.bullets@ =~= move_bullets_all_spec(bs1, dt as int));
        }
        resolve_bullet_hits(&mut self.bullets, &mut self.zombies, &mut pe.player);
        cleanup_bullets(&mut self.bullets, dt);
        cleanup_dead_zombies(&mut self.zombies, &mut effects);
        proof {
            let mc = match_combat_spec(
                pe_in,
                old(self).zombies@,
                bs0,
                old(self).config,
                input,
                now as int,
            );
            assert(effects@ =~= mc.4);
            assert(pe == mc.0);
            assert(self.zombies@ == mc.1);
            assert(self.bullets@ == mc.2);
        }
        (pe, effects, fired)
    }
}

} // verus!
