use void_core::collision::{layers_interact, resolve_pair};
use void_core::physics::{
    apply_friction_body, apply_gravity_body, check_arena_bounds_body, integrate_body, Collider,
    CollisionLayer, GroundDetector, Jumper, PhysicsSettings, RigidBody, ARENA_HALF,
};
use void_core::player::{handle_shooting, Player};
use void_core::vec3::Vec3;
use void_core::weapons::{apply_bullet_hit, Bullet};
use void_core::zombies::{zombie_preset, Zombie, ZombieSpawnTimer, ZombieType};

fn mag_sq(v: Vec3) -> i128 {
    (v.x as i128) * (v.x as i128) + (v.y as i128) * (v.y as i128) + (v.z as i128) * (v.z as i128)
}

/// A grounded body with no input loses speed every tick until its velocity
/// is exactly zero, and never speeds up again.
#[test]
fn grounded_velocity_decays_to_exact_zero() {
    let mut body = RigidBody {
        velocity: Vec3 { x: 3000, y: 0, z: -2000 },
        ..RigidBody::default()
    };
    let mut pos = Vec3 { x: 0, y: 500, z: 0 };
    let mut last = mag_sq(body.velocity);
    let mut reached_zero = false;
    for _ in 0..500 {
        apply_gravity_body(&mut body, true, -30_000, 50);
        integrate_body(&mut pos, &mut body, 50);
        check_arena_bounds_body(&mut pos, &mut body, 500);
        apply_friction_body(&mut body, true, 50);
        let m = mag_sq(body.velocity);
        if last == 0 {
            assert_eq!(m, 0, "zero velocity must be absorbing");
        } else {
            assert!(m < last, "speed must strictly decrease while nonzero");
        }
        if m == 0 {
            reached_zero = true;
        }
        last = m;
    }
    assert!(reached_zero, "velocity must reach exactly zero");
    assert_eq!(body.velocity, Vec3 { x: 0, y: 0, z: 0 });
}

/// A body crossing the +X wall at 10 units/s with restitution one half
/// rebounds at exactly -5 units/s from the wall minus its radius.
#[test]
fn arena_wall_reflection() {
    let mut body = RigidBody {
        velocity: Vec3 { x: 10_000, y: 0, z: 0 },
        restitution: 500,
        ..RigidBody::default()
    };
    let radius = 500;
    let mut pos = Vec3 { x: ARENA_HALF, y: 1000, z: 0 };
    check_arena_bounds_body(&mut pos, &mut body, radius);
    assert_eq!(pos.x, ARENA_HALF - radius);
    assert_eq!(body.velocity, Vec3 { x: -5000, y: 0, z: 0 });
}

/// Two overlapping equal-mass bodies are each displaced by half the
/// overlap, and the two displacements sum to the full overlap.
#[test]
fn equal_mass_separation_is_symmetric() {
    let mk = || RigidBody { mass: 80_000, ..RigidBody::default() };
    let mut body_a = mk();
    let mut body_b = mk();
    let mut pos_a = Vec3 { x: 1000, y: 500, z: 0 };
    let mut pos_b = Vec3 { x: 0, y: 500, z: 0 };
    // distance 1000, radii 600 + 600, overlap 200
    resolve_pair(&mut pos_a, &mut body_a, &mut pos_b, &mut body_b, 600, 600, 500);
    assert_eq!(pos_a.x, 1100, "first body moves +100 (half the overlap)");
    assert_eq!(pos_b.x, -100, "second body moves -100 (half the overlap)");
    assert_eq!(pos_a.x - pos_b.x, 1200, "full overlap recovered");
    assert_eq!(pos_a.y, 500);
    assert_eq!(pos_b.y, 500);
}

/// A heavier partner is displaced less: displacements still sum to the
/// whole overlap.
#[test]
fn unequal_mass_separation_sums_to_overlap() {
    let mut body_a = RigidBody { mass: 120_000, ..RigidBody::default() };
    let mut body_b = RigidBody { mass: 60_000, ..RigidBody::default() };
    let mut pos_a = Vec3 { x: 1000, y: 500, z: 0 };
    let mut pos_b = Vec3 { x: 0, y: 500, z: 0 };
    resolve_pair(&mut pos_a, &mut body_a, &mut pos_b, &mut body_b, 600, 600, 500);
    let disp_a = pos_a.x - 1000;
    let disp_b = -(pos_b.x - 0);
    assert_eq!(disp_a + disp_b, 200, "total separation equals the overlap");
    assert!(disp_a < disp_b, "the heavier body is displaced less");
}

/// Coincident centres (zero distance) skip resolution for the tick.
#[test]
fn coincident_pair_is_skipped() {
    let mut body_a = RigidBody::default();
    let mut body_b = RigidBody::default();
    let p = Vec3 { x: 100, y: 500, z: 0 };
    let mut pos_a = p;
    let mut pos_b = p;
    resolve_pair(&mut pos_a, &mut body_a, &mut pos_b, &mut body_b, 600, 600, 500);
    assert_eq!(pos_a, p);
    assert_eq!(pos_b, p);
}

/// A 25-damage hit on a 30-health zombie leaves 5 health and no kill; the
/// second hit kills, counts exactly one kill and awards the bonus once.
#[test]
fn two_hits_kill_once() {
    let mut zombie = Zombie::default();
    let mut player = Player::default();
    assert_eq!(zombie.health, 30_000);
    let died = apply_bullet_hit(&mut zombie, &mut player, 25_000);
    assert!(!died);
    assert_eq!(zombie.health, 5_000);
    assert_eq!(player.kill_count, 0);
    assert_eq!(player.score, 10);
    let died = apply_bullet_hit(&mut zombie, &mut player, 25_000);
    assert!(died);
    assert_eq!(zombie.health, -20_000);
    assert_eq!(player.kill_count, 1);
    assert_eq!(player.score, 10 + 10 + 50);
}

#[test]
fn shooting_cadence_and_charge() {
    let mut player = Player::default();
    // first trigger pull at t=200 fires
    assert!(handle_shooting(&mut player, true, 200, 50));
    assert!(player.is_shooting);
    assert_eq!(player.last_shot, 200);
    assert_eq!(player.psychedelic_charge, 100);
    // 50 ms later: within the 100 ms interval, no shot, but the held
    // trigger keeps the shooting state set
    assert!(!handle_shooting(&mut player, true, 250, 50));
    assert!(player.is_shooting);
    // 150 ms after the first shot: fires again
    assert!(handle_shooting(&mut player, true, 350, 50));
    assert_eq!(player.psychedelic_charge, 200);
    // releasing the trigger clears the state and decays the meter by half
    // per second
    assert!(!handle_shooting(&mut player, false, 400, 100));
    assert!(!player.is_shooting);
    assert_eq!(player.psychedelic_charge, 150);
    // decay never goes below zero
    for t in 0..20 {
        handle_shooting(&mut player, false, 500 + t * 100, 100);
    }
    assert_eq!(player.psychedelic_charge, 0);
}

#[test]
fn charge_meter_caps_at_full() {
    let mut player = Player::default();
    for i in 0..20 {
        handle_shooting(&mut player, true, 200 * (i + 1), 50);
    }
    assert_eq!(player.psychedelic_charge, 1000);
}

#[test]
fn layer_masks_require_both_directions() {
    let player = Collider {
        radius: 500,
        collision_layer: CollisionLayer::Player,
        collision_mask: CollisionLayer::Zombie.mask() | CollisionLayer::Environment.mask(),
    };
    let zombie = Collider {
        radius: 600,
        collision_layer: CollisionLayer::Zombie,
        collision_mask: CollisionLayer::Player.mask() | CollisionLayer::Zombie.mask()
            | CollisionLayer::Environment.mask(),
    };
    let bullet = Collider {
        radius: 100,
        collision_layer: CollisionLayer::Bullet,
        collision_mask: 0xff,
    };
    assert!(layers_interact(&player, &zombie));
    assert!(layers_interact(&zombie, &zombie));
    // the zombie's mask has no bullet bit, so one direction fails
    assert!(!layers_interact(&bullet, &zombie));
    assert!(!layers_interact(&zombie, &bullet));
}

#[test]
fn collision_layer_bits() {
    assert_eq!(CollisionLayer::Default.mask(), 1);
    assert_eq!(CollisionLayer::Player.mask(), 2);
    assert_eq!(CollisionLayer::Zombie.mask(), 4);
    assert_eq!(CollisionLayer::Bullet.mask(), 8);
    assert_eq!(CollisionLayer::Environment.mask(), 16);
}

#[test]
fn zombie_presets_match_their_variants() {
    let (z, b, c, d) = zombie_preset(ZombieType::Basic);
    assert_eq!((z.health, z.speed, z.damage, z.attack_range), (30_000, 2000, 10_000, 2000));
    assert_eq!((b.mass, b.friction, b.restitution, b.drag), (80_000, 700, 100, 850));
    assert_eq!(c.radius, 600);
    assert_eq!(d.damage, 10_000);

    let (z, b, c, d) = zombie_preset(ZombieType::Fast);
    assert_eq!((z.health, z.speed), (15_000, 4000));
    assert_eq!(b.mass, 60_000);
    assert_eq!(c.radius, 500);
    assert_eq!(d.damage, 5_000);

    let (z, b, c, d) = zombie_preset(ZombieType::Heavy);
    assert_eq!((z.health, z.speed, z.damage), (60_000, 1000, 20_000));
    assert_eq!(b.mass, 120_000);
    assert_eq!(c.radius, 800);
    assert_eq!(d.damage, 20_000);

    let (z, b, c, d) = zombie_preset(ZombieType::Exploder);
    assert_eq!((z.health, z.speed, z.damage, z.attack_range), (10_000, 3000, 50_000, 5000));
    assert_eq!(b.mass, 50_000);
    assert_eq!(c.radius, 400);
    assert_eq!(d.damage, 50_000);
}

#[test]
fn defaults_match_stock_tuning() {
    let s = PhysicsSettings::default();
    assert_eq!(s.gravity, -30_000);
    assert_eq!(s.jump_force, 15_000);
    assert_eq!(s.player_damage_cooldown, 1000);
    assert_eq!(s.collision_damping, 500);
    let b = RigidBody::default();
    assert_eq!((b.mass, b.friction, b.restitution, b.drag), (1000, 800, 100, 980));
    assert!(!b.is_kinematic);
    let c = Collider::default();
    assert_eq!(c.radius, 500);
    assert_eq!(c.collision_mask, 0xff);
    let g = GroundDetector::default();
    assert!(!g.is_grounded);
    let j = Jumper::default();
    assert!(j.can_jump);
    assert_eq!(j.max_jumps, 1);
    let bullet = Bullet::default();
    assert_eq!((bullet.damage, bullet.speed, bullet.max_lifetime), (25_000, 50_000, 3000));
    let timer = ZombieSpawnTimer::default();
    assert_eq!(timer.interval_ms, 2000);
    assert_eq!(timer.max_zombies, 20);
    assert_eq!(timer.spawn_points.len(), 8);
}

#[test]
fn spawn_timer_fires_on_interval() {
    let mut timer = ZombieSpawnTimer::default();
    assert!(!timer.tick(1000));
    assert!(timer.tick(1000));
    assert_eq!(timer.elapsed_ms, 0);
    assert!(!timer.tick(999));
    assert!(timer.tick(1001));
}

#[test]
fn gravity_skips_grounded_and_kinematic_bodies() {
    let mut body = RigidBody::default();
    apply_gravity_body(&mut body, true, -30_000, 100);
    assert_eq!(body.velocity.y, 0);
    apply_gravity_body(&mut body, false, -30_000, 100);
    assert_eq!(body.velocity.y, -3000);
    let mut kin = RigidBody { is_kinematic: true, ..RigidBody::default() };
    apply_gravity_body(&mut kin, false, -30_000, 100);
    assert_eq!(kin.velocity.y, 0);
}

#[test]
fn anti_jitter_floor_snaps_to_zero() {
    // 9 milli-units/s has a squared speed below the floor of 100
    let mut body = RigidBody {
        velocity: Vec3 { x: 9, y: 0, z: 0 },
        drag: 1000,
        ..RigidBody::default()
    };
    let mut pos = Vec3 { x: 0, y: 500, z: 0 };
    integrate_body(&mut pos, &mut body, 50);
    assert_eq!(body.velocity, Vec3 { x: 0, y: 0, z: 0 });
}
