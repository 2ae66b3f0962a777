use void_core::motion::{apply_stopping, clamp_horizontal, steer_horizontal};
use void_core::physics::{handle_jumping_body, GroundDetector, Jumper, RigidBody};
use void_core::player::player_movement;
use void_core::vec3::Vec3;
use void_core::weapons::move_bullet;
use void_core::world::{player_zombie_contact, zombie_attacks, PlayerEntity, ZombieEntity};
use void_core::zombies::{zombie_movement, ZombieType};

fn grounded() -> GroundDetector {
    GroundDetector { is_grounded: true, ground_distance: 0 }
}

#[test]
fn steering_accelerates_toward_target_and_clamps() {
    let mut body = RigidBody::default();
    // full-strength correction toward +x at 4 units/s
    steer_horizontal(&mut body, Vec3 { x: 1000, y: 0, z: 0 }, 4000, 1000);
    assert_eq!(body.velocity, Vec3 { x: 4000, y: 0, z: 0 });
    // an overshooting factor is cut back to the speed limit
    steer_horizontal(&mut body, Vec3 { x: 1000, y: 0, z: 0 }, 4000, 900_000);
    assert_eq!(body.velocity.x, 4000);
    assert_eq!(body.velocity.z, 0);
}

#[test]
fn clamp_leaves_slow_bodies_alone() {
    let mut body = RigidBody {
        velocity: Vec3 { x: 2000, y: -7000, z: 1000 },
        ..RigidBody::default()
    };
    clamp_horizontal(&mut body, 5000);
    assert_eq!(body.velocity, Vec3 { x: 2000, y: -7000, z: 1000 });
    clamp_horizontal(&mut body, 1000);
    // horizontal part renormalized to about one unit/s, vertical untouched
    assert_eq!(body.velocity.y, -7000);
    let hx = body.velocity.x as i128;
    let hz = body.velocity.z as i128;
    assert!(hx * hx + hz * hz <= 1000 * 1000);
    assert!(hx * hx + hz * hz > 900 * 900, "clamping should not collapse the speed");
}

#[test]
fn clamp_never_exceeds_the_cap() {
    let mut body = RigidBody {
        velocity: Vec3 { x: 2000, y: 0, z: 1000 },
        ..RigidBody::default()
    };
    clamp_horizontal(&mut body, 1000);
    let hx = body.velocity.x as i128;
    let hz = body.velocity.z as i128;
    assert!(hx * hx + hz * hz <= 1000 * 1000);
    // even milli-scale caps hold exactly
    let mut tiny = RigidBody {
        velocity: Vec3 { x: 1, y: 0, z: 1 },
        ..RigidBody::default()
    };
    clamp_horizontal(&mut tiny, 1);
    let tx = tiny.velocity.x as i128;
    let tz = tiny.velocity.z as i128;
    assert!(tx * tx + tz * tz <= 1);
}

#[test]
fn stopping_factor_scales_horizontal_only() {
    let mut body = RigidBody {
        velocity: Vec3 { x: 1000, y: 4000, z: -500 },
        ..RigidBody::default()
    };
    apply_stopping(&mut body, 900);
    assert_eq!(body.velocity, Vec3 { x: 900, y: 4000, z: -450 });
}

#[test]
fn player_input_moves_and_brakes() {
    let mut body = RigidBody::default();
    let player = void_core::player::Player::default();
    // strong input tick: accelerate toward +z
    player_movement(&mut body, &player, &grounded(), Vec3 { x: 0, y: 0, z: 500 }, false, 5000, 100);
    assert!(body.velocity.z > 0, "input must produce forward velocity");
    assert_eq!(body.velocity.x, 0);
    let moving = body.velocity.z;
    // no input while grounded: the stopping factor brakes
    player_movement(&mut body, &player, &grounded(), Vec3 { x: 0, y: 0, z: 0 }, false, 5000, 100);
    assert_eq!(body.velocity.z, moving * 900 / 1000);
}

#[test]
fn sprint_raises_the_speed_cap() {
    let player = void_core::player::Player::default();
    let dir = Vec3 { x: 1000, y: 0, z: 0 };
    let mut walk = RigidBody::default();
    let mut sprint = RigidBody::default();
    for _ in 0..50 {
        player_movement(&mut walk, &player, &grounded(), dir, false, 5000, 100);
        player_movement(&mut sprint, &player, &grounded(), dir, true, 5000, 100);
    }
    assert_eq!(walk.velocity.x, 5000, "walking converges to the base speed");
    assert_eq!(sprint.velocity.x, 7500, "sprinting converges to one and a half times it");
}

#[test]
fn zombie_chases_until_in_range_then_brakes() {
    let (zombie, mut body, _, _) = void_core::zombies::zombie_preset(ZombieType::Basic);
    let zpos = Vec3 { x: 0, y: 600, z: 0 };
    let far_player = Vec3 { x: 10_000, y: 600, z: 0 };
    zombie_movement(&mut body, &zombie, &zpos, &far_player, true, 100);
    assert!(body.velocity.x > 0, "outside attack range the zombie closes in");
    // within attack range (2 units) the zombie brakes instead
    let near_player = Vec3 { x: 1500, y: 600, z: 0 };
    let before = body.velocity.x;
    zombie_movement(&mut body, &zombie, &zpos, &near_player, true, 100);
    assert_eq!(body.velocity.x, before * 800 / 1000);
}

#[test]
fn zombie_at_player_position_only_brakes() {
    let (zombie, mut body, _, _) = void_core::zombies::zombie_preset(ZombieType::Fast);
    body.velocity = Vec3 { x: 1000, y: 0, z: 0 };
    let p = Vec3 { x: 500, y: 600, z: 0 };
    zombie_movement(&mut body, &zombie, &p, &p, true, 100);
    assert_eq!(body.velocity.x, 800, "zero distance is within range: brake, no steering");
}

#[test]
fn jumping_fires_once_per_press() {
    let mut body = RigidBody::default();
    let mut jumper = Jumper::default();
    handle_jumping_body(&mut body, &mut jumper, true, true, false, 15_000);
    assert_eq!(body.velocity.y, 15_000);
    assert!(!jumper.can_jump);
    assert_eq!(jumper.jump_count, 1);
    // holding the key does not jump again
    body.velocity.y = 0;
    handle_jumping_body(&mut body, &mut jumper, false, true, false, 15_000);
    assert_eq!(body.velocity.y, 0);
    // releasing re-arms, but the air jump is spent until grounded
    handle_jumping_body(&mut body, &mut jumper, false, false, true, 15_000);
    assert!(jumper.can_jump);
    handle_jumping_body(&mut body, &mut jumper, false, true, false, 15_000);
    assert_eq!(body.velocity.y, 0, "single-jump body cannot jump in the air");
    // grounded again: the press works
    handle_jumping_body(&mut body, &mut jumper, true, true, false, 15_000);
    assert_eq!(body.velocity.y, 15_000);
}

#[test]
fn melee_contact_respects_cooldown() {
    let mut player = PlayerEntity::spawn();
    let mut zombies = vec![ZombieEntity::spawn_at(player.pos, ZombieType::Basic)];
    let health0 = player.player.health;
    // first contact at t=2000 hits (cooldown measured from time zero)
    player_zombie_contact(&mut zombies, &mut player, 1000, 2000);
    assert_eq!(player.player.health, health0 - 10_000);
    assert_eq!(zombies[0].damage.last_damage_time, 2000);
    // half a second later the cooldown still runs
    player_zombie_contact(&mut zombies, &mut player, 1000, 2500);
    assert_eq!(player.player.health, health0 - 10_000);
    // past the cooldown the next hit lands
    player_zombie_contact(&mut zombies, &mut player, 1000, 3100);
    assert_eq!(player.player.health, health0 - 20_000);
}

#[test]
fn zombie_attack_respects_range_and_cooldown() {
    let mut player = PlayerEntity::spawn();
    player.pos = Vec3 { x: 0, y: 1000, z: 0 };
    let near = ZombieEntity::spawn_at(Vec3 { x: 1000, y: 1000, z: 0 }, ZombieType::Basic);
    let far = ZombieEntity::spawn_at(Vec3 { x: 20_000, y: 1000, z: 0 }, ZombieType::Basic);
    let mut zombies = vec![near, far];
    let health0 = player.player.health;
    zombie_attacks(&mut zombies, &mut player, 2000);
    assert_eq!(player.player.health, health0 - 10_000, "only the zombie in range attacks");
    assert_eq!(zombies[0].zombie.last_attack, 2000);
    assert_eq!(zombies[1].zombie.last_attack, 0);
    zombie_attacks(&mut zombies, &mut player, 2500);
    assert_eq!(player.player.health, health0 - 10_000, "attack cooldown holds");
    zombie_attacks(&mut zombies, &mut player, 3100);
    assert_eq!(player.player.health, health0 - 20_000);
}

#[test]
fn bullets_fly_along_their_direction() {
    let mut pos = Vec3 { x: 0, y: 1800, z: 0 };
    let dir = Vec3 { x: 600, y: 0, z: 800 };
    // 50 units/s for 100 ms: 5 units along a milli-unit direction
    move_bullet(&mut pos, &dir, 50_000, 100);
    assert_eq!(pos, Vec3 { x: 3000, y: 1800, z: 4000 });
}
