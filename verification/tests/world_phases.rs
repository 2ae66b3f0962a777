use void_core::game_state::{
    adjust_config, ButtonAction, GameConfig, GameState, GameStats, PhaseMachine, SteamConfig,
    check_game_over, update_game_stats, update_high_score,
};
use void_core::vec3::Vec3;
use void_core::world::{
    cleanup_dead_zombies, nearest_live_target, resolve_bullet_hits,
    BulletEntity, DeathEffect, PlayerEntity, TickInput, World, ZombieEntity,
};
use void_core::weapons::Bullet;
use void_core::zombies::ZombieType;

fn quiet_input(dt: u64) -> TickInput {
    TickInput {
        move_dir: Vec3 { x: 0, y: 0, z: 0 },
        aim_dir: Vec3 { x: 1000, y: 0, z: 0 },
        sprint: false,
        jump_pressed: false,
        jump_released: false,
        fire_held: false,
        pause_pressed: false,
        dt_ms: dt,
    }
}

fn start_match(w: &mut World) {
    assert!(w.menu_action(ButtonAction::StartGame));
    w.tick(quiet_input(50));
    assert_eq!(w.phase.current, GameState::InGame);
}

#[test]
fn starting_a_match_spawns_a_fresh_player() {
    let mut w = World::new();
    assert_eq!(w.phase.current, GameState::MainMenu);
    assert!(w.player.is_none());
    start_match(&mut w);
    let p = w.player.expect("player exists while playing");
    assert_eq!(p.player.health, 100_000);
    assert_eq!(p.player.score, 0);
    assert_eq!(p.player.kill_count, 0);
}

/// Health exhausted while paused is not observed: the game-over condition
/// is evaluated only in the playing phase.
#[test]
fn paused_zero_health_does_not_game_over() {
    let mut w = World::new();
    start_match(&mut w);
    // pause with the player still healthy
    let mut pause = quiet_input(50);
    pause.pause_pressed = true;
    w.tick(pause);
    assert_eq!(w.phase.current, GameState::Paused);
    // health collapses while paused
    w.player.as_mut().unwrap().player.health = 0;
    for _ in 0..10 {
        w.tick(quiet_input(50));
        assert_ne!(w.phase.current, GameState::GameOver);
        assert_eq!(w.phase.current, GameState::Paused);
    }
    // resuming re-runs the check: one playing tick queues the transition,
    // which takes effect at the next tick boundary
    let mut unpause = quiet_input(50);
    unpause.pause_pressed = true;
    w.tick(unpause);
    assert_eq!(w.phase.current, GameState::InGame);
    w.tick(quiet_input(50));
    assert_eq!(w.phase.current, GameState::GameOver);
}

/// The spawner never exceeds its cap over a long run.
#[test]
fn population_never_exceeds_cap() {
    let mut w = World::new();
    start_match(&mut w);
    // a huge health pool keeps the match running for the whole test
    w.player.as_mut().unwrap().player.health = 1_000_000_000;
    for _ in 0..600 {
        w.tick(quiet_input(100));
        assert!(w.zombies.len() <= w.spawn_timer.max_zombies);
        assert_eq!(w.phase.current, GameState::InGame);
    }
    assert_eq!(w.zombies.len(), w.spawn_timer.max_zombies);
}

/// Every spawned zombie stands at one of the eight spawn points and is
/// built from one of the four presets.
#[test]
fn spawns_use_spawn_points_and_presets() {
    let mut w = World::new();
    start_match(&mut w);
    w.player.as_mut().unwrap().player.health = 1_000_000_000;
    for _ in 0..100 {
        w.tick(quiet_input(100));
    }
    assert!(!w.zombies.is_empty());
    let types = [
        ZombieType::Basic,
        ZombieType::Fast,
        ZombieType::Heavy,
        ZombieType::Exploder,
    ];
    for z in &w.zombies {
        assert!(types.contains(&z.zombie.zombie_type));
        assert_eq!(z.zombie.max_health, ZombieEntity::spawn_at(
            Vec3 { x: 0, y: 0, z: 0 },
            z.zombie.zombie_type,
        ).zombie.max_health);
    }
}

/// Restarting after game over resets the player exactly once: the fresh
/// match starts from defaults, and ordinary play does not reset again.
#[test]
fn restart_resets_player_exactly_once() {
    let mut w = World::new();
    start_match(&mut w);
    // earn some state, then die
    w.player.as_mut().unwrap().player.score = 420;
    w.player.as_mut().unwrap().player.kill_count = 7;
    w.player.as_mut().unwrap().player.health = 0;
    w.tick(quiet_input(50));
    w.tick(quiet_input(50));
    assert_eq!(w.phase.current, GameState::GameOver);
    assert_eq!(w.stats.high_score, 420, "high score recorded on the game-over screen");
    // back to the main menu: match entities are destroyed
    assert!(w.menu_action(ButtonAction::MainMenu));
    w.tick(quiet_input(50));
    assert_eq!(w.phase.current, GameState::MainMenu);
    assert!(w.player.is_none());
    assert!(w.zombies.is_empty());
    // a new match starts from defaults
    start_match(&mut w);
    let p = w.player.unwrap();
    assert_eq!(p.player.health, 100_000);
    assert_eq!(p.player.score, 0);
    assert_eq!(p.player.kill_count, 0);
    // further playing ticks do not reset accumulated state again
    w.player.as_mut().unwrap().player.score = 99;
    w.tick(quiet_input(50));
    assert_eq!(w.player.unwrap().player.score, 99);
}

#[test]
fn direct_restart_from_game_over_also_resets() {
    let mut w = World::new();
    start_match(&mut w);
    w.player.as_mut().unwrap().player.health = 0;
    w.tick(quiet_input(50));
    w.tick(quiet_input(50));
    assert_eq!(w.phase.current, GameState::GameOver);
    assert!(w.menu_action(ButtonAction::RestartGame));
    w.tick(quiet_input(50));
    assert_eq!(w.phase.current, GameState::InGame);
    assert_eq!(w.player.unwrap().player.health, 100_000);
}

#[test]
fn phase_machine_admits_only_listed_transitions() {
    let mut m = PhaseMachine::new();
    assert!(!m.request(GameState::Paused), "no pausing from the main menu");
    assert!(!m.request(GameState::GameOver));
    assert!(m.request(GameState::InGame));
    assert!(!m.request(GameState::Settings), "only one pending request per tick");
    assert_eq!(m.apply_pending(), Some((GameState::MainMenu, GameState::InGame)));
    assert!(!m.request(GameState::MainMenu), "no jump from playing to the menu");
    assert!(m.request(GameState::Paused));
    m.apply_pending();
    assert_eq!(m.current, GameState::Paused);
}

#[test]
fn settings_screen_returns_to_its_caller() {
    let mut m = PhaseMachine::new();
    m.request(GameState::InGame);
    m.apply_pending();
    m.request(GameState::Paused);
    m.apply_pending();
    assert!(m.request(GameState::Settings));
    m.apply_pending();
    assert_eq!(m.current, GameState::Settings);
    assert_eq!(m.settings_return, GameState::Paused);
    assert!(!m.request(GameState::MainMenu), "settings only returns to its caller");
    assert!(m.request(GameState::Paused));
    m.apply_pending();
    assert_eq!(m.current, GameState::Paused);
}

#[test]
fn settings_buttons_adjust_config_within_bounds() {
    let mut c = GameConfig::default();
    adjust_config(&mut c, ButtonAction::IncreaseSensitivity);
    assert_eq!(c.mouse_sensitivity, 3000);
    for _ in 0..20 {
        adjust_config(&mut c, ButtonAction::IncreaseSensitivity);
    }
    assert_eq!(c.mouse_sensitivity, 10_000);
    for _ in 0..20 {
        adjust_config(&mut c, ButtonAction::DecreaseSensitivity);
    }
    assert_eq!(c.mouse_sensitivity, 100);
    for _ in 0..30 {
        adjust_config(&mut c, ButtonAction::IncreaseVolume);
    }
    assert_eq!(c.movement_speed, 15_000);
    for _ in 0..40 {
        adjust_config(&mut c, ButtonAction::DecreaseVolume);
    }
    assert_eq!(c.movement_speed, 1000);
}

#[test]
fn quit_only_from_menus() {
    let mut w = World::new();
    assert!(!w.quit_requested);
    w.menu_action(ButtonAction::Quit);
    assert!(w.quit_requested);
    let mut w2 = World::new();
    start_match(&mut w2);
    w2.menu_action(ButtonAction::Quit);
    assert!(!w2.quit_requested, "no quit button while playing");
}

#[test]
fn game_over_check_is_phase_gated() {
    assert!(check_game_over(GameState::InGame, 0));
    assert!(check_game_over(GameState::InGame, -5));
    assert!(!check_game_over(GameState::InGame, 1));
    assert!(!check_game_over(GameState::Paused, 0));
    assert!(!check_game_over(GameState::MainMenu, -5));
    assert!(!check_game_over(GameState::GameOver, 0));
}

#[test]
fn stats_track_time_and_high_score() {
    let mut s = GameStats::default();
    update_game_stats(&mut s, GameState::InGame, 250);
    update_game_stats(&mut s, GameState::Paused, 250);
    assert_eq!(s.time_played, 250);
    update_high_score(&mut s, GameState::GameOver, 70);
    assert_eq!(s.high_score, 70);
    update_high_score(&mut s, GameState::GameOver, 50);
    assert_eq!(s.high_score, 70, "a lower score never lowers the record");
    update_high_score(&mut s, GameState::InGame, 900);
    assert_eq!(s.high_score, 70, "the record only moves on the game-over screen");
    let steam = SteamConfig::default();
    assert_eq!(steam.app_id, 0);
    assert!(!steam.achievements_enabled);
}

#[test]
fn nearest_target_wins_over_first_match() {
    let far = ZombieEntity::spawn_at(Vec3 { x: 900, y: 0, z: 0 }, ZombieType::Basic);
    let near = ZombieEntity::spawn_at(Vec3 { x: 300, y: 0, z: 0 }, ZombieType::Basic);
    let out = ZombieEntity::spawn_at(Vec3 { x: 5000, y: 0, z: 0 }, ZombieType::Basic);
    let zombies = vec![far, near, out];
    let origin = Vec3 { x: 0, y: 0, z: 0 };
    assert_eq!(nearest_live_target(&zombies, origin), Some(1));
    let none: Vec<ZombieEntity> = vec![out];
    assert_eq!(nearest_live_target(&none, origin), None);
}

#[test]
fn equally_near_targets_go_to_the_lowest_index() {
    let left = ZombieEntity::spawn_at(Vec3 { x: -400, y: 0, z: 0 }, ZombieType::Basic);
    let right = ZombieEntity::spawn_at(Vec3 { x: 400, y: 0, z: 0 }, ZombieType::Basic);
    let zombies = vec![left, right];
    assert_eq!(nearest_live_target(&zombies, Vec3 { x: 0, y: 0, z: 0 }), Some(0));
    let zombies_swapped = vec![right, left];
    assert_eq!(nearest_live_target(&zombies_swapped, Vec3 { x: 0, y: 0, z: 0 }), Some(0));
}

#[test]
fn dead_zombies_are_not_targets_and_kill_counts_once() {
    let mut weak = ZombieEntity::spawn_at(Vec3 { x: 300, y: 0, z: 0 }, ZombieType::Basic);
    weak.zombie.health = 5_000;
    let mut zombies = vec![weak];
    let bullet = BulletEntity {
        pos: Vec3 { x: 0, y: 0, z: 0 },
        dir: Vec3 { x: 1000, y: 0, z: 0 },
        bullet: Bullet::default(),
    };
    let mut bullets = vec![bullet, bullet];
    let mut player = PlayerEntity::spawn().player;
    resolve_bullet_hits(&mut bullets, &mut zombies, &mut player);
    assert_eq!(player.kill_count, 1, "the second bullet finds no live target");
    assert_eq!(player.score, 60);
    assert_eq!(bullets.len(), 1, "the killing bullet is consumed, the other flies on");
    assert!(zombies[0].zombie.health <= 0);
}

#[test]
fn cleanup_removes_corpses_and_emits_effects() {
    let alive = ZombieEntity::spawn_at(Vec3 { x: 1000, y: 0, z: 0 }, ZombieType::Fast);
    let mut dead = ZombieEntity::spawn_at(Vec3 { x: 2000, y: 0, z: 0 }, ZombieType::Heavy);
    dead.zombie.health = 0;
    let mut zombies = vec![alive, dead];
    let mut effects: Vec<DeathEffect> = Vec::new();
    cleanup_dead_zombies(&mut zombies, &mut effects);
    assert_eq!(zombies.len(), 1);
    assert_eq!(zombies[0].zombie.zombie_type, ZombieType::Fast);
    assert_eq!(effects.len(), 1);
    assert_eq!(effects[0].zombie_type, ZombieType::Heavy);
    assert_eq!(effects[0].pos, Vec3 { x: 2000, y: 0, z: 0 });
}

#[test]
fn idle_menu_and_pause_ticks_change_only_the_clock() {
    let mut w = World::new();
    let stats0 = w.stats;
    w.tick(quiet_input(50));
    assert_eq!(w.phase.current, GameState::MainMenu);
    assert_eq!(w.stats, stats0);
    assert!(w.player.is_none());
    assert_eq!(w.now_ms, 50);
    // paused: the whole match state is frozen
    start_match(&mut w);
    let mut pause = quiet_input(50);
    pause.pause_pressed = true;
    w.tick(pause);
    let frozen = w.player.unwrap();
    let time0 = w.stats.time_played;
    for _ in 0..5 {
        w.tick(quiet_input(50));
    }
    assert_eq!(w.phase.current, GameState::Paused);
    assert_eq!(w.player.unwrap(), frozen);
    assert_eq!(w.stats.time_played, time0, "the match clock does not run while paused");
}

/// With the player singleton missing, a playing tick recovers as a no-op:
/// no combat, no spawns, no effects — only the pause key still works.
#[test]
fn playing_without_a_player_is_a_no_op() {
    let mut w = World::new();
    start_match(&mut w);
    w.player = None;
    for _ in 0..50 {
        let out = w.tick(quiet_input(50));
        assert!(w.player.is_none());
        assert!(w.zombies.is_empty());
        assert!(w.bullets.is_empty());
        assert!(out.death_effects.is_empty());
        assert!(!out.shot_fired);
        assert_eq!(w.phase.current, GameState::InGame);
    }
    let mut pause = quiet_input(50);
    pause.pause_pressed = true;
    w.tick(pause);
    assert_eq!(w.phase.current, GameState::Paused);
}

#[test]
fn firing_spawns_bullets_that_expire() {
    let mut w = World::new();
    start_match(&mut w);
    let mut fire = quiet_input(50);
    fire.fire_held = true;
    w.player.as_mut().unwrap().player.last_shot = 0;
    w.now_ms = 1000;
    let out = w.tick(fire);
    assert!(out.shot_fired);
    assert_eq!(w.bullets.len(), 1);
    // three seconds later the bullet has expired
    w.player.as_mut().unwrap().player.health = 1_000_000_000;
    for _ in 0..70 {
        w.tick(quiet_input(50));
    }
    assert!(w.bullets.is_empty());
}
