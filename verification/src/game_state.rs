//! The game-phase state machine, match statistics and runtime
//! configuration. Transitions are requested during a tick — at most one may
//! be pending — and take effect only at the tick boundary; the game-over
//! condition is evaluated only while playing.

use vstd::prelude::*;

use crate::fixp::SCALE_MAX;

verus! {

/// Top-level game mode.
#[derive(Clone, Copy, Debug, PartialEq, Eq, Hash, Structural)]
pub enum GameState {
    MainMenu,
    InGame,
    Paused,
    GameOver,
    Settings,
}

/// Runtime configuration surface of the core.
#[derive(Clone, Copy, Debug, PartialEq, Eq)]
pub struct GameConfig {
    /// Mouse sensitivity in micro-units; read by the look controller only.
    pub mouse_sensitivity: i64,
    /// Player base movement speed, milli-units per second.
    pub movement_speed: i64,
    /// Visual-intensity signal fed by the charge meter, per-mille.
    pub psychedelic_intensity: i64,
    /// Spawn-rate multiplier, per-mille.
    pub zombie_spawn_rate: i64,
    /// Score multiplier, per-mille.
    pub score_multiplier: i64,
}

impl GameConfig {
    /// Validity of a configuration.
    pub open spec fn wf(self) -> bool {
        &&& 100 <= self.mouse_sensitivity <= 10_000
        &&& 0 <= self.movement_speed <= 500_000
        &&& 0 <= self.psychedelic_intensity <= 10_000
        &&& 0 <= self.zombie_spawn_rate <= SCALE_MAX
        &&& 0 <= self.score_multiplier <= SCALE_MAX
    }
}

impl Default for GameConfig {
    /// Stock configuration.
    fn default() -> (r: GameConfig)
        ensures
            r == (GameConfig {
                mouse_sensitivity: 2000i64,
                movement_speed: 5000i64,
                psychedelic_intensity: 1000i64,
                zombie_spawn_rate: 1000i64,
                score_multiplier: 1000i64,
            }),
            r.wf(),
    {
        GameConfig {
            mouse_sensitivity: 2000,
            movement_speed: 5000,
            psychedelic_intensity: 1000,
            zombie_spawn_rate: 1000,
            score_multiplier: 1000,
        }
    }
}

/// Lifetime statistics across matches.
#[derive(Clone, Copy, Debug, PartialEq, Eq)]
pub struct GameStats {
    /// Kills over all matches.
    pub total_kills: u32,
    /// Score over all matches.
    pub total_score: u32,
    /// Best single-match score.
    pub high_score: u32,
    /// Matches started.
    pub games_played: u32,
    /// Milliseconds spent in the playing phase.
    pub time_played: u64,
}

impl Default for GameStats {
    /// All counters at zero.
    fn default() -> (r: GameStats)
        ensures
            r == (GameStats {
                total_kills: 0u32,
                total_score: 0u32,
                high_score: 0u32,
                games_played: 0u32,
                time_played: 0u64,
            }),
    {
        GameStats { total_kills: 0, total_score: 0, high_score: 0, games_played: 0, time_played: 0 }
    }
}

/// Platform-integration switches; all off by default.
#[derive(Clone, Copy, Debug, PartialEq, Eq)]
pub struct SteamConfig {
    pub app_id: u32,
    pub achievements_enabled: bool,
    pub leaderboards_enabled: bool,
}

impl Default for SteamConfig {
    /// No application id, every integration disabled.
    fn default() -> (r: SteamConfig)
        ensures
            r == (SteamConfig {
                app_id: 0u32,
                achievements_enabled: false,
                leaderboards_enabled: false,
            }),
    {
        SteamConfig { app_id: 0, achievements_enabled: false, leaderboards_enabled: false }
    }
}

/// A menu or input action that may request a phase transition or adjust the
/// configuration.
#[derive(Clone, Copy, Debug, PartialEq, Eq, Structural)]
pub enum ButtonAction {
    StartGame,
    ResumeGame,
    RestartGame,
    Settings,
    MainMenu,
    Quit,
    IncreaseVolume,
    DecreaseVolume,
    IncreaseSensitivity,
    DecreaseSensitivity,
    Back,
}

/// The phase machine: the active phase, the at-most-one pending transition,
/// and the phase to return to when leaving the settings screen.
#[derive(Clone, Copy, Debug, PartialEq, Eq)]
pub struct PhaseMachine {
    /// The phase whose systems run this tick.
    pub current: GameState,
    /// The transition queued for the next tick boundary, if any.
    pub pending: Option<GameState>,
    /// The caller phase to which the settings screen returns.
    pub settings_return: GameState,
}

/// Which transitions the phase machine admits from each phase. The settings
/// screen returns only to the phase that opened it.
pub open spec fn allowed_transition(m: PhaseMachine, to: GameState) -> bool {
    match m.current {
        GameState::MainMenu => to == GameState::InGame || to == GameState::Settings,
        GameState::InGame => to == GameState::Paused || to == GameState::GameOver,
        GameState::Paused => to == GameState::InGame || to == GameState::Settings || to
            == GameState::MainMenu,
        GameState::GameOver => to == GameState::InGame || to == GameState::MainMenu,
        GameState::Settings => to == m.settings_return,
    }
}

impl PhaseMachine {
    /// Validity: a pending transition is one the machine admits, and the
    /// settings screen never returns to itself.
    pub open spec fn wf(self) -> bool {
        &&& (self.pending matches Some(t) ==> allowed_transition(self, t))
        &&& self.settings_return != GameState::Settings
    }

    /// A fresh machine in the main menu.
    pub fn new() -> (r: PhaseMachine)
        ensures
            r == (PhaseMachine {
                current: GameState::MainMenu,
                pending: Option::<GameState>::None,
                settings_return: GameState::MainMenu,
            }),
            r.wf(),
    {
        PhaseMachine {
            current: GameState::MainMenu,
            pending: None,
            settings_return: GameState::MainMenu,
        }
    }

    /// Queues a transition for the next tick boundary. The request is
    /// refused when one is already pending or the machine does not admit
    /// it; at most one transition is ever pending.
    pub fn request(&mut self, to: GameState) -> (accepted: bool)
        requires
            old(self).wf(),
        ensures
            accepted == (old(self).pending is None && allowed_transition(*old(self), to)),
            accepted ==> *final(self) == (PhaseMachine { pending: Some(to), ..*old(self) }),
            !accepted ==> *final(self) == *old(self),
            final(self).wf(),
            final(self).current == old(self).current,
    {
        if self.pending.is_none() && self.transition_allowed(to) {
            self.pending = Some(to);
            true
        } else {
            false
        }
    }

    /// Tests whether the machine admits a transition to `to`.
    pub fn transition_allowed(&self, to: GameState) -> (r: bool)
        ensures
            r == allowed_transition(*self, to),
    {
        match self.current {
            GameState::MainMenu => to == GameState::InGame || to == GameState::Settings,
            GameState::InGame => to == GameState::Paused || to == GameState::GameOver,
            GameState::Paused => to == GameState::InGame || to == GameState::Settings || to
                == GameState::MainMenu,
            GameState::GameOver => to == GameState::InGame || to == GameState::MainMenu,
            GameState::Settings => to == self.settings_return,
        }
    }

    /// The machine after its tick-boundary step: a pending transition
    /// becomes current, and entering the settings screen records the caller.
    pub open spec fn apply_spec(self) -> PhaseMachine {
        match self.pending {
            None => self,
            Some(t) => PhaseMachine {
                current: t,
                pending: None,
                settings_return: if t == GameState::Settings {
                    self.current
                } else {
                    self.settings_return
                },
            },
        }
    }

    /// Applies the pending transition at the tick boundary; returns the
    /// `(from, to)` pair for the enter/exit hooks, or `None` when nothing
    /// was pending. Each transition is reported exactly once.
    pub fn apply_pending(&mut self) -> (taken: Option<(GameState, GameState)>)
        requires
            old(self).wf(),
        ensures
            *final(self) == old(self).apply_spec(),
            taken == match old(self).pending {
                None => Option::<(GameState, GameState)>::None,
                Some(t) => Some((old(self).current, t)),
            },
            final(self).pending is None,
            final(self).wf(),
    {
        match self.pending {
            None => None,
            Some(t) => {
                let from = self.current;
                if matches!(t, GameState::Settings) {
                    self.settings_return = from;
                }
                self.current = t;
                self.pending = None;
                proof {
                    if t == GameState::Settings {
                        assert(from != GameState::Settings);
                    }
                }
                Some((from, t))
            },
        }
    }
}

/// Law: a queued transition takes effect at exactly one tick boundary.
/// Applying the machine a second time without a new request changes
/// nothing, so the enter hooks that fire on a transition — the player reset
/// on entering a match among them — can fire only once per transition.
pub proof fn lemma_transition_applies_once(m: PhaseMachine)
    requires
        m.wf(),
    ensures
        m.apply_spec().pending is None,
        m.apply_spec().apply_spec() == m.apply_spec(),
{
}

/// The game-over condition: it holds only while playing with the player's
/// health exhausted. In any other phase — the pause screen included — a
/// zero health is not observed.
pub open spec fn game_over_due(phase: GameState, health: int) -> bool {
    phase == GameState::InGame && health <= 0
}

/// Law: the game-over condition is never observed outside the playing
/// phase. In particular, health exhausted while paused requests no
/// transition until play resumes and the check runs again.
pub proof fn lemma_game_over_gated(phase: GameState, health: int)
    requires
        phase != GameState::InGame,
    ensures
        !game_over_due(phase, health),
{
}

/// Evaluates the game-over condition for this tick.
pub fn check_game_over(phase: GameState, health: i64) -> (r: bool)
    ensures
        r == game_over_due(phase, health as int),
{
    matches!(phase, GameState::InGame) && health <= 0
}

/// Statistics after one playing tick: time on the clock grows by the tick
/// length (saturating), other counters are untouched.
pub open spec fn stats_tick_spec(s: GameStats, phase: GameState, dt: int) -> GameStats {
    if phase == GameState::InGame {
        GameStats {
            time_played: if s.time_played + dt > u64::MAX {
                u64::MAX as u64
            } else {
                (s.time_played + dt) as u64
            },
            ..s
        }
    } else {
        s
    }
}

/// Accumulates played time while in the playing phase.
pub fn update_game_stats(stats: &mut GameStats, phase: GameState, dt: u64)
    ensures
        *final(stats) == stats_tick_spec(*old(stats), phase, dt as int),
{
    if matches!(phase, GameState::InGame) {
        if stats.time_played > u64::MAX - dt {
            stats.time_played = u64::MAX;
        } else {
            stats.time_played = stats.time_played + dt;
        }
    }
}

/// Statistics after one game-over tick: the high score rises to the match
/// score when beaten.
pub open spec fn high_score_spec(s: GameStats, phase: GameState, score: int) -> GameStats {
    if phase == GameState::GameOver && score > s.high_score {
        GameStats { high_score: score as u32, ..s }
    } else {
        s
    }
}

/// Records a beaten high score while on the game-over screen.
pub fn update_high_score(stats: &mut GameStats, phase: GameState, score: u32)
    ensures
        *final(stats) == high_score_spec(*old(stats), phase, score as int),
{
    if matches!(phase, GameState::GameOver) && score > stats.high_score {
        stats.high_score = score;
    }
}

/// The transition that a button action asks for in the current phase, if
/// any. Quit and the settings adjustments request none.
pub open spec fn action_target(m: PhaseMachine, a: ButtonAction) -> Option<GameState> {
    match m.current {
        GameState::MainMenu => match a {
            ButtonAction::StartGame => Some(GameState::InGame),
            ButtonAction::Settings => Some(GameState::Settings),
            _ => None,
        },
        GameState::Paused => match a {
            ButtonAction::ResumeGame => Some(GameState::InGame),
            ButtonAction::Settings => Some(GameState::Settings),
            ButtonAction::MainMenu => Some(GameState::MainMenu),
            _ => None,
        },
        GameState::GameOver => match a {
            ButtonAction::RestartGame => Some(GameState::InGame),
            ButtonAction::MainMenu => Some(GameState::MainMenu),
            _ => None,
        },
        GameState::Settings => match a {
            ButtonAction::Back => Some(m.settings_return),
            _ => None,
        },
        GameState::InGame => None,
    }
}

/// Configuration after one settings adjustment: sensitivity moves in
/// thousandth steps within its bounds, movement speed in half-unit steps
/// within its bounds; every other action leaves it unchanged.
pub open spec fn adjust_config_spec(c: GameConfig, a: ButtonAction) -> GameConfig {
    match a {
        ButtonAction::IncreaseSensitivity => GameConfig {
            mouse_sensitivity: if c.mouse_sensitivity + 1000 > 10_000 {
                10_000i64
            } else {
                (c.mouse_sensitivity + 1000) as i64
            },
            ..c
        },
        ButtonAction::DecreaseSensitivity => GameConfig {
            mouse_sensitivity: if c.mouse_sensitivity - 1000 < 100 {
                100i64
            } else {
                (c.mouse_sensitivity - 1000) as i64
            },
            ..c
        },
        ButtonAction::IncreaseVolume => GameConfig {
            movement_speed: if c.movement_speed + 500 > 15_000 {
                15_000i64
            } else {
                (c.movement_speed + 500) as i64
            },
            ..c
        },
        ButtonAction::DecreaseVolume => GameConfig {
            movement_speed: if c.movement_speed - 500 < 1000 {
                1000i64
            } else {
                (c.movement_speed - 500) as i64
            },
            ..c
        },
        _ => c,
    }
}

/// Applies one settings-screen adjustment to the configuration.
pub fn adjust_config(config: &mut GameConfig, action: ButtonAction)
    requires
        old(config).wf(),
    ensures
        *final(config) == adjust_config_spec(*old(config), action),
        final(config).wf(),
{
    match action {
        ButtonAction::IncreaseSensitivity => {
            let v = config.mouse_sensitivity + 1000;
            config.mouse_sensitivity = if v > 10_000 {
                10_000
            } else {
                v
            };
        },
        ButtonAction::DecreaseSensitivity => {
            let v = config.mouse_sensitivity - 1000;
            config.mouse_sensitivity = if v < 100 {
                100
            } else {
                v
            };
        },
        ButtonAction::IncreaseVolume => {
            let v = config.movement_speed + 500;
            config.movement_speed = if v > 15_000 {
                15_000
            } else {
                v
            };
        },
        ButtonAction::DecreaseVolume => {
            let v = config.movement_speed - 500;
            config.movement_speed = if v < 1000 {
                1000
            } else {
                v
            };
        },
        _ => {},
    }
}

} // verus!
