//! The states of the application and of a running game, and the keys and
//! timers that move between them.

use crate::controls::{contains_key, Key};
use crate::timer::{FrameTimer, TimerMode};
use vstd::prelude::*;

verus! {

/// Milliseconds for which the logo is shown.
pub const LOGO_MS: u64 = 10_000;

/// Where the application is.
#[derive(Clone, Copy, Debug, PartialEq, Eq, Hash, Structural)]
pub enum AppState {
    Logo,
    Loading,
    MainMenu,
    Game,
    GameOver,
}

/// Whether the game goes on.
#[derive(Clone, Copy, Debug, PartialEq, Eq, Hash, Structural)]
pub enum GameState {
    Paused,
    Running,
}

/// Times the showing of the logo.
#[derive(Clone, Copy, Debug, PartialEq, Eq, Structural)]
pub struct LogoTimer(pub FrameTimer);

impl Default for AppState {
    fn default() -> (state: AppState)
        ensures
            state == AppState::Loading,
    {
        AppState::Loading
    }
}

impl Default for GameState {
    fn default() -> (state: GameState)
        ensures
            state == GameState::Paused,
    {
        GameState::Paused
    }
}

impl Default for LogoTimer {
    fn default() -> (timer: LogoTimer)
        ensures
            timer.0 == FrameTimer::fresh(LOGO_MS, TimerMode::Once),
    {
        LogoTimer(FrameTimer::new(LOGO_MS, TimerMode::Once))
    }
}

/// The state that a game turns to when the space bar has just been pressed:
/// a paused game runs, a running game pauses.
pub fn toggle_pause(just_pressed: &Vec<Key>, game_state: GameState) -> (next: Option<GameState>)
    ensures
        next == if just_pressed@.contains(Key::Space) {
            Some(
                if game_state == GameState::Paused {
                    GameState::Running
                } else {
                    GameState::Paused
                },
            )
        } else {
            None
        },
{
    if contains_key(just_pressed, Key::Space) {
        match game_state {
            GameState::Paused => Some(GameState::Running),
            GameState::Running => Some(GameState::Paused),
        }
    } else {
        None
    }
}

/// Whether the application is to end: the escape key is held.
pub fn exit_on_escape(pressed: &Vec<Key>) -> (exit: bool)
    ensures
        exit == pressed@.contains(Key::Escape),
{
    contains_key(pressed, Key::Escape)
}

/// The key G starts the game from any other state.
pub fn transition_to_game_state(just_pressed: &Vec<Key>, app_state: AppState) -> (next: Option<AppState>)
    ensures
        next == if just_pressed@.contains(Key::KeyG) && app_state != AppState::Game {
            Some(AppState::Game)
        } else {
            None
        },
{
    if contains_key(just_pressed, Key::KeyG) && app_state != AppState::Game {
        Some(AppState::Game)
    } else {
        None
    }
}

/// The key M leads to the main menu from any other state, and pauses the
/// game.
pub fn transition_to_main_menu_state(just_pressed: &Vec<Key>, app_state: AppState) -> (next: Option<
    (AppState, GameState),
>)
    ensures
        next == if just_pressed@.contains(Key::KeyM) && app_state != AppState::MainMenu {
            Some((AppState::MainMenu, GameState::Paused))
        } else {
            None
        },
{
    if contains_key(just_pressed, Key::KeyM) && app_state != AppState::MainMenu {
        Some((AppState::MainMenu, GameState::Paused))
    } else {
        None
    }
}

/// Lets `delta_ns` nanoseconds pass for the logo; once its time is up the
/// main menu follows.
pub fn handle_logo_end(logo_timer: &mut LogoTimer, delta_ns: u64) -> (next: Option<AppState>)
    requires
        old(logo_timer).0.wf(),
    ensures
        final(logo_timer).0 == old(logo_timer).0.ticked(delta_ns),
        final(logo_timer).0.wf(),
        next == if final(logo_timer).0.finished {
            Some(AppState::MainMenu)
        } else {
            None
        },
{
    logo_timer.0.tick(delta_ns);
    if logo_timer.0.finished() {
        Some(AppState::MainMenu)
    } else {
        None
    }
}

} // verus!
