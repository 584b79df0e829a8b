//! The plugins of the game: which systems each of them runs, at which point
//! of the engine's loop and in which states.

use crate::state::{AppState, GameState};
use vstd::prelude::*;

verus! {

/// A point of the engine's loop at which systems run.
#[derive(Clone, Copy, Debug, PartialEq, Eq, Structural)]
pub enum Schedule {
    /// Once, before the first frame.
    Startup,
    /// In every frame.
    Update,
    /// When the application enters a state.
    OnEnter(AppState),
    /// When the application leaves a state.
    OnExit(AppState),
}

/// The systems of the game.
#[derive(Clone, Copy, Debug, PartialEq, Eq, Hash, Structural)]
pub enum SystemId {
    AnimateClip,
    ChangeAnimationClip,
    HandleControlsState,
    SpawnEnemies,
    DespawnEnemies,
    BoundEnemyMovement,
    EnemyMovement,
    UpdateEnemyDirection,
    TickEnemySpawnTimer,
    SpawnEnemiesOverTime,
    SpawnCamera,
    TogglePause,
    SpawnStation,
    DespawnStationLocation,
    UpdatePosition,
    SpawnWarriors,
    DespawnWarriors,
    ChangeWarriorDirection,
    LoadPlayerAssets,
    CheckAssetsLoading,
    SpawnPlayer,
    DespawnPlayer,
    PlayerMovement,
    StickCameraToPlayer,
    SpawnStars,
    DespawnStars,
    TickStarSpawnTimer,
    SpawnStarsOverTime,
    ShowLogo,
    HandleLogoEnd,
    SpawnMainMenu,
    DespawnMainMenu,
    InteractWithPlayButton,
    SpawnControlsHint,
    DespawnControlsHint,
    ExitOnEscape,
    TransitionToGameState,
    TransitionToMainMenuState,
}

/// One system of a plugin: when it runs, in which states, and the system
/// that it has to run before.
#[derive(Clone, Copy, Debug, PartialEq, Eq, Structural)]
pub struct Registration {
    pub system: SystemId,
    pub schedule: Schedule,
    /// The state that the application must be in, if any.
    pub app_state: Option<AppState>,
    /// The state that the game must be in, if any.
    pub game_state: Option<GameState>,
    /// The system that must not run earlier in the same frame, if any.
    pub before: Option<SystemId>,
}

/// Runs the animation of sprites.
#[derive(Clone, Copy, Debug, PartialEq, Eq, Structural)]
pub struct PepaAnimationPlugin;

/// Turns the keyboard into actions.
#[derive(Clone, Copy, Debug, PartialEq, Eq, Structural)]
pub struct ControlsPlugin;

/// Moves what was asked to move.
#[derive(Clone, Copy, Debug, PartialEq, Eq, Structural)]
pub struct MovementPlugin;

/// The player.
#[derive(Clone, Copy, Debug, PartialEq, Eq, Structural)]
pub struct PlayerPlugin;

/// The enemies.
#[derive(Clone, Copy, Debug, PartialEq, Eq, Structural)]
pub struct EnemyPlugin;

/// The warriors.
#[derive(Clone, Copy, Debug, PartialEq, Eq, Structural)]
pub struct NpcPlugin;

/// The stars.
#[derive(Clone, Copy, Debug, PartialEq, Eq, Structural)]
pub struct StarPlugin;

/// The place in which the game is played.
#[derive(Clone, Copy, Debug, PartialEq, Eq, Structural)]
pub struct LocationPlugin;

/// The logo shown at the start.
#[derive(Clone, Copy, Debug, PartialEq, Eq, Structural)]
pub struct LogoPlugin;

/// The main menu.
#[derive(Clone, Copy, Debug, PartialEq, Eq, Structural)]
pub struct MainMenuPlugin;

/// The hint on the controls that is shown during the game.
#[derive(Clone, Copy, Debug, PartialEq, Eq, Structural)]
pub struct InGameUiPlugin;

/// The user interface: the main menu and the hint on the controls.
#[derive(Clone, Copy, Debug, PartialEq, Eq, Structural)]
pub struct UiPlugin;

/// The game: the camera, the pause, and the player, movement and controls
/// plugins.
#[derive(Clone, Copy, Debug, PartialEq, Eq, Structural)]
pub struct GamePlugin;

/// A system that runs when the application enters `state`.
pub open spec fn entering(system: SystemId, state: AppState) -> Registration {
    Registration {
        system,
        schedule: Schedule::OnEnter(state),
        app_state: None,
        game_state: None,
        before: None,
    }
}

/// A system that runs when the application leaves `state`.
pub open spec fn leaving(system: SystemId, state: AppState) -> Registration {
    Registration {
        system,
        schedule: Schedule::OnExit(state),
        app_state: None,
        game_state: None,
        before: None,
    }
}

/// A system that runs in every frame in which the states are as given.
pub open spec fn each_frame(system: SystemId, app_state: Option<AppState>, game_state: Option<GameState>) -> Registration {
    Registration { system, schedule: Schedule::Update, app_state, game_state, before: None }
}

/// A system that runs at the start if the application is in `app_state`.
pub open spec fn at_startup(system: SystemId, app_state: Option<AppState>) -> Registration {
    Registration { system, schedule: Schedule::Startup, app_state, game_state: None, before: None }
}

/// A system that runs in every frame of a running game.
pub open spec fn in_running_game(system: SystemId) -> Registration {
    each_frame(system, Some(AppState::Game), Some(GameState::Running))
}

/// Whether some registration of `registrations` has `system` run at
/// `schedule` in the given states.
pub open spec fn due(
    registrations: Seq<Registration>,
    system: SystemId,
    schedule: Schedule,
    app_state: AppState,
    game_state: GameState,
) -> bool {
    exists|i: int|
        0 <= i < registrations.len() && (#[trigger] registrations[i]).system == system
            && registrations[i].applies(schedule, app_state, game_state)
}

impl Registration {
    /// Whether the registration has its system run at `schedule` in the
    /// given states.
    pub open spec fn applies(self, schedule: Schedule, app_state: AppState, game_state: GameState) -> bool {
        &&& self.schedule == schedule
        &&& self.app_state matches Some(needed) ==> needed == app_state
        &&& self.game_state matches Some(needed) ==> needed == game_state
    }

    /// Whether the system runs at `schedule` in the given states.
    pub fn runs(&self, schedule: Schedule, app_state: AppState, game_state: GameState) -> (runs: bool)
        ensures
            runs == self.applies(schedule, app_state, game_state),
    {
        let app_ok = match self.app_state {
            Some(needed) => needed == app_state,
            None => true,
        };
        let game_ok = match self.game_state {
            Some(needed) => needed == game_state,
            None => true,
        };
        self.schedule == schedule && app_ok && game_ok
    }
}

/// Whether `system` is to run at `schedule` in the given states.
pub fn is_due(
    registrations: &Vec<Registration>,
    system: SystemId,
    schedule: Schedule,
    app_state: AppState,
    game_state: GameState,
) -> (found: bool)
    ensures
        found == due(registrations@, system, schedule, app_state, game_state),
{
    let mut i: usize = 0;
    while i < registrations.len()
        invariant
            i <= registrations.len(),
            forall|j: int|
                0 <= j < i ==> !((#[trigger] registrations@[j]).system == system
                    && registrations@[j].applies(schedule, app_state, game_state)),
        decreases registrations.len() - i,
    {
        if registrations[i].system == system && registrations[i].runs(schedule, app_state, game_state) {
            return true;
        }
        i = i + 1;
    }
    false
}

fn on_enter(system: SystemId, state: AppState) -> (registration: Registration)
    ensures
        registration == entering(system, state),
{
    Registration {
        system,
        schedule: Schedule::OnEnter(state),
        app_state: None,
        game_state: None,
        before: None,
    }
}

fn on_exit(system: SystemId, state: AppState) -> (registration: Registration)
    ensures
        registration == leaving(system, state),
{
    Registration {
        system,
        schedule: Schedule::OnExit(state),
        app_state: None,
        game_state: None,
        before: None,
    }
}

fn on_update(system: SystemId, app_state: Option<AppState>, game_state: Option<GameState>) -> (registration:
    Registration)
    ensures
        registration == each_frame(system, app_state, game_state),
{
    Registration { system, schedule: Schedule::Update, app_state, game_state, before: None }
}

fn on_startup(system: SystemId, app_state: Option<AppState>) -> (registration: Registration)
    ensures
        registration == at_startup(system, app_state),
{
    Registration { system, schedule: Schedule::Startup, app_state, game_state: None, before: None }
}

fn on_running_game(system: SystemId) -> (registration: Registration)
    ensures
        registration == in_running_game(system),
{
    on_update(system, Some(AppState::Game), Some(GameState::Running))
}

/// Adds the registrations of `more` to `list`.
fn append(list: &mut Vec<Registration>, more: Vec<Registration>)
    ensures
        final(list)@ == old(list)@ + more@,
{
    let mut i: usize = 0;
    while i < more.len()
        invariant
            i <= more.len(),
            list@ == old(list)@ + more@.take(i as int),
        decreases more.len() - i,
    {
        list.push(more[i]);
        assert(more@.take(i as int + 1) =~= more@.take(i as int).push(more@[i as int]));
        i = i + 1;
    }
    assert(more@.take(more@.len() as int) =~= more@);
}

impl PepaAnimationPlugin {
    /// Frames advance and clips change while the game runs.
    pub open spec fn systems() -> Seq<Registration> {
        seq![
            each_frame(SystemId::AnimateClip, None, Some(GameState::Running)),
            each_frame(SystemId::ChangeAnimationClip, None, Some(GameState::Running)),
        ]
    }

    pub fn registrations(&self) -> (list: Vec<Registration>)
        ensures
            list@ == Self::systems(),
    {
        let mut list: Vec<Registration> = Vec::new();
        list.push(on_update(SystemId::AnimateClip, None, Some(GameState::Running)));
        list.push(on_update(SystemId::ChangeAnimationClip, None, Some(GameState::Running)));
        assert(list@ =~= Self::systems());
        list
    }
}

impl ControlsPlugin {
    /// The keyboard is read while the game runs.
    pub open spec fn systems() -> Seq<Registration> {
        seq![each_frame(SystemId::HandleControlsState, None, Some(GameState::Running))]
    }

    pub fn registrations(&self) -> (list: Vec<Registration>)
        ensures
            list@ == Self::systems(),
    {
        let mut list: Vec<Registration> = Vec::new();
        list.push(on_update(SystemId::HandleControlsState, None, Some(GameState::Running)));
        assert(list@ =~= Self::systems());
        list
    }
}

impl MovementPlugin {
    /// Positions change in a running game.
    pub open spec fn systems() -> Seq<Registration> {
        seq![in_running_game(SystemId::UpdatePosition)]
    }

    pub fn registrations(&self) -> (list: Vec<Registration>)
        ensures
            list@ == Self::systems(),
    {
        let mut list: Vec<Registration> = Vec::new();
        list.push(on_running_game(SystemId::UpdatePosition));
        assert(list@ =~= Self::systems());
        list
    }
}

impl PlayerPlugin {
    /// The player's images are loaded on entering the loading state and
    /// waited for in it. The player appears with the game and leaves on the
    /// way to the main menu. In a running game the player moves, the camera
    /// follows, and the player's sprite is animated.
    pub open spec fn systems() -> Seq<Registration> {
        seq![
            entering(SystemId::LoadPlayerAssets, AppState::Loading),
            each_frame(SystemId::CheckAssetsLoading, Some(AppState::Loading), None),
            entering(SystemId::SpawnPlayer, AppState::Game),
            entering(SystemId::DespawnPlayer, AppState::MainMenu),
            in_running_game(SystemId::PlayerMovement),
            in_running_game(SystemId::StickCameraToPlayer),
            in_running_game(SystemId::AnimateClip),
            in_running_game(SystemId::ChangeAnimationClip),
        ]
    }

    pub fn registrations(&self) -> (list: Vec<Registration>)
        ensures
            list@ == Self::systems(),
    {
        let mut list: Vec<Registration> = Vec::new();
        list.push(on_enter(SystemId::LoadPlayerAssets, AppState::Loading));
        list.push(on_update(SystemId::CheckAssetsLoading, Some(AppState::Loading), None));
        list.push(on_enter(SystemId::SpawnPlayer, AppState::Game));
        list.push(on_enter(SystemId::DespawnPlayer, AppState::MainMenu));
        list.push(on_running_game(SystemId::PlayerMovement));
        list.push(on_running_game(SystemId::StickCameraToPlayer));
        list.push(on_running_game(SystemId::AnimateClip));
        list.push(on_running_game(SystemId::ChangeAnimationClip));
        assert(list@ =~= Self::systems());
        list
    }
}

impl EnemyPlugin {
    /// Enemies appear with the game and leave on the way to the main menu.
    /// In a running game they are kept inside the window before they move,
    /// they move, turn at the border, and new ones appear as their timer
    /// says.
    pub open spec fn systems() -> Seq<Registration> {
        seq![
            entering(SystemId::SpawnEnemies, AppState::Game),
            entering(SystemId::DespawnEnemies, AppState::MainMenu),
            Registration {
                before: Some(SystemId::EnemyMovement),
                ..in_running_game(SystemId::BoundEnemyMovement)
            },
            in_running_game(SystemId::EnemyMovement),
            in_running_game(SystemId::UpdateEnemyDirection),
            in_running_game(SystemId::TickEnemySpawnTimer),
            in_running_game(SystemId::SpawnEnemiesOverTime),
        ]
    }

    pub fn registrations(&self) -> (list: Vec<Registration>)
        ensures
            list@ == Self::systems(),
    {
        let mut bound = on_running_game(SystemId::BoundEnemyMovement);
        bound.before = Some(SystemId::EnemyMovement);
        let mut list: Vec<Registration> = Vec::new();
        list.push(on_enter(SystemId::SpawnEnemies, AppState::Game));
        list.push(on_enter(SystemId::DespawnEnemies, AppState::MainMenu));
        list.push(bound);
        list.push(on_running_game(SystemId::EnemyMovement));
        list.push(on_running_game(SystemId::UpdateEnemyDirection));
        list.push(on_running_game(SystemId::TickEnemySpawnTimer));
        list.push(on_running_game(SystemId::SpawnEnemiesOverTime));
        assert(list@ =~= Self::systems());
        list
    }
}

impl NpcPlugin {
    /// Warriors appear with the game and leave with it and on the way to the
    /// main menu; while the game runs they change direction.
    pub open spec fn systems() -> Seq<Registration> {
        seq![
            entering(SystemId::SpawnWarriors, AppState::Game),
            leaving(SystemId::DespawnWarriors, AppState::Game),
            entering(SystemId::DespawnWarriors, AppState::MainMenu),
            each_frame(SystemId::ChangeWarriorDirection, None, Some(GameState::Running)),
        ]
    }

    pub fn registrations(&self) -> (list: Vec<Registration>)
        ensures
            list@ == Self::systems(),
    {
        let mut list: Vec<Registration> = Vec::new();
        list.push(on_enter(SystemId::SpawnWarriors, AppState::Game));
        list.push(on_exit(SystemId::DespawnWarriors, AppState::Game));
        list.push(on_enter(SystemId::DespawnWarriors, AppState::MainMenu));
        list.push(on_update(SystemId::ChangeWarriorDirection, None, Some(GameState::Running)));
        assert(list@ =~= Self::systems());
        list
    }
}

impl StarPlugin {
    /// Stars appear with the game and leave with it; in a running game new
    /// ones appear as their timer says.
    pub open spec fn systems() -> Seq<Registration> {
        seq![
            entering(SystemId::SpawnStars, AppState::Game),
            leaving(SystemId::DespawnStars, AppState::Game),
            in_running_game(SystemId::TickStarSpawnTimer),
            in_running_game(SystemId::SpawnStarsOverTime),
        ]
    }

    pub fn registrations(&self) -> (list: Vec<Registration>)
        ensures
            list@ == Self::systems(),
    {
        let mut list: Vec<Registration> = Vec::new();
        list.push(on_enter(SystemId::SpawnStars, AppState::Game));
        list.push(on_exit(SystemId::DespawnStars, AppState::Game));
        list.push(on_running_game(SystemId::TickStarSpawnTimer));
        list.push(on_running_game(SystemId::SpawnStarsOverTime));
        assert(list@ =~= Self::systems());
        list
    }
}

impl LocationPlugin {
    /// The station appears with the game and leaves on the way to the main
    /// menu.
    pub open spec fn systems() -> Seq<Registration> {
        seq![
            entering(SystemId::SpawnStation, AppState::Game),
            entering(SystemId::DespawnStationLocation, AppState::MainMenu),
        ]
    }

    pub fn registrations(&self) -> (list: Vec<Registration>)
        ensures
            list@ == Self::systems(),
    {
        let mut list: Vec<Registration> = Vec::new();
        list.push(on_enter(SystemId::SpawnStation, AppState::Game));
        list.push(on_enter(SystemId::DespawnStationLocation, AppState::MainMenu));
        assert(list@ =~= Self::systems());
        list
    }
}

impl LogoPlugin {
    /// The logo is shown at the start and timed while the application is in
    /// the logo state.
    pub open spec fn systems() -> Seq<Registration> {
        seq![
            at_startup(SystemId::ShowLogo, Some(AppState::Logo)),
            each_frame(SystemId::HandleLogoEnd, Some(AppState::Logo), None),
        ]
    }

    pub fn registrations(&self) -> (list: Vec<Registration>)
        ensures
            list@ == Self::systems(),
    {
        let mut list: Vec<Registration> = Vec::new();
        list.push(on_startup(SystemId::ShowLogo, Some(AppState::Logo)));
        list.push(on_update(SystemId::HandleLogoEnd, Some(AppState::Logo), None));
        assert(list@ =~= Self::systems());
        list
    }
}

impl MainMenuPlugin {
    /// The main menu is there while the application is in the main menu
    /// state, and its play button is watched meanwhile.
    pub open spec fn systems() -> Seq<Registration> {
        seq![
            entering(SystemId::SpawnMainMenu, AppState::MainMenu),
            leaving(SystemId::DespawnMainMenu, AppState::MainMenu),
            each_frame(SystemId::InteractWithPlayButton, Some(AppState::MainMenu), None),
        ]
    }

    pub fn registrations(&self) -> (list: Vec<Registration>)
        ensures
            list@ == Self::systems(),
    {
        let mut list: Vec<Registration> = Vec::new();
        list.push(on_enter(SystemId::SpawnMainMenu, AppState::MainMenu));
        list.push(on_exit(SystemId::DespawnMainMenu, AppState::MainMenu));
        list.push(on_update(SystemId::InteractWithPlayButton, Some(AppState::MainMenu), None));
        assert(list@ =~= Self::systems());
        list
    }
}

impl InGameUiPlugin {
    /// The hint on the controls is there during the game.
    pub open spec fn systems() -> Seq<Registration> {
        seq![
            entering(SystemId::SpawnControlsHint, AppState::Game),
            leaving(SystemId::DespawnControlsHint, AppState::Game),
        ]
    }

    pub fn registrations(&self) -> (list: Vec<Registration>)
        ensures
            list@ == Self::systems(),
    {
        let mut list: Vec<Registration> = Vec::new();
        list.push(on_enter(SystemId::SpawnControlsHint, AppState::Game));
        list.push(on_exit(SystemId::DespawnControlsHint, AppState::Game));
        assert(list@ =~= Self::systems());
        list
    }
}

impl UiPlugin {
    /// The systems of the main menu, then those of the hint on the controls.
    pub open spec fn systems() -> Seq<Registration> {
        MainMenuPlugin::systems() + InGameUiPlugin::systems()
    }

    pub fn registrations(&self) -> (list: Vec<Registration>)
        ensures
            list@ == Self::systems(),
    {
        let mut list = MainMenuPlugin.registrations();
        append(&mut list, InGameUiPlugin.registrations());
        list
    }
}

impl GamePlugin {
    /// The camera is set up at the start and the pause key is watched during
    /// the game; then come the systems of the player, of movement and of the
    /// controls.
    pub open spec fn systems() -> Seq<Registration> {
        seq![
            at_startup(SystemId::SpawnCamera, None),
            each_frame(SystemId::TogglePause, Some(AppState::Game), None),
        ] + PlayerPlugin::systems() + MovementPlugin::systems() + ControlsPlugin::systems()
    }

    pub fn registrations(&self) -> (list: Vec<Registration>)
        ensures
            list@ == Self::systems(),
    {
        let mut list: Vec<Registration> = Vec::new();
        list.push(on_startup(SystemId::SpawnCamera, None));
        list.push(on_update(SystemId::TogglePause, Some(AppState::Game), None));
        assert(list@ =~= seq![
            at_startup(SystemId::SpawnCamera, None),
            each_frame(SystemId::TogglePause, Some(AppState::Game), None),
        ]);
        append(&mut list, PlayerPlugin.registrations());
        append(&mut list, MovementPlugin.registrations());
        append(&mut list, ControlsPlugin.registrations());
        list
    }
}

/// The systems that the application itself runs in every frame, whatever the
/// state.
pub open spec fn application_systems() -> Seq<Registration> {
    seq![
        each_frame(SystemId::ExitOnEscape, None, None),
        each_frame(SystemId::TransitionToGameState, None, None),
        each_frame(SystemId::TransitionToMainMenuState, None, None),
    ]
}

/// All systems of the application: those of the user interface, of the game,
/// of the location and of the logo, then its own.
pub open spec fn all_systems() -> Seq<Registration> {
    UiPlugin::systems() + GamePlugin::systems() + LocationPlugin::systems() + LogoPlugin::systems()
        + application_systems()
}

/// The systems that the application itself runs.
pub fn own_registrations() -> (list: Vec<Registration>)
    ensures
        list@ == application_systems(),
{
    let mut list: Vec<Registration> = Vec::new();
    list.push(on_update(SystemId::ExitOnEscape, None, None));
    list.push(on_update(SystemId::TransitionToGameState, None, None));
    list.push(on_update(SystemId::TransitionToMainMenuState, None, None));
    assert(list@ =~= application_systems());
    list
}

/// All systems of the application.
pub fn application_registrations() -> (list: Vec<Registration>)
    ensures
        list@ == all_systems(),
{
    let mut list = UiPlugin.registrations();
    append(&mut list, GamePlugin.registrations());
    append(&mut list, LocationPlugin.registrations());
    append(&mut list, LogoPlugin.registrations());
    append(&mut list, own_registrations());
    list
}

} // verus!
