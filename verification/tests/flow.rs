use last_of_pipisenok::controls::Key;
use last_of_pipisenok::movement::{Direction, MoveEvent};
use last_of_pipisenok::npc::{change_warrior_direction, warrior_movement, WarriorDirection, WarriorDirectionTimer};
use last_of_pipisenok::plugins::{
    application_registrations, is_due, own_registrations, ControlsPlugin, EnemyPlugin, GamePlugin, InGameUiPlugin, LocationPlugin,
    LogoPlugin, MainMenuPlugin, MovementPlugin, NpcPlugin, PepaAnimationPlugin, PlayerPlugin, Registration,
    Schedule, StarPlugin, SystemId, UiPlugin,
};
use last_of_pipisenok::spawn::{
    spawn_enemies_over_time, tick_enemy_spawn_timer, EnemySpawnTimer, StarSpawnTimer, NUMBER_OF_ENEMIES,
    NUMBER_OF_STARS,
};
use last_of_pipisenok::state::{
    exit_on_escape, handle_logo_end, toggle_pause, transition_to_game_state, transition_to_main_menu_state,
    AppState, GameState, LogoTimer,
};
use last_of_pipisenok::timer::{FrameTimer, TimerMode};

const MS: u64 = 1_000_000;

const APP_STATES: [AppState; 5] =
    [AppState::Logo, AppState::Loading, AppState::MainMenu, AppState::Game, AppState::GameOver];

#[test]
fn default_states() {
    assert_eq!(AppState::default(), AppState::Loading);
    assert_eq!(GameState::default(), GameState::Paused);
}

#[test]
fn space_toggles_the_pause() {
    assert_eq!(toggle_pause(&vec![Key::Space], GameState::Paused), Some(GameState::Running));
    assert_eq!(toggle_pause(&vec![Key::KeyW, Key::Space], GameState::Running), Some(GameState::Paused));
    assert_eq!(toggle_pause(&vec![Key::KeyW], GameState::Running), None);
    assert_eq!(toggle_pause(&vec![], GameState::Paused), None);
}

#[test]
fn escape_ends_the_application() {
    assert!(exit_on_escape(&vec![Key::KeyA, Key::Escape]));
    assert!(!exit_on_escape(&vec![Key::KeyA]));
    assert!(!exit_on_escape(&vec![]));
}

#[test]
fn g_starts_the_game() {
    for state in APP_STATES {
        let expected = if state == AppState::Game { None } else { Some(AppState::Game) };
        assert_eq!(transition_to_game_state(&vec![Key::KeyG], state), expected);
        assert_eq!(transition_to_game_state(&vec![Key::KeyM], state), None);
    }
}

#[test]
fn m_leads_to_the_main_menu() {
    for state in APP_STATES {
        let expected =
            if state == AppState::MainMenu { None } else { Some((AppState::MainMenu, GameState::Paused)) };
        assert_eq!(transition_to_main_menu_state(&vec![Key::KeyM], state), expected);
        assert_eq!(transition_to_main_menu_state(&vec![Key::KeyG], state), None);
    }
}

#[test]
fn logo_ends_after_ten_seconds() {
    let mut timer = LogoTimer::default();
    assert_eq!(timer.0, FrameTimer::new(10_000, TimerMode::Once));
    assert_eq!(handle_logo_end(&mut timer, 9_999 * MS), None);
    assert_eq!(handle_logo_end(&mut timer, MS), Some(AppState::MainMenu));
    assert_eq!(handle_logo_end(&mut timer, MS), Some(AppState::MainMenu));
    assert_eq!(timer.0.elapsed_ns, 10_000_000_000);
}

#[test]
fn warriors_turn_right_every_two_seconds() {
    let mut direction = WarriorDirection::default();
    assert_eq!(direction.direction, Direction::Zero);
    let mut timer = WarriorDirectionTimer::default();
    assert_eq!(timer.0, FrameTimer::new(2_000, TimerMode::Repeating));
    change_warrior_direction(&mut direction, &mut timer, 1_999 * MS);
    assert_eq!(direction.direction, Direction::Zero);
    change_warrior_direction(&mut direction, &mut timer, MS);
    assert_eq!(direction.direction, Direction::Right);
    direction.direction = Direction::Up;
    change_warrior_direction(&mut direction, &mut timer, MS);
    assert_eq!(direction.direction, Direction::Up);
}

#[test]
fn every_warrior_is_asked_to_move() {
    let direction = WarriorDirection { direction: Direction::Left };
    assert_eq!(
        warrior_movement(&vec![3, 8], &direction),
        vec![MoveEvent::new(3, Direction::Left, 50, 1), MoveEvent::new(8, Direction::Left, 50, 1)]
    );
    assert!(warrior_movement(&vec![], &direction).is_empty());
}

#[test]
fn enemies_appear_every_three_seconds() {
    assert_eq!(NUMBER_OF_ENEMIES, 4);
    assert_eq!(NUMBER_OF_STARS, 14);
    let mut timer = EnemySpawnTimer::default();
    assert_eq!(timer.timer, FrameTimer::new(3_000, TimerMode::Repeating));
    assert_eq!(spawn_enemies_over_time(&timer), 0);
    tick_enemy_spawn_timer(&mut timer, 2_000 * MS);
    assert_eq!(spawn_enemies_over_time(&timer), 0);
    tick_enemy_spawn_timer(&mut timer, 1_000 * MS);
    assert_eq!(spawn_enemies_over_time(&timer), 1);
    tick_enemy_spawn_timer(&mut timer, 1_000 * MS);
    assert_eq!(spawn_enemies_over_time(&timer), 0);
    assert_eq!(StarSpawnTimer::default().timer, FrameTimer::new(1_500, TimerMode::Repeating));
}

fn update(system: SystemId, app_state: Option<AppState>, game_state: Option<GameState>) -> Registration {
    Registration { system, schedule: Schedule::Update, app_state, game_state, before: None }
}

fn enter(system: SystemId, state: AppState) -> Registration {
    Registration { system, schedule: Schedule::OnEnter(state), app_state: None, game_state: None, before: None }
}

fn exit(system: SystemId, state: AppState) -> Registration {
    Registration { system, schedule: Schedule::OnExit(state), app_state: None, game_state: None, before: None }
}

fn running(system: SystemId) -> Registration {
    update(system, Some(AppState::Game), Some(GameState::Running))
}

#[test]
fn registration_applies_in_its_states_only() {
    let registration = running(SystemId::PlayerMovement);
    assert!(registration.runs(Schedule::Update, AppState::Game, GameState::Running));
    assert!(!registration.runs(Schedule::Update, AppState::Game, GameState::Paused));
    assert!(!registration.runs(Schedule::Update, AppState::MainMenu, GameState::Running));
    assert!(!registration.runs(Schedule::Startup, AppState::Game, GameState::Running));
    let entering = enter(SystemId::SpawnPlayer, AppState::Game);
    assert!(entering.runs(Schedule::OnEnter(AppState::Game), AppState::Loading, GameState::Paused));
    assert!(!entering.runs(Schedule::OnEnter(AppState::MainMenu), AppState::Game, GameState::Paused));
    assert!(!entering.runs(Schedule::OnExit(AppState::Game), AppState::Game, GameState::Paused));
}

#[test]
fn animation_and_controls_run_while_the_game_runs() {
    assert_eq!(
        PepaAnimationPlugin.registrations(),
        vec![
            update(SystemId::AnimateClip, None, Some(GameState::Running)),
            update(SystemId::ChangeAnimationClip, None, Some(GameState::Running)),
        ]
    );
    assert_eq!(
        ControlsPlugin.registrations(),
        vec![update(SystemId::HandleControlsState, None, Some(GameState::Running))]
    );
    assert_eq!(MovementPlugin.registrations(), vec![running(SystemId::UpdatePosition)]);
}

#[test]
fn player_systems() {
    assert_eq!(
        PlayerPlugin.registrations(),
        vec![
            enter(SystemId::LoadPlayerAssets, AppState::Loading),
            update(SystemId::CheckAssetsLoading, Some(AppState::Loading), None),
            enter(SystemId::SpawnPlayer, AppState::Game),
            enter(SystemId::DespawnPlayer, AppState::MainMenu),
            running(SystemId::PlayerMovement),
            running(SystemId::StickCameraToPlayer),
            running(SystemId::AnimateClip),
            running(SystemId::ChangeAnimationClip),
        ]
    );
}

#[test]
fn enemy_warrior_and_star_systems() {
    let mut bound = running(SystemId::BoundEnemyMovement);
    bound.before = Some(SystemId::EnemyMovement);
    assert_eq!(
        EnemyPlugin.registrations(),
        vec![
            enter(SystemId::SpawnEnemies, AppState::Game),
            enter(SystemId::DespawnEnemies, AppState::MainMenu),
            bound,
            running(SystemId::EnemyMovement),
            running(SystemId::UpdateEnemyDirection),
            running(SystemId::TickEnemySpawnTimer),
            running(SystemId::SpawnEnemiesOverTime),
        ]
    );
    assert_eq!(
        NpcPlugin.registrations(),
        vec![
            enter(SystemId::SpawnWarriors, AppState::Game),
            exit(SystemId::DespawnWarriors, AppState::Game),
            enter(SystemId::DespawnWarriors, AppState::MainMenu),
            update(SystemId::ChangeWarriorDirection, None, Some(GameState::Running)),
        ]
    );
    assert_eq!(
        StarPlugin.registrations(),
        vec![
            enter(SystemId::SpawnStars, AppState::Game),
            exit(SystemId::DespawnStars, AppState::Game),
            running(SystemId::TickStarSpawnTimer),
            running(SystemId::SpawnStarsOverTime),
        ]
    );
}

#[test]
fn location_logo_and_interface_systems() {
    assert_eq!(
        LocationPlugin.registrations(),
        vec![
            enter(SystemId::SpawnStation, AppState::Game),
            enter(SystemId::DespawnStationLocation, AppState::MainMenu),
        ]
    );
    assert_eq!(
        LogoPlugin.registrations(),
        vec![
            Registration {
                system: SystemId::ShowLogo,
                schedule: Schedule::Startup,
                app_state: Some(AppState::Logo),
                game_state: None,
                before: None,
            },
            update(SystemId::HandleLogoEnd, Some(AppState::Logo), None),
        ]
    );
    let menu = vec![
        enter(SystemId::SpawnMainMenu, AppState::MainMenu),
        exit(SystemId::DespawnMainMenu, AppState::MainMenu),
        update(SystemId::InteractWithPlayButton, Some(AppState::MainMenu), None),
    ];
    let hint = vec![
        enter(SystemId::SpawnControlsHint, AppState::Game),
        exit(SystemId::DespawnControlsHint, AppState::Game),
    ];
    assert_eq!(MainMenuPlugin.registrations(), menu);
    assert_eq!(InGameUiPlugin.registrations(), hint);
    assert_eq!(UiPlugin.registrations(), [menu, hint].concat());
}

#[test]
fn game_plugin_brings_player_movement_and_controls() {
    let mut expected = vec![
        Registration {
            system: SystemId::SpawnCamera,
            schedule: Schedule::Startup,
            app_state: None,
            game_state: None,
            before: None,
        },
        update(SystemId::TogglePause, Some(AppState::Game), None),
    ];
    expected.extend(PlayerPlugin.registrations());
    expected.extend(MovementPlugin.registrations());
    expected.extend(ControlsPlugin.registrations());
    assert_eq!(GamePlugin.registrations(), expected);
}

#[test]
fn application_runs_all_plugins_and_its_own_systems() {
    let mut expected = UiPlugin.registrations();
    expected.extend(GamePlugin.registrations());
    expected.extend(LocationPlugin.registrations());
    expected.extend(LogoPlugin.registrations());
    expected.push(update(SystemId::ExitOnEscape, None, None));
    expected.push(update(SystemId::TransitionToGameState, None, None));
    expected.push(update(SystemId::TransitionToMainMenuState, None, None));
    assert_eq!(own_registrations(), expected[21..].to_vec());
    let all = application_registrations();
    assert_eq!(all, expected);
    assert_eq!(all.len(), 24);
}

#[test]
fn systems_are_due_in_their_states() {
    let all = application_registrations();
    let due = |system, schedule, app_state, game_state| is_due(&all, system, schedule, app_state, game_state);
    assert!(due(SystemId::AnimateClip, Schedule::Update, AppState::Game, GameState::Running));
    assert!(!due(SystemId::AnimateClip, Schedule::Update, AppState::Game, GameState::Paused));
    assert!(!due(SystemId::AnimateClip, Schedule::Update, AppState::MainMenu, GameState::Running));
    assert!(due(SystemId::HandleControlsState, Schedule::Update, AppState::MainMenu, GameState::Running));
    assert!(!due(SystemId::HandleControlsState, Schedule::Update, AppState::Game, GameState::Paused));
    assert!(due(SystemId::TogglePause, Schedule::Update, AppState::Game, GameState::Paused));
    assert!(!due(SystemId::TogglePause, Schedule::Update, AppState::MainMenu, GameState::Paused));
    assert!(due(SystemId::ExitOnEscape, Schedule::Update, AppState::Logo, GameState::Paused));
    assert!(due(SystemId::SpawnPlayer, Schedule::OnEnter(AppState::Game), AppState::MainMenu, GameState::Paused));
    assert!(!due(SystemId::SpawnPlayer, Schedule::OnExit(AppState::Game), AppState::Game, GameState::Paused));
    assert!(due(SystemId::ShowLogo, Schedule::Startup, AppState::Logo, GameState::Paused));
    assert!(!due(SystemId::ShowLogo, Schedule::Startup, AppState::Loading, GameState::Paused));
    assert!(!due(SystemId::SpawnEnemies, Schedule::OnEnter(AppState::Game), AppState::Game, GameState::Paused));
    assert!(!is_due(&vec![], SystemId::AnimateClip, Schedule::Update, AppState::Game, GameState::Running));
}
