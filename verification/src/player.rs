//! The player: its key bindings, its clips, and what its held actions make it
//! do.

use crate::animation::{
    AnimationClipResource, AnimationCursor, AnimationError, AnimationIndices, AnimationLibrary,
    AnimationResource, AnimationState, ClipChangeEvent, LibraryClip,
};
use crate::controls::{contains_key, ActionEvent, ControlledAction, Controls, Key};
use crate::movement::{resolve_direction, Direction, MoveEvent};
use crate::state::AppState;
use crate::timer::{FrameTimer, TimerMode};
use vstd::prelude::*;

verus! {

/// The speed of the player.
pub const PLAYER_SPEED: u32 = 200;

/// Milliseconds for which a frame of an idle or moving clip is shown.
pub const MOVE_FRAME_MS: u64 = 125;

/// Milliseconds for which a frame of an attack clip is shown.
pub const ATTACK_FRAME_MS: u64 = 200;

/// Marks the entity that the keyboard controls.
#[derive(Clone, Copy, Debug, PartialEq, Eq, Structural)]
pub struct Player;

/// An image of the player and whether the engine has loaded it.
#[derive(Clone, Copy, Debug, PartialEq, Eq, Hash, Structural)]
pub struct PlayerAsset {
    pub texture: u32,
    pub is_loaded: bool,
}

/// The images that must be loaded before the game may start.
#[derive(Clone, Debug)]
pub struct PlayerAssets {
    pub assets: Vec<PlayerAsset>,
}

/// The images of the player's sheets and the layout that its clips use, each
/// named by the number under which the engine keeps the handle.
#[derive(Clone, Copy, Debug, PartialEq, Eq, Structural)]
pub struct PlayerSheets {
    pub idle_texture: u32,
    pub move_texture: u32,
    pub attack_texture: u32,
    pub move_atlas: u32,
}

/// Key bindings by direction: each direction with the keys that ask for it.
#[derive(Clone, Debug)]
pub struct PlayerSettings {
    pub controls: Vec<(Direction, Vec<Key>)>,
}

/// What a new player entity starts with.
#[derive(Clone, Debug)]
pub struct PlayerSpawn {
    pub cursor: AnimationCursor,
    pub controls: Controls,
    pub player: Player,
}

/// The events that the player's held actions give rise to.
#[derive(Clone, Debug)]
pub struct PlayerCommands {
    pub moves: Vec<MoveEvent>,
    pub clips: Vec<ClipChangeEvent>,
}

/// The events of `PlayerCommands`, as sequences.
pub struct Commands {
    pub moves: Seq<MoveEvent>,
    pub clips: Seq<ClipChangeEvent>,
}

/// The first frame of the four frames that a sheet has for a compass
/// direction; `None` for `Zero` and `Random`.
pub open spec fn compass_base(direction: Direction) -> Option<usize> {
    match direction {
        Direction::Down => Some(0usize),
        Direction::DownRight => Some(4usize),
        Direction::Right => Some(8usize),
        Direction::UpRight => Some(12usize),
        Direction::Up => Some(16usize),
        Direction::UpLeft => Some(20usize),
        Direction::Left => Some(24usize),
        Direction::DownLeft => Some(28usize),
        Direction::Zero => None,
        Direction::Random => None,
    }
}

/// A clip of the player's library with a repeating timer.
pub open spec fn sheet_clip(first: usize, last: usize, frame_ms: u64, texture: u32, atlas_layout: u32) -> LibraryClip {
    LibraryClip {
        clip: AnimationClipResource {
            indices: AnimationIndices { first, last },
            timer: FrameTimer::fresh(frame_ms, TimerMode::Repeating),
        },
        resource: AnimationResource { texture, atlas_layout },
    }
}

/// The player's clip for a behaviour and a direction.
///
/// Standing still has seven frames. Walking, running and attacking have four
/// frames for each compass direction; walking and running share the movement
/// sheet. An attack without a direction uses the frames of the attack
/// downwards. Every clip uses the layout of the movement sheet: the sheets
/// have cells of one size in four columns, so a frame number names the same
/// cell in each of them.
pub open spec fn player_clip(sheets: PlayerSheets, state: AnimationState, direction: Direction) -> Option<LibraryClip> {
    match state {
        AnimationState::Idle => if direction == Direction::Zero {
            Some(sheet_clip(0, 6, MOVE_FRAME_MS, sheets.idle_texture, sheets.move_atlas))
        } else {
            None
        },
        AnimationState::Walk | AnimationState::Run => match compass_base(direction) {
            Some(base) => Some(
                sheet_clip(base, (base + 3) as usize, MOVE_FRAME_MS, sheets.move_texture, sheets.move_atlas),
            ),
            None => None,
        },
        AnimationState::Attack => match compass_base(direction) {
            Some(base) => Some(
                sheet_clip(
                    base,
                    (base + 3) as usize,
                    ATTACK_FRAME_MS,
                    sheets.attack_texture,
                    sheets.move_atlas,
                ),
            ),
            None => if direction == Direction::Zero {
                Some(sheet_clip(0, 3, ATTACK_FRAME_MS, sheets.attack_texture, sheets.move_atlas))
            } else {
                None
            },
        },
    }
}

/// The player's key bindings: W, A, S, D and the arrows move, the left shift
/// key runs, F attacks.
pub open spec fn player_bindings() -> Seq<(Key, ControlledAction)> {
    seq![
        (Key::KeyW, ControlledAction::MoveUp),
        (Key::KeyA, ControlledAction::MoveLeft),
        (Key::KeyS, ControlledAction::MoveDown),
        (Key::KeyD, ControlledAction::MoveRight),
        (Key::ArrowUp, ControlledAction::MoveUp),
        (Key::ArrowLeft, ControlledAction::MoveLeft),
        (Key::ArrowDown, ControlledAction::MoveDown),
        (Key::ArrowRight, ControlledAction::MoveRight),
        (Key::ShiftLeft, ControlledAction::Run),
        (Key::KeyF, ControlledAction::Attack),
    ]
}

/// What one set of held actions makes the player do.
///
/// Nothing held: the idle clip. An attack, whatever else is held: the attack
/// clip without a direction, and a move that goes nowhere. A move without an
/// attack: the running clip of the resolved direction and a move in that
/// direction, twice as fast while running is held. Anything else: nothing.
pub open spec fn action_commands(entity: u64, actions: Set<ControlledAction>) -> Commands {
    if actions == Set::<ControlledAction>::empty() {
        Commands {
            moves: Seq::empty(),
            clips: seq![
                ClipChangeEvent {
                    entity,
                    new_state: AnimationState::Idle,
                    new_direction: Direction::Zero,
                },
            ],
        }
    } else if actions.contains(ControlledAction::Attack) {
        Commands {
            moves: seq![
                MoveEvent { entity, direction: Direction::Zero, acceleration: 1, speed: PLAYER_SPEED },
            ],
            clips: seq![
                ClipChangeEvent {
                    entity,
                    new_state: AnimationState::Attack,
                    new_direction: Direction::Zero,
                },
            ],
        }
    } else if crate::controls::has_move(actions) {
        let direction = resolve_direction(actions);
        let acceleration: u32 = if actions.contains(ControlledAction::Run) {
            2
        } else {
            1
        };
        Commands {
            moves: seq![MoveEvent { entity, direction, acceleration, speed: PLAYER_SPEED }],
            clips: seq![
                ClipChangeEvent { entity, new_state: AnimationState::Run, new_direction: direction },
            ],
        }
    } else {
        Commands { moves: Seq::empty(), clips: Seq::empty() }
    }
}

/// Whether a set of held actions ends the handling of a batch of events: an
/// idle set and an attack do.
pub open spec fn action_stops(actions: Set<ControlledAction>) -> bool {
    actions == Set::<ControlledAction>::empty() || actions.contains(ControlledAction::Attack)
}

/// What the events of a batch from the `i`-th on make the player do. An event
/// that holds the same actions as the one before it ends the batch, and so
/// does an event that stops.
pub open spec fn batch_commands(entity: u64, events: Seq<ActionEvent>, i: int) -> Commands
    decreases events.len() - i,
{
    if i < 0 || i >= events.len() {
        Commands { moves: Seq::empty(), clips: Seq::empty() }
    } else if i > 0 && events[i]@ == events[i - 1]@ {
        Commands { moves: Seq::empty(), clips: Seq::empty() }
    } else {
        let here = action_commands(entity, events[i]@);
        if action_stops(events[i]@) {
            here
        } else {
            here.followed_by(batch_commands(entity, events, i + 1))
        }
    }
}

impl Commands {
    /// These commands followed by `later`.
    pub open spec fn followed_by(self, later: Commands) -> Commands {
        Commands { moves: self.moves + later.moves, clips: self.clips + later.clips }
    }
}

impl View for PlayerCommands {
    type V = Commands;

    open spec fn view(&self) -> Commands {
        Commands { moves: self.moves@, clips: self.clips@ }
    }
}

/// The player's key bindings.
pub fn player_controls() -> (controls: Controls)
    ensures
        controls.controls_map@ == player_bindings(),
{
    let mut map: Vec<(Key, ControlledAction)> = Vec::new();
    map.push((Key::KeyW, ControlledAction::MoveUp));
    map.push((Key::KeyA, ControlledAction::MoveLeft));
    map.push((Key::KeyS, ControlledAction::MoveDown));
    map.push((Key::KeyD, ControlledAction::MoveRight));
    map.push((Key::ArrowUp, ControlledAction::MoveUp));
    map.push((Key::ArrowLeft, ControlledAction::MoveLeft));
    map.push((Key::ArrowDown, ControlledAction::MoveDown));
    map.push((Key::ArrowRight, ControlledAction::MoveRight));
    map.push((Key::ShiftLeft, ControlledAction::Run));
    map.push((Key::KeyF, ControlledAction::Attack));
    assert(map@ =~= player_bindings());
    Controls::new(map)
}

/// A clip of the player's library with a repeating timer.
fn make_clip(first: usize, last: usize, frame_ms: u64, texture: u32, atlas_layout: u32) -> (entry:
    LibraryClip)
    ensures
        entry == sheet_clip(first, last, frame_ms, texture, atlas_layout),
{
    LibraryClip {
        clip: AnimationClipResource::new(AnimationIndices::new(first, last), frame_ms, TimerMode::Repeating),
        resource: AnimationResource::new(texture, atlas_layout),
    }
}

/// Puts the walking, running and attacking clips of one compass direction
/// into the library.
fn insert_compass_clips(library: &mut AnimationLibrary, sheets: PlayerSheets, direction: Direction, base: usize)
    requires
        compass_base(direction) == Some(base),
    ensures
        forall|s: AnimationState, d: Direction|
            #![trigger final(library).clip(s, d)]
            final(library).clip(s, d) == if d == direction && s != AnimationState::Idle {
                player_clip(sheets, s, d)
            } else {
                old(library).clip(s, d)
            },
{
    let moving = make_clip(base, base + 3, MOVE_FRAME_MS, sheets.move_texture, sheets.move_atlas);
    let attacking = make_clip(base, base + 3, ATTACK_FRAME_MS, sheets.attack_texture, sheets.move_atlas);
    library.insert(AnimationState::Walk, direction, moving);
    library.insert(AnimationState::Run, direction, moving);
    library.insert(AnimationState::Attack, direction, attacking);
}

/// Builds the player's clip library and the list of images whose loading the
/// game waits for: the idle sheet and the movement sheet.
pub fn load_player_assets(sheets: PlayerSheets) -> (loaded: (AnimationLibrary, PlayerAssets))
    ensures
        forall|state: AnimationState, direction: Direction|
            #![trigger loaded.0.clip(state, direction)]
            loaded.0.clip(state, direction) == player_clip(sheets, state, direction),
        loaded.1.assets@ == seq![
            PlayerAsset { texture: sheets.idle_texture, is_loaded: false },
            PlayerAsset { texture: sheets.move_texture, is_loaded: false },
        ],
{
    let mut library = AnimationLibrary::new();
    library.insert(
        AnimationState::Idle,
        Direction::Zero,
        make_clip(0, 6, MOVE_FRAME_MS, sheets.idle_texture, sheets.move_atlas),
    );
    library.insert(
        AnimationState::Attack,
        Direction::Zero,
        make_clip(0, 3, ATTACK_FRAME_MS, sheets.attack_texture, sheets.move_atlas),
    );
    insert_compass_clips(&mut library, sheets, Direction::Down, 0);
    insert_compass_clips(&mut library, sheets, Direction::DownRight, 4);
    insert_compass_clips(&mut library, sheets, Direction::Right, 8);
    insert_compass_clips(&mut library, sheets, Direction::UpRight, 12);
    insert_compass_clips(&mut library, sheets, Direction::Up, 16);
    insert_compass_clips(&mut library, sheets, Direction::UpLeft, 20);
    insert_compass_clips(&mut library, sheets, Direction::Left, 24);
    insert_compass_clips(&mut library, sheets, Direction::DownLeft, 28);
    let mut assets: Vec<PlayerAsset> = Vec::new();
    assets.push(PlayerAsset { texture: sheets.idle_texture, is_loaded: false });
    assets.push(PlayerAsset { texture: sheets.move_texture, is_loaded: false });
    assert(assets@ =~= seq![
        PlayerAsset { texture: sheets.idle_texture, is_loaded: false },
        PlayerAsset { texture: sheets.move_texture, is_loaded: false },
    ]);
    (library, PlayerAssets { assets })
}

/// What a new player starts with: the idle clip at its first frame, the
/// player's key bindings and the player's mark. Fails where the library has
/// no idle clip.
pub fn spawn_player(library: &AnimationLibrary) -> (spawn: Result<PlayerSpawn, AnimationError>)
    ensures
        match library.playable(AnimationState::Idle, Direction::Zero) {
            Ok(target) => spawn matches Ok(made) && made.cursor == AnimationCursor::started(
                AnimationState::Idle,
                Direction::Zero,
                target,
            ) && made.cursor.wf() && made.controls.controls_map@ == player_bindings(),
            Err(error) => spawn matches Err(why) && why == error,
        },
{
    match AnimationCursor::start(library, AnimationState::Idle, Direction::Zero) {
        Ok(cursor) => Ok(PlayerSpawn { cursor, controls: player_controls(), player: Player }),
        Err(error) => Err(error),
    }
}

/// Turns a batch of action events into the events that move the player and
/// change its clip, in the order of the batch.
pub fn player_movement(entity: u64, events: &Vec<ActionEvent>) -> (commands: PlayerCommands)
    ensures
        commands@ == batch_commands(entity, events@, 0),
{
    let mut moves: Vec<MoveEvent> = Vec::new();
    let mut clips: Vec<ClipChangeEvent> = Vec::new();
    let mut i: usize = 0;
    while i < events.len()
        invariant
            i <= events.len(),
            batch_commands(entity, events@, 0) == (Commands { moves: moves@, clips: clips@ }).followed_by(
                batch_commands(entity, events@, i as int),
            ),
        decreases events.len() - i,
    {
        let ghost done = Commands { moves: moves@, clips: clips@ };
        let ghost rest = batch_commands(entity, events@, i as int);
        let event = &events[i];
        if i > 0 && event.same_actions(&events[i - 1]) {
            assert(done.followed_by(rest).moves =~= done.moves);
            assert(done.followed_by(rest).clips =~= done.clips);
            return PlayerCommands { moves, clips };
        }
        let ghost here = action_commands(entity, event@);
        let ghost later = batch_commands(entity, events@, i as int + 1);
        if event.is_idle() {
            clips.push(ClipChangeEvent::new(entity, AnimationState::Idle, Direction::Zero));
            assert(done.followed_by(rest).moves =~= moves@);
            assert(done.followed_by(rest).clips =~= clips@);
            return PlayerCommands { moves, clips };
        }
        if event.is_attack() {
            moves.push(MoveEvent::new(entity, Direction::Zero, 1, PLAYER_SPEED));
            clips.push(ClipChangeEvent::new(entity, AnimationState::Attack, Direction::Zero));
            assert(done.followed_by(rest).moves =~= moves@);
            assert(done.followed_by(rest).clips =~= clips@);
            return PlayerCommands { moves, clips };
        }
        if event.contains_move() {
            let direction = Direction::from_actions(&event.actions);
            let acceleration: u32 = if event.contains_running() {
                2
            } else {
                1
            };
            moves.push(MoveEvent::new(entity, direction, acceleration, PLAYER_SPEED));
            clips.push(ClipChangeEvent::new(entity, AnimationState::Run, direction));
        }
        proof {
            assert(rest == here.followed_by(later));
            assert(done.followed_by(here.followed_by(later)).moves =~= (Commands { moves: moves@, clips: clips@ }).followed_by(
                later,
            ).moves);
            assert(done.followed_by(here.followed_by(later)).clips =~= (Commands { moves: moves@, clips: clips@ }).followed_by(
                later,
            ).clips);
        }
        i = i + 1;
    }
    proof {
        let done = Commands { moves: moves@, clips: clips@ };
        let rest = batch_commands(entity, events@, i as int);
        assert(done.followed_by(rest).moves =~= moves@);
        assert(done.followed_by(rest).clips =~= clips@);
    }
    PlayerCommands { moves, clips }
}

/// Whether the image `texture` is among those that have just been loaded.
fn contains_texture(loaded: &Vec<u32>, texture: u32) -> (found: bool)
    ensures
        found == loaded@.contains(texture),
{
    let mut i: usize = 0;
    while i < loaded.len()
        invariant
            i <= loaded.len(),
            forall|j: int| 0 <= j < i ==> loaded@[j] != texture,
        decreases loaded.len() - i,
    {
        if loaded[i] == texture {
            return true;
        }
        i = i + 1;
    }
    false
}

/// Whether every image of the list is loaded.
pub open spec fn all_loaded(assets: Seq<PlayerAsset>) -> bool {
    forall|i: int| 0 <= i < assets.len() ==> (#[trigger] assets[i]).is_loaded
}

/// Notes which of the player's images have just been loaded; once all are
/// loaded the main menu follows.
pub fn check_assets_loading(player_assets: &mut PlayerAssets, loaded: &Vec<u32>) -> (next: Option<AppState>)
    ensures
        final(player_assets).assets@.len() == old(player_assets).assets@.len(),
        forall|i: int|
            0 <= i < old(player_assets).assets@.len() ==> (#[trigger] final(player_assets).assets@[i])
                == (PlayerAsset {
                texture: old(player_assets).assets@[i].texture,
                is_loaded: old(player_assets).assets@[i].is_loaded || loaded@.contains(
                    old(player_assets).assets@[i].texture,
                ),
            }),
        next == if all_loaded(final(player_assets).assets@) {
            Some(AppState::MainMenu)
        } else {
            None
        },
{
    let mut every_loaded = true;
    let mut i: usize = 0;
    while i < player_assets.assets.len()
        invariant
            i <= player_assets.assets@.len(),
            player_assets.assets@.len() == old(player_assets).assets@.len(),
            forall|j: int|
                0 <= j < i ==> (#[trigger] player_assets.assets@[j]) == (PlayerAsset {
                    texture: old(player_assets).assets@[j].texture,
                    is_loaded: old(player_assets).assets@[j].is_loaded || loaded@.contains(
                        old(player_assets).assets@[j].texture,
                    ),
                }),
            forall|j: int|
                i <= j < player_assets.assets@.len() ==> (#[trigger] player_assets.assets@[j]) == old(
                    player_assets,
                ).assets@[j],
            every_loaded == all_loaded(player_assets.assets@.take(i as int)),
        decreases player_assets.assets@.len() - i,
    {
        let ghost before = player_assets.assets@;
        let asset = player_assets.assets[i];
        let is_loaded = asset.is_loaded || contains_texture(loaded, asset.texture);
        player_assets.assets[i] = PlayerAsset { texture: asset.texture, is_loaded };
        if !is_loaded {
            every_loaded = false;
        }
        proof {
            let earlier = before.take(i as int);
            let now = player_assets.assets@.take(i as int + 1);
            assert forall|j: int| 0 <= j < i implies #[trigger] now[j] == earlier[j] by {
                assert(player_assets.assets@[j] == before[j]);
            }
            assert(now[i as int].is_loaded == is_loaded);
            if all_loaded(earlier) && is_loaded {
                assert forall|j: int| 0 <= j < now.len() implies (#[trigger] now[j]).is_loaded by {
                    if j < i {
                        assert(earlier[j].is_loaded);
                    }
                }
            }
            if all_loaded(now) {
                assert forall|j: int| 0 <= j < earlier.len() implies (#[trigger] earlier[j]).is_loaded by {
                    assert(now[j].is_loaded);
                }
            }
        }
        i = i + 1;
    }
    assert(player_assets.assets@.take(i as int) =~= player_assets.assets@);
    if every_loaded {
        Some(AppState::MainMenu)
    } else {
        None
    }
}

/// Whether the held keys ask for the direction whose keys are `keys`: one
/// held key out of a pair of keys, or two held keys that are both among four.
pub open spec fn keys_match(keys: Seq<Key>, pressed: Seq<Key>) -> bool {
    ||| pressed.len() == 1 && keys.len() == 2 && keys.contains(pressed[0])
    ||| pressed.len() == 2 && keys.len() == 4 && keys.contains(pressed[0]) && keys.contains(pressed[1])
}

/// The direction of the first entry of `controls` whose keys match the held
/// keys; `Zero` where none does.
pub open spec fn settings_direction(controls: Seq<(Direction, Vec<Key>)>, pressed: Seq<Key>) -> Direction
    decreases controls.len(),
{
    if controls.len() == 0 {
        Direction::Zero
    } else if keys_match(controls[0].1@, pressed) {
        controls[0].0
    } else {
        settings_direction(controls.subrange(1, controls.len() as int), pressed)
    }
}

impl Default for PlayerSettings {
    fn default() -> (settings: PlayerSettings)
        ensures
            settings.controls@.len() == 0,
    {
        PlayerSettings { controls: Vec::new() }
    }
}

impl PlayerSettings {
    /// The direction that the held keys ask for. `pressed_keys` names each
    /// held key once.
    pub fn get_direction(&self, pressed_keys: &Vec<Key>) -> (direction: Direction)
        ensures
            direction == settings_direction(self.controls@, pressed_keys@),
    {
        let total = self.controls.len();
        assert(self.controls@.subrange(0, total as int) =~= self.controls@);
        let mut i: usize = 0;
        while i < total
            invariant
                i <= total,
                total == self.controls@.len(),
                settings_direction(self.controls@, pressed_keys@) == settings_direction(
                    self.controls@.subrange(i as int, total as int),
                    pressed_keys@,
                ),
            decreases total - i,
        {
            let ghost rest = self.controls@.subrange(i as int, total as int);
            assert(rest[0] == self.controls@[i as int]);
            assert(rest.subrange(1, rest.len() as int) =~= self.controls@.subrange(i as int + 1, total as int));
            let keys = &self.controls[i].1;
            let single = pressed_keys.len() == 1 && keys.len() == 2 && contains_key(keys, pressed_keys[0]);
            let double = pressed_keys.len() == 2 && keys.len() == 4 && contains_key(keys, pressed_keys[0])
                && contains_key(keys, pressed_keys[1]);
            if single || double {
                return self.controls[i].0;
            }
            i = i + 1;
        }
        Direction::Zero
    }
}

/// The clips that the player's held actions can ask for: the idle clip, the
/// attack without a direction, and the running clip of each compass
/// direction.
pub open spec fn reachable_clips() -> Seq<(AnimationState, Direction)> {
    seq![
        (AnimationState::Idle, Direction::Zero),
        (AnimationState::Attack, Direction::Zero),
        (AnimationState::Run, Direction::Up),
        (AnimationState::Run, Direction::Down),
        (AnimationState::Run, Direction::Left),
        (AnimationState::Run, Direction::Right),
        (AnimationState::Run, Direction::UpRight),
        (AnimationState::Run, Direction::UpLeft),
        (AnimationState::Run, Direction::DownRight),
        (AnimationState::Run, Direction::DownLeft),
    ]
}

/// The clips that the player's held actions can ask for.
pub fn player_clip_keys() -> (keys: Vec<(AnimationState, Direction)>)
    ensures
        keys@ == reachable_clips(),
{
    let mut keys: Vec<(AnimationState, Direction)> = Vec::new();
    keys.push((AnimationState::Idle, Direction::Zero));
    keys.push((AnimationState::Attack, Direction::Zero));
    keys.push((AnimationState::Run, Direction::Up));
    keys.push((AnimationState::Run, Direction::Down));
    keys.push((AnimationState::Run, Direction::Left));
    keys.push((AnimationState::Run, Direction::Right));
    keys.push((AnimationState::Run, Direction::UpRight));
    keys.push((AnimationState::Run, Direction::UpLeft));
    keys.push((AnimationState::Run, Direction::DownRight));
    keys.push((AnimationState::Run, Direction::DownLeft));
    assert(keys@ =~= reachable_clips());
    keys
}

/// Whatever is held, the player asks only for clips of `reachable_clips`.
pub proof fn lemma_player_asks_for_reachable_clips(entity: u64, actions: Set<ControlledAction>)
    ensures
        forall|i: int|
            0 <= i < action_commands(entity, actions).clips.len() ==> reachable_clips().contains(
                (
                    (#[trigger] action_commands(entity, actions).clips[i]).new_state,
                    action_commands(entity, actions).clips[i].new_direction,
                ),
            ),
{
    let keys = reachable_clips();
    let clips = action_commands(entity, actions).clips;
    crate::movement::lemma_resolved_direction(actions);
    assert forall|i: int| 0 <= i < clips.len() implies keys.contains(
        ((#[trigger] clips[i]).new_state, clips[i].new_direction),
    ) by {
        let key = (clips[i].new_state, clips[i].new_direction);
        if key == keys[0] {
        } else if key == keys[1] {
        } else if key == keys[2] {
        } else if key == keys[3] {
        } else if key == keys[4] {
        } else if key == keys[5] {
        } else if key == keys[6] {
        } else if key == keys[7] {
        } else if key == keys[8] {
        } else if key == keys[9] {
        } else {
            assert(false);
        }
    }
}

/// The player's library has a clip with frames for every clip that the
/// player's held actions can ask for.
pub proof fn lemma_player_library_complete(sheets: PlayerSheets)
    ensures
        forall|i: int|
            0 <= i < reachable_clips().len() ==> (player_clip(
                sheets,
                (#[trigger] reachable_clips()[i]).0,
                reachable_clips()[i].1,
            ) matches Some(entry) && entry.clip.indices.wf()),
{
}

} // verus!
