//! Sprite-sheet clips, the library that holds one clip for each behaviour and
//! direction, and the cursor that walks the frames of the clip in use.

use crate::movement::Direction;
use crate::timer::{FrameTimer, TimerMode};
use vstd::arithmetic::div_mod::{lemma_fundamental_div_mod, lemma_fundamental_div_mod_converse};
use vstd::prelude::*;

verus! {

/// How many directions there are.
pub const DIRECTION_COUNT: usize = 10;

/// How many clips a library can hold: one for each behaviour and direction.
pub const SLOT_COUNT: usize = 40;

/// What an animated entity is doing.
#[derive(Clone, Copy, Debug, PartialEq, Eq, Hash, Structural)]
pub enum AnimationState {
    Idle,
    Walk,
    Run,
    Attack,
}

/// The first and the last frame of a clip within its sprite sheet.
#[derive(Clone, Copy, Debug, PartialEq, Eq, Hash, Structural)]
pub struct AnimationIndices {
    pub first: usize,
    pub last: usize,
}

/// The frames and the frame timer of the clip that an entity plays.
#[derive(Clone, Copy, Debug, PartialEq, Eq, Structural)]
pub struct AnimationClip {
    pub indices: AnimationIndices,
    pub timer: FrameTimer,
}

/// The frames and the frame timer of a clip as the library keeps it.
#[derive(Clone, Copy, Debug, PartialEq, Eq, Structural)]
pub struct AnimationClipResource {
    pub indices: AnimationIndices,
    pub timer: FrameTimer,
}

/// The image of a clip and the layout of its sheet, each named by the number
/// under which the engine keeps the handle.
#[derive(Clone, Copy, Debug, PartialEq, Eq, Structural)]
pub struct AnimationResource {
    pub texture: u32,
    pub atlas_layout: u32,
}

/// One clip of the library: what to play and what to draw it from.
#[derive(Clone, Copy, Debug, PartialEq, Eq, Structural)]
pub struct LibraryClip {
    pub clip: AnimationClipResource,
    pub resource: AnimationResource,
}

/// Asks that an entity play the clip of a behaviour and a direction.
#[derive(Clone, Copy, Debug, PartialEq, Eq, Structural)]
pub struct ClipChangeEvent {
    pub entity: u64,
    pub new_state: AnimationState,
    pub new_direction: Direction,
}

/// Why a clip could not be taken from the library.
#[derive(Clone, Copy, Debug, PartialEq, Eq, Structural)]
pub enum AnimationError {
    /// The library holds no clip for this behaviour and direction.
    NoClip { state: AnimationState, direction: Direction },
    /// The clip's last frame lies before its first.
    EmptyClip { state: AnimationState, direction: Direction },
}

/// What a request for a clip did to a cursor.
#[derive(Clone, Copy, Debug, PartialEq, Eq, Structural)]
pub enum ClipChange {
    /// The clip was asked for already: nothing changed.
    Unchanged,
    /// The clip in use was asked for again: a waiting switch was dropped.
    Kept,
    /// The switch waits for the next frame boundary.
    Deferred,
    /// The cursor plays the new clip.
    Switched,
}

/// The clip library: at most one clip for each behaviour and direction.
#[derive(Debug)]
pub struct AnimationLibrary {
    clips: Vec<Option<LibraryClip>>,
}

/// The animation state of one entity: which clip it plays, how far the frame
/// timer is, which frame is shown, and the clip that waits to be played.
#[derive(Clone, Copy, Debug, PartialEq, Eq, Structural)]
pub struct AnimationCursor {
    pub state: AnimationState,
    pub direction: Direction,
    pub clip: AnimationClip,
    pub resource: AnimationResource,
    pub frame_index: usize,
    pub pending: Option<PendingClip>,
}

/// A clip that waits for the next frame boundary.
#[derive(Clone, Copy, Debug, PartialEq, Eq, Structural)]
pub struct PendingClip {
    pub state: AnimationState,
    pub direction: Direction,
    pub target: LibraryClip,
}

/// The place of a behaviour among the behaviours.
pub open spec fn state_slot(state: AnimationState) -> int {
    match state {
        AnimationState::Idle => 0,
        AnimationState::Walk => 1,
        AnimationState::Run => 2,
        AnimationState::Attack => 3,
    }
}

/// The place of a direction among the directions.
pub open spec fn direction_slot(direction: Direction) -> int {
    match direction {
        Direction::Zero => 0,
        Direction::Random => 1,
        Direction::Up => 2,
        Direction::Down => 3,
        Direction::Right => 4,
        Direction::Left => 5,
        Direction::UpRight => 6,
        Direction::UpLeft => 7,
        Direction::DownRight => 8,
        Direction::DownLeft => 9,
    }
}

/// The place of a clip in the library.
pub open spec fn clip_slot(state: AnimationState, direction: Direction) -> int {
    state_slot(state) * 10 + direction_slot(direction)
}

/// The frame that follows `index` at a frame boundary: the next one up to the
/// last, then the first again. A frame before the first is brought to the
/// first.
pub open spec fn next_frame(indices: AnimationIndices, index: usize) -> usize {
    if index < indices.first {
        indices.first
    } else if index < indices.last {
        (index + 1) as usize
    } else {
        indices.first
    }
}

/// The frame that a switch to a new clip shows: the frame shown before where
/// the new clip has it, else the new clip's first.
pub open spec fn carried_frame(indices: AnimationIndices, index: usize) -> usize {
    if indices.first <= index <= indices.last {
        index
    } else {
        indices.first
    }
}

/// The result of asking a cursor for a clip: the cursor afterwards and what
/// happened, or the error that left it as it was.
pub type Requested = Result<(AnimationCursor, ClipChange), AnimationError>;

impl Default for AnimationState {
    fn default() -> (state: AnimationState)
        ensures
            state == AnimationState::Idle,
    {
        AnimationState::Idle
    }
}

impl AnimationIndices {
    /// The last frame does not lie before the first.
    pub open spec fn wf(self) -> bool {
        self.first <= self.last
    }

    /// Whether the clip has the frame `index`.
    pub open spec fn has(self, index: usize) -> bool {
        self.first <= index <= self.last
    }

    pub fn new(first: usize, last: usize) -> (indices: AnimationIndices)
        ensures
            indices == (AnimationIndices { first, last }),
    {
        AnimationIndices { first, last }
    }
}

impl AnimationClip {
    pub fn new(indices: AnimationIndices, timer_mills: u64, timer_mode: TimerMode) -> (clip: AnimationClip)
        ensures
            clip == (AnimationClip { indices, timer: FrameTimer::fresh(timer_mills, timer_mode) }),
    {
        AnimationClip { indices, timer: FrameTimer::new(timer_mills, timer_mode) }
    }

    pub fn new_with_timer(indices: AnimationIndices, timer: FrameTimer) -> (clip: AnimationClip)
        ensures
            clip == (AnimationClip { indices, timer }),
    {
        AnimationClip { indices, timer }
    }
}

impl AnimationClipResource {
    pub fn new(indices: AnimationIndices, timer_mills: u64, timer_mode: TimerMode) -> (clip:
        AnimationClipResource)
        ensures
            clip == (AnimationClipResource { indices, timer: FrameTimer::fresh(timer_mills, timer_mode) }),
    {
        AnimationClipResource { indices, timer: FrameTimer::new(timer_mills, timer_mode) }
    }
}

impl AnimationResource {
    pub fn new(texture: u32, atlas_layout: u32) -> (resource: AnimationResource)
        ensures
            resource == (AnimationResource { texture, atlas_layout }),
    {
        AnimationResource { texture, atlas_layout }
    }
}

impl ClipChangeEvent {
    pub fn new(entity: u64, new_state: AnimationState, new_direction: Direction) -> (event:
        ClipChangeEvent)
        ensures
            event == (ClipChangeEvent { entity, new_state, new_direction }),
    {
        ClipChangeEvent { entity, new_state, new_direction }
    }
}

/// The place of a clip in the library, as a number.
fn slot_of(state: AnimationState, direction: Direction) -> (slot: usize)
    ensures
        slot == clip_slot(state, direction),
        slot < SLOT_COUNT,
{
    let row: usize = match state {
        AnimationState::Idle => 0,
        AnimationState::Walk => 1,
        AnimationState::Run => 2,
        AnimationState::Attack => 3,
    };
    let column: usize = match direction {
        Direction::Zero => 0,
        Direction::Random => 1,
        Direction::Up => 2,
        Direction::Down => 3,
        Direction::Right => 4,
        Direction::Left => 5,
        Direction::UpRight => 6,
        Direction::UpLeft => 7,
        Direction::DownRight => 8,
        Direction::DownLeft => 9,
    };
    row * DIRECTION_COUNT + column
}

/// Two clips share a place only if they are for the same behaviour and
/// direction.
pub proof fn lemma_slots_differ(
    state: AnimationState,
    direction: Direction,
    other_state: AnimationState,
    other_direction: Direction,
)
    ensures
        0 <= clip_slot(state, direction) < SLOT_COUNT,
        clip_slot(state, direction) == clip_slot(other_state, other_direction) <==> state
            == other_state && direction == other_direction,
{
}

impl AnimationLibrary {
    #[verifier::type_invariant]
    spec fn full_table(self) -> bool {
        self.clips@.len() == SLOT_COUNT
    }

    /// The clip that the library holds for a behaviour and a direction.
    pub closed spec fn clip(self, state: AnimationState, direction: Direction) -> Option<LibraryClip> {
        self.clips@[clip_slot(state, direction)]
    }

    /// A library without clips.
    pub fn new() -> (library: AnimationLibrary)
        ensures
            forall|state: AnimationState, direction: Direction|
                #![trigger library.clip(state, direction)]
                library.clip(state, direction) == None::<LibraryClip>,
    {
        let mut clips: Vec<Option<LibraryClip>> = Vec::new();
        let mut i: usize = 0;
        while i < SLOT_COUNT
            invariant
                i <= SLOT_COUNT,
                clips@.len() == i,
                forall|j: int| 0 <= j < i ==> clips@[j] == None::<LibraryClip>,
            decreases SLOT_COUNT - i,
        {
            clips.push(None);
            i = i + 1;
        }
        let library = AnimationLibrary { clips };
        assert forall|state: AnimationState, direction: Direction|
            library.clip(state, direction) == None::<LibraryClip> by {
            lemma_slots_differ(state, direction, state, direction);
        }
        library
    }

    /// Puts a clip into the library, in place of the one that was there for
    /// the same behaviour and direction.
    pub fn insert(&mut self, state: AnimationState, direction: Direction, entry: LibraryClip)
        ensures
            forall|s: AnimationState, d: Direction|
                #![trigger final(self).clip(s, d)]
                final(self).clip(s, d) == if s == state && d == direction {
                    Some(entry)
                } else {
                    old(self).clip(s, d)
                },
    {
        proof {
            use_type_invariant(&*self);
        }
        let slot = slot_of(state, direction);
        self.clips[slot] = Some(entry);
        assert forall|s: AnimationState, d: Direction|
            self.clip(s, d) == if s == state && d == direction {
                Some(entry)
            } else {
                old(self).clip(s, d)
            } by {
            lemma_slots_differ(s, d, state, direction);
        }
    }

    /// The clip for a behaviour and a direction.
    pub fn get(&self, state: AnimationState, direction: Direction) -> (entry: Option<LibraryClip>)
        ensures
            entry == self.clip(state, direction),
    {
        proof {
            use_type_invariant(self);
        }
        let slot = slot_of(state, direction);
        self.clips[slot]
    }

    /// What the library yields for a behaviour and a direction: the clip, or
    /// why there is none to play.
    pub open spec fn playable(self, state: AnimationState, direction: Direction) -> Result<
        LibraryClip,
        AnimationError,
    > {
        match self.clip(state, direction) {
            None => Err(AnimationError::NoClip { state, direction }),
            Some(entry) => if entry.clip.indices.wf() {
                Ok(entry)
            } else {
                Err(AnimationError::EmptyClip { state, direction })
            },
        }
    }

    /// The clip to play for a behaviour and a direction. Fails where the
    /// library has none, or one without frames.
    pub fn lookup(&self, state: AnimationState, direction: Direction) -> (found: Result<
        LibraryClip,
        AnimationError,
    >)
        ensures
            found == self.playable(state, direction),
    {
        match self.get(state, direction) {
            None => Err(AnimationError::NoClip { state, direction }),
            Some(entry) => {
                if entry.clip.indices.first <= entry.clip.indices.last {
                    Ok(entry)
                } else {
                    Err(AnimationError::EmptyClip { state, direction })
                }
            },
        }
    }
}

impl AnimationLibrary {
    /// Checks that the library has a clip to play for each of `needed`, so
    /// that a missing clip shows before the first frame. Fails with the error
    /// of the first that cannot be played.
    pub fn validate(&self, needed: &Vec<(AnimationState, Direction)>) -> (checked: Result<(), AnimationError>)
        ensures
            match checked {
                Ok(_) => forall|i: int|
                    0 <= i < needed@.len() ==> self.playable(
                        (#[trigger] needed@[i]).0,
                        needed@[i].1,
                    ).is_ok(),
                Err(error) => exists|i: int|
                    0 <= i < needed@.len() && self.playable((#[trigger] needed@[i]).0, needed@[i].1) == Err::<
                        LibraryClip,
                        AnimationError,
                    >(error) && forall|j: int|
                        0 <= j < i ==> self.playable((#[trigger] needed@[j]).0, needed@[j].1).is_ok(),
            },
    {
        let mut i: usize = 0;
        while i < needed.len()
            invariant
                i <= needed.len(),
                forall|j: int|
                    0 <= j < i ==> self.playable((#[trigger] needed@[j]).0, needed@[j].1).is_ok(),
            decreases needed.len() - i,
        {
            match self.lookup(needed[i].0, needed[i].1) {
                Ok(_) => {},
                Err(error) => {
                    return Err(error);
                },
            }
            i = i + 1;
        }
        Ok(())
    }
}

impl Default for AnimationLibrary {
    fn default() -> (library: AnimationLibrary)
        ensures
            forall|state: AnimationState, direction: Direction|
                #![trigger library.clip(state, direction)]
                library.clip(state, direction) == None::<LibraryClip>,
    {
        AnimationLibrary::new()
    }
}

impl PendingClip {
    /// The clip of the library for which the switch waits has frames.
    pub open spec fn wf(self) -> bool {
        self.target.clip.indices.wf()
    }
}

impl AnimationCursor {
    /// The frame timer is sound, the frame shown belongs to the clip in use,
    /// and a clip that waits has frames.
    pub open spec fn wf(self) -> bool {
        &&& self.clip.timer.wf()
        &&& self.clip.indices.has(self.frame_index)
        &&& self.pending matches Some(waiting) ==> waiting.wf()
    }

    /// The behaviour and direction that the cursor was last asked for: those
    /// of the clip that waits, else those of the clip in use.
    pub open spec fn wanted(self) -> (AnimationState, Direction) {
        match self.pending {
            Some(waiting) => (waiting.state, waiting.direction),
            None => (self.state, self.direction),
        }
    }

    /// A cursor at the first frame of a clip, its timer at the start.
    pub open spec fn started(state: AnimationState, direction: Direction, target: LibraryClip) -> AnimationCursor {
        AnimationCursor {
            state,
            direction,
            clip: AnimationClip {
                indices: target.clip.indices,
                timer: FrameTimer::fresh(target.clip.timer.period_ms, target.clip.timer.mode),
            },
            resource: target.resource,
            frame_index: target.clip.indices.first,
            pending: None,
        }
    }

    /// The cursor once it plays `waiting`: the new clip's frames, image and
    /// layout, its timer at the start of the new period, and the frame shown
    /// before where the new clip has it, else the new clip's first.
    pub open spec fn switched(self, waiting: PendingClip) -> AnimationCursor {
        AnimationCursor {
            state: waiting.state,
            direction: waiting.direction,
            clip: AnimationClip {
                indices: waiting.target.clip.indices,
                timer: FrameTimer::fresh(
                    waiting.target.clip.timer.period_ms,
                    waiting.target.clip.timer.mode,
                ),
            },
            resource: waiting.target.resource,
            frame_index: carried_frame(waiting.target.clip.indices, self.frame_index),
            pending: None,
        }
    }

    /// What a frame boundary does: a switch that waits is made; with none
    /// waiting the next frame is shown.
    pub open spec fn at_boundary(self) -> AnimationCursor {
        match self.pending {
            Some(waiting) => self.switched(waiting),
            None => AnimationCursor {
                frame_index: next_frame(self.clip.indices, self.frame_index),
                ..self
            },
        }
    }

    /// The cursor after `delta_ns` nanoseconds: the timer has ticked, and
    /// where that tick completed a period a frame boundary has passed.
    pub open spec fn animated(self, delta_ns: u64) -> AnimationCursor {
        let timer = self.clip.timer.ticked(delta_ns);
        let ticked = AnimationCursor { clip: AnimationClip { timer, ..self.clip }, ..self };
        if timer.times_finished > 0 {
            ticked.at_boundary()
        } else {
            ticked
        }
    }

    /// What asking for the clip of `state` and `direction` does.
    ///
    /// Asking again for what was asked last changes nothing. Asking for the
    /// clip in use drops a switch that waits. Any other clip is taken from
    /// the library; it is played at once where the timer has just completed a
    /// period, and waits for the next frame boundary otherwise.
    pub open spec fn requested(
        self,
        state: AnimationState,
        direction: Direction,
        library: AnimationLibrary,
    ) -> Requested {
        if self.wanted() == (state, direction) {
            Ok((self, ClipChange::Unchanged))
        } else if self.state == state && self.direction == direction {
            Ok((AnimationCursor { pending: None, ..self }, ClipChange::Kept))
        } else {
            match library.playable(state, direction) {
                Err(error) => Err(error),
                Ok(target) => {
                    let waiting = PendingClip { state, direction, target };
                    if self.clip.timer.times_finished > 0 {
                        Ok((self.switched(waiting), ClipChange::Switched))
                    } else {
                        Ok((AnimationCursor { pending: Some(waiting), ..self }, ClipChange::Deferred))
                    }
                },
            }
        }
    }

    /// A cursor for an entity that starts with the library's clip for `state`
    /// and `direction`, at the clip's first frame.
    pub fn start(library: &AnimationLibrary, state: AnimationState, direction: Direction) -> (cursor:
        Result<AnimationCursor, AnimationError>)
        ensures
            cursor == match library.playable(state, direction) {
                Ok(target) => Ok::<AnimationCursor, AnimationError>(
                    AnimationCursor::started(state, direction, target),
                ),
                Err(error) => Err(error),
            },
            cursor matches Ok(made) ==> made.wf(),
    {
        match library.lookup(state, direction) {
            Ok(target) => Ok(
                AnimationCursor {
                    state,
                    direction,
                    clip: AnimationClip {
                        indices: target.clip.indices,
                        timer: FrameTimer::new(target.clip.timer.period_ms, target.clip.timer.mode),
                    },
                    resource: target.resource,
                    frame_index: target.clip.indices.first,
                    pending: None,
                },
            ),
            Err(error) => Err(error),
        }
    }

    /// Whether the cursor is well formed, for callers that cannot prove it.
    pub fn is_valid(&self) -> (valid: bool)
        ensures
            valid == self.wf(),
    {
        let waiting_ok = match self.pending {
            Some(waiting) => waiting.target.clip.indices.first <= waiting.target.clip.indices.last,
            None => true,
        };
        self.clip.timer.is_valid() && self.clip.indices.first <= self.frame_index
            && self.frame_index <= self.clip.indices.last && waiting_ok
    }

    /// Whether the sprite has to be mirrored: the clip in use leans left.
    pub fn flip_x(&self) -> (flip: bool)
        ensures
            flip == self.direction.leans_left(),
    {
        self.direction.is_neg_x_axes()
    }

    /// Makes the switch to `waiting`.
    fn switch_to(&mut self, waiting: PendingClip)
        ensures
            *final(self) == old(self).switched(waiting),
    {
        let indices = waiting.target.clip.indices;
        let frame_index = if indices.first <= self.frame_index && self.frame_index <= indices.last {
            self.frame_index
        } else {
            indices.first
        };
        *self = AnimationCursor {
            state: waiting.state,
            direction: waiting.direction,
            clip: AnimationClip {
                indices,
                timer: FrameTimer::new(
                    waiting.target.clip.timer.period_ms,
                    waiting.target.clip.timer.mode,
                ),
            },
            resource: waiting.target.resource,
            frame_index,
            pending: None,
        };
    }
}

/// The frame to show after a frame boundary of a clip with frames `indices`
/// that showed `index`.
pub fn advance_frame(indices: &AnimationIndices, index: usize) -> (next: usize)
    ensures
        next == next_frame(*indices, index),
{
    if index < indices.first {
        indices.first
    } else if index < indices.last {
        index + 1
    } else {
        indices.first
    }
}

/// What the cursor does with a tick of its timer that has been made: at a
/// frame boundary it makes the switch that waits or shows the next frame.
pub fn apply_boundary(cursor: &mut AnimationCursor, just_finished: bool)
    ensures
        *final(cursor) == if just_finished {
            old(cursor).at_boundary()
        } else {
            *old(cursor)
        },
{
    if just_finished {
        match cursor.pending {
            Some(waiting) => {
                cursor.switch_to(waiting);
            },
            None => {
                cursor.frame_index = advance_frame(&cursor.clip.indices, cursor.frame_index);
            },
        }
    }
}

/// Lets `delta_ns` nanoseconds pass for a cursor: ticks its frame timer and,
/// where the tick completed a period, passes a frame boundary.
pub fn animate_clip(cursor: &mut AnimationCursor, delta_ns: u64)
    requires
        old(cursor).wf(),
    ensures
        *final(cursor) == old(cursor).animated(delta_ns),
        final(cursor).wf(),
{
    cursor.clip.timer.tick(delta_ns);
    let just_finished = cursor.clip.timer.just_finished();
    apply_boundary(cursor, just_finished);
}

/// Asks a cursor to play the clip that `event` names.
pub fn change_animation_clip(
    cursor: &mut AnimationCursor,
    event: &ClipChangeEvent,
    library: &AnimationLibrary,
) -> (change: Result<ClipChange, AnimationError>)
    requires
        old(cursor).wf(),
    ensures
        match old(cursor).requested(event.new_state, event.new_direction, *library) {
            Ok((after, how)) => change == Ok::<ClipChange, AnimationError>(how) && *final(cursor) == after,
            Err(error) => change == Err::<ClipChange, AnimationError>(error) && *final(cursor) == *old(
                cursor,
            ),
        },
        final(cursor).wf(),
{
    let state = event.new_state;
    let direction = event.new_direction;
    let same_as_waiting = match cursor.pending {
        Some(waiting) => waiting.state == state && waiting.direction == direction,
        None => cursor.state == state && cursor.direction == direction,
    };
    if same_as_waiting {
        return Ok(ClipChange::Unchanged);
    }
    if cursor.state == state && cursor.direction == direction {
        cursor.pending = None;
        return Ok(ClipChange::Kept);
    }
    match library.lookup(state, direction) {
        Err(error) => Err(error),
        Ok(target) => {
            let waiting = PendingClip { state, direction, target };
            if cursor.clip.timer.just_finished() {
                cursor.switch_to(waiting);
                Ok(ClipChange::Switched)
            } else {
                cursor.pending = Some(waiting);
                Ok(ClipChange::Deferred)
            }
        },
    }
}

/// A request that is made twice in a row does nothing the second time: the
/// cursor, its timer included, stays as the first request left it.
pub proof fn lemma_request_twice(
    cursor: AnimationCursor,
    state: AnimationState,
    direction: Direction,
    library: AnimationLibrary,
)
    ensures
        cursor.requested(state, direction, library) matches Ok((after, _)) ==> after.requested(
            state,
            direction,
            library,
        ) == Ok::<(AnimationCursor, ClipChange), AnimationError>((after, ClipChange::Unchanged)),
{
}

/// A switch keeps the frame shown where the new clip has that frame, and
/// shows the new clip's first frame otherwise.
pub proof fn lemma_switch_carries_frame(cursor: AnimationCursor, waiting: PendingClip)
    ensures
        waiting.target.clip.indices.has(cursor.frame_index) ==> cursor.switched(waiting).frame_index
            == cursor.frame_index,
        !waiting.target.clip.indices.has(cursor.frame_index) ==> cursor.switched(waiting).frame_index
            == waiting.target.clip.indices.first,
{
}

/// Whatever time passes and whatever clip is asked for, the frame shown is
/// one of the clip in use.
pub proof fn lemma_frame_stays_in_clip(
    cursor: AnimationCursor,
    delta_ns: u64,
    state: AnimationState,
    direction: Direction,
    library: AnimationLibrary,
)
    requires
        cursor.wf(),
    ensures
        cursor.animated(delta_ns).wf(),
        cursor.requested(state, direction, library) matches Ok((after, _)) ==> after.wf(),
{
    crate::timer::lemma_tick_model_bounded(
        cursor.clip.timer.mode,
        cursor.clip.timer.period_ms,
        cursor.clip.timer.elapsed_ns,
        delta_ns,
    );
}

/// The clip in use changes only at a frame boundary: while the timer has not
/// just completed a period, neither a request nor the passing of time without
/// a completed period replaces the clip.
pub proof fn lemma_switch_only_at_boundary(
    cursor: AnimationCursor,
    delta_ns: u64,
    state: AnimationState,
    direction: Direction,
    library: AnimationLibrary,
)
    ensures
        cursor.clip.timer.times_finished == 0 ==> (cursor.requested(state, direction, library) matches Ok(
            (after, _),
        ) ==> after.state == cursor.state && after.direction == cursor.direction && after.clip
            == cursor.clip && after.frame_index == cursor.frame_index),
        cursor.clip.timer.ticked(delta_ns).times_finished == 0 ==> {
            let after = cursor.animated(delta_ns);
            after.state == cursor.state && after.direction == cursor.direction && after.clip.indices
                == cursor.clip.indices && after.frame_index == cursor.frame_index
        },
{
}

/// The frame shown after a number of frame boundaries without a switch.
pub open spec fn frame_after(indices: AnimationIndices, index: usize, boundaries: nat) -> usize
    decreases boundaries,
{
    if boundaries == 0 {
        index
    } else {
        next_frame(indices, frame_after(indices, index, (boundaries - 1) as nat))
    }
}

/// The frames of a clip are shown in a cycle: after `boundaries` frame
/// boundaries the frame lies that many places further on, counted round the
/// clip.
pub proof fn lemma_frames_cycle(indices: AnimationIndices, index: usize, boundaries: nat)
    requires
        indices.has(index),
    ensures
        frame_after(indices, index, boundaries) == indices.first + (index - indices.first
            + boundaries) % (indices.last - indices.first + 1),
        indices.has(frame_after(indices, index, boundaries)),
    decreases boundaries,
{
    let length = indices.last - indices.first + 1;
    let offset = index - indices.first;
    if boundaries == 0 {
        lemma_fundamental_div_mod_converse(offset, length, 0, offset);
    } else {
        lemma_frames_cycle(indices, index, (boundaries - 1) as nat);
        let before = offset + boundaries - 1;
        let place = before % length;
        let turns = before / length;
        lemma_fundamental_div_mod(before, length);
        assert(0 <= place < length) by (nonlinear_arith)
            requires
                place == before % length,
                length > 0,
        ;
        if place + 1 < length {
            lemma_fundamental_div_mod_converse(before + 1, length, turns, place + 1);
        } else {
            assert(before + 1 == (turns + 1) * length + 0) by (nonlinear_arith)
                requires
                    before == length * turns + place,
                    place + 1 == length,
            ;
            lemma_fundamental_div_mod_converse(before + 1, length, turns + 1, 0);
        }
    }
}

impl AnimationCursor {
    /// The length of the frame timer's period in nanoseconds.
    pub open spec fn period_ns(self) -> int {
        self.clip.timer.period_ms * 1_000_000
    }

    /// The cursor after `periods` ticks of one full period each.
    pub open spec fn after_periods(self, periods: nat) -> AnimationCursor
        decreases periods,
    {
        if periods == 0 {
            self
        } else {
            self.after_periods((periods - 1) as nat).animated(self.period_ns() as u64)
        }
    }
}

/// A cursor whose repeating timer is ticked by one full period at a time
/// passes exactly one frame boundary with each tick: after `periods` ticks it
/// shows the frame that lies `periods` places further round the clip, and the
/// timer is as far into its period as before.
pub proof fn lemma_full_periods_cycle(cursor: AnimationCursor, periods: nat)
    requires
        cursor.wf(),
        cursor.pending is None,
        cursor.clip.timer.mode == TimerMode::Repeating,
        0 < cursor.period_ns() <= u64::MAX,
        cursor.clip.timer.elapsed_ns < cursor.period_ns(),
    ensures
        cursor.after_periods(periods).frame_index == frame_after(cursor.clip.indices, cursor.frame_index, periods),
        cursor.after_periods(periods).frame_index == cursor.clip.indices.first + (cursor.frame_index
            - cursor.clip.indices.first + periods) % (cursor.clip.indices.last - cursor.clip.indices.first
            + 1),
        cursor.after_periods(periods).state == cursor.state,
        cursor.after_periods(periods).direction == cursor.direction,
        cursor.after_periods(periods).clip.indices == cursor.clip.indices,
        cursor.after_periods(periods).clip.timer.mode == TimerMode::Repeating,
        cursor.after_periods(periods).clip.timer.period_ms == cursor.clip.timer.period_ms,
        cursor.after_periods(periods).clip.timer.elapsed_ns == cursor.clip.timer.elapsed_ns,
        cursor.after_periods(periods).pending is None,
        cursor.after_periods(periods).wf(),
    decreases periods,
{
    lemma_frames_cycle(cursor.clip.indices, cursor.frame_index, periods);
    if periods > 0 {
        let earlier = (periods - 1) as nat;
        lemma_full_periods_cycle(cursor, earlier);
        lemma_frames_cycle(cursor.clip.indices, cursor.frame_index, earlier);
        let before = cursor.after_periods(earlier);
        let period = cursor.period_ns();
        let elapsed = before.clip.timer.elapsed_ns as int;
        lemma_fundamental_div_mod_converse(elapsed + period, period, 1, elapsed);
    }
}

} // verus!
