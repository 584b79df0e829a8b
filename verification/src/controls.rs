//! Keys, the actions they are bound to, and the set of actions held in a tick.

use crate::movement::{Direction, MoveEndEvent};
use vstd::prelude::*;

verus! {

/// A key of the keyboard: one that the game knows by name, or any other.
#[derive(Clone, Copy, Debug, PartialEq, Eq, Hash, Structural)]
pub enum Key {
    KeyW,
    KeyA,
    KeyS,
    KeyD,
    KeyF,
    KeyG,
    KeyM,
    ArrowUp,
    ArrowLeft,
    ArrowDown,
    ArrowRight,
    ShiftLeft,
    ShiftRight,
    Space,
    Escape,
    /// Any key that has no name here.
    Other,
}

/// What a key can ask the controlled entity to do.
#[derive(Clone, Copy, Debug, PartialEq, Eq, Hash, Structural)]
pub enum ControlledAction {
    NoAction,
    MoveUp,
    MoveLeft,
    MoveDown,
    MoveRight,
    Run,
    Attack,
}

/// The bindings of keys to actions of one controlled entity. A key that is
/// listed twice has the action of its first entry.
#[derive(Clone, Debug)]
pub struct Controls {
    pub controls_map: Vec<(Key, ControlledAction)>,
}

/// The actions that are held now.
#[derive(Clone, Debug)]
pub struct Actions {
    pub current_actions: Vec<ControlledAction>,
}

/// The actions held in one tick, as sent to whoever moves the entity.
#[derive(Clone, Debug)]
pub struct ActionEvent {
    pub actions: Vec<ControlledAction>,
}

/// Tells that a key bound to an action was released.
#[derive(Clone, Copy, Debug, PartialEq, Eq, Structural)]
pub struct ActionEndEvent {
    pub entity: u64,
    pub action: ControlledAction,
}

/// What one tick of input handling sends out.
#[derive(Clone, Debug)]
pub struct ControlsOutcome {
    /// One event for each released key that was bound to an action, in the
    /// order of the released keys.
    pub action_ends: Vec<ActionEndEvent>,
    /// One event for each released key that was bound to a move.
    pub move_ends: Vec<MoveEndEvent>,
    /// The actions of the held keys; empty where no held key is bound.
    pub action_event: ActionEvent,
}

/// The action of the first entry of `map` for `key`.
pub open spec fn bound_action(map: Seq<(Key, ControlledAction)>, key: Key) -> Option<ControlledAction>
    decreases map.len(),
{
    if map.len() == 0 {
        None
    } else if map[0].0 == key {
        Some(map[0].1)
    } else {
        bound_action(map.subrange(1, map.len() as int), key)
    }
}

/// The actions that the keys of `keys` are bound to.
pub open spec fn bound_actions(map: Seq<(Key, ControlledAction)>, keys: Seq<Key>) -> Set<ControlledAction> {
    Set::new(
        |action: ControlledAction|
            exists|i: int| 0 <= i < keys.len() && bound_action(map, #[trigger] keys[i]) == Some(action),
    )
}

/// The actions of the entries of `keys` that are bound, in the order of
/// `keys`.
pub open spec fn ended_actions(map: Seq<(Key, ControlledAction)>, keys: Seq<Key>) -> Seq<ControlledAction>
    decreases keys.len(),
{
    if keys.len() == 0 {
        Seq::empty()
    } else {
        let rest = ended_actions(map, keys.drop_last());
        match bound_action(map, keys.last()) {
            Some(action) => rest.push(action),
            None => rest,
        }
    }
}

/// How many entries of `keys` are bound to a move.
pub open spec fn bound_moves(map: Seq<(Key, ControlledAction)>, keys: Seq<Key>) -> nat
    decreases keys.len(),
{
    if keys.len() == 0 {
        0
    } else {
        let rest = bound_moves(map, keys.drop_last());
        match bound_action(map, keys.last()) {
            Some(action) => if action.is_move() {
                rest + 1
            } else {
                rest
            },
            None => rest,
        }
    }
}

/// Whether some action of the set is a move.
pub open spec fn has_move(actions: Set<ControlledAction>) -> bool {
    exists|action: ControlledAction| actions.contains(action) && #[trigger] action.is_move()
}

impl Default for ControlledAction {
    fn default() -> (action: ControlledAction)
        ensures
            action == ControlledAction::NoAction,
    {
        ControlledAction::NoAction
    }
}

impl ControlledAction {
    /// Whether the action moves the entity.
    pub open spec fn is_move(self) -> bool {
        self == ControlledAction::MoveUp || self == ControlledAction::MoveDown
            || self == ControlledAction::MoveLeft || self == ControlledAction::MoveRight
    }

    /// The direction of a move; `Zero` for an action that is no move.
    pub open spec fn direction(self) -> Direction {
        match self {
            ControlledAction::MoveUp => Direction::Up,
            ControlledAction::MoveLeft => Direction::Left,
            ControlledAction::MoveDown => Direction::Down,
            ControlledAction::MoveRight => Direction::Right,
            _ => Direction::Zero,
        }
    }

    pub fn get_direction(&self) -> (direction: Direction)
        ensures
            direction == self.direction(),
    {
        match self {
            ControlledAction::MoveUp => Direction::Up,
            ControlledAction::MoveLeft => Direction::Left,
            ControlledAction::MoveDown => Direction::Down,
            ControlledAction::MoveRight => Direction::Right,
            ControlledAction::Run => Direction::Zero,
            ControlledAction::Attack => Direction::Zero,
            ControlledAction::NoAction => Direction::Zero,
        }
    }

    pub fn is_move_action(&self) -> (moves: bool)
        ensures
            moves == self.is_move(),
    {
        match self {
            ControlledAction::MoveUp => true,
            ControlledAction::MoveDown => true,
            ControlledAction::MoveLeft => true,
            ControlledAction::MoveRight => true,
            _ => false,
        }
    }

    pub fn is_run_action(&self) -> (runs: bool)
        ensures
            runs == (*self == ControlledAction::Run),
    {
        *self == ControlledAction::Run
    }
}

/// Whether `action` occurs in `actions`.
pub fn contains_action(actions: &Vec<ControlledAction>, action: ControlledAction) -> (found: bool)
    ensures
        found == actions@.contains(action),
        found == actions@.to_set().contains(action),
{
    let mut i: usize = 0;
    while i < actions.len()
        invariant
            i <= actions.len(),
            forall|j: int| 0 <= j < i ==> actions@[j] != action,
        decreases actions.len() - i,
    {
        if actions[i] == action {
            return true;
        }
        i = i + 1;
    }
    false
}

/// Whether `key` is among `keys`.
pub fn contains_key(keys: &Vec<Key>, key: Key) -> (found: bool)
    ensures
        found == keys@.contains(key),
{
    let mut i: usize = 0;
    while i < keys.len()
        invariant
            i <= keys.len(),
            forall|j: int| 0 <= j < i ==> keys@[j] != key,
        decreases keys.len() - i,
    {
        if keys[i] == key {
            return true;
        }
        i = i + 1;
    }
    false
}

/// Whether some action of `actions` is a move.
fn contains_move_action(actions: &Vec<ControlledAction>) -> (found: bool)
    ensures
        found == has_move(actions@.to_set()),
{
    let up = contains_action(actions, ControlledAction::MoveUp);
    let down = contains_action(actions, ControlledAction::MoveDown);
    let left = contains_action(actions, ControlledAction::MoveLeft);
    let right = contains_action(actions, ControlledAction::MoveRight);
    proof {
        if up {
            assert(ControlledAction::MoveUp.is_move());
        }
        if down {
            assert(ControlledAction::MoveDown.is_move());
        }
        if left {
            assert(ControlledAction::MoveLeft.is_move());
        }
        if right {
            assert(ControlledAction::MoveRight.is_move());
        }
    }
    up || down || left || right
}

impl View for Actions {
    type V = Set<ControlledAction>;

    open spec fn view(&self) -> Set<ControlledAction> {
        self.current_actions@.to_set()
    }
}

impl Actions {
    pub fn contains_running(&self) -> (found: bool)
        ensures
            found == self@.contains(ControlledAction::Run),
    {
        contains_action(&self.current_actions, ControlledAction::Run)
    }

    pub fn contains_move(&self) -> (found: bool)
        ensures
            found == has_move(self@),
    {
        contains_move_action(&self.current_actions)
    }
}

impl Default for Actions {
    fn default() -> (actions: Actions)
        ensures
            actions@ == Set::<ControlledAction>::empty(),
    {
        let actions = Actions { current_actions: Vec::new() };
        assert(actions@ =~= Set::<ControlledAction>::empty());
        actions
    }
}

impl View for ActionEvent {
    type V = Set<ControlledAction>;

    open spec fn view(&self) -> Set<ControlledAction> {
        self.actions@.to_set()
    }
}

impl ActionEvent {
    pub fn new(actions: Vec<ControlledAction>) -> (event: ActionEvent)
        ensures
            event.actions == actions,
    {
        ActionEvent { actions }
    }

    pub fn contains_running(&self) -> (found: bool)
        ensures
            found == self@.contains(ControlledAction::Run),
    {
        contains_action(&self.actions, ControlledAction::Run)
    }

    pub fn contains_move(&self) -> (found: bool)
        ensures
            found == has_move(self@),
    {
        contains_move_action(&self.actions)
    }

    pub fn is_attack(&self) -> (found: bool)
        ensures
            found == self@.contains(ControlledAction::Attack),
    {
        contains_action(&self.actions, ControlledAction::Attack)
    }

    /// Whether no action at all is held.
    pub fn is_idle(&self) -> (idle: bool)
        ensures
            idle == (self@ == Set::<ControlledAction>::empty()),
    {
        let idle = self.actions.len() == 0;
        proof {
            if idle {
                assert(self@ =~= Set::<ControlledAction>::empty());
            } else {
                assert(self.actions@.contains(self.actions@[0]));
                assert(self@.contains(self.actions@[0]));
            }
        }
        idle
    }

    /// Whether both events hold the same actions.
    pub fn same_actions(&self, other: &ActionEvent) -> (same: bool)
        ensures
            same == (self@ == other@),
    {
        let same = self.holds(ControlledAction::NoAction) == other.holds(ControlledAction::NoAction)
            && self.holds(ControlledAction::MoveUp) == other.holds(ControlledAction::MoveUp)
            && self.holds(ControlledAction::MoveLeft) == other.holds(ControlledAction::MoveLeft)
            && self.holds(ControlledAction::MoveDown) == other.holds(ControlledAction::MoveDown)
            && self.holds(ControlledAction::MoveRight) == other.holds(ControlledAction::MoveRight)
            && self.holds(ControlledAction::Run) == other.holds(ControlledAction::Run)
            && self.holds(ControlledAction::Attack) == other.holds(ControlledAction::Attack);
        proof {
            if same {
                assert(self@ =~= other@);
            }
        }
        same
    }

    /// Whether the event holds `action`.
    pub fn holds(&self, action: ControlledAction) -> (found: bool)
        ensures
            found == self@.contains(action),
    {
        contains_action(&self.actions, action)
    }
}

impl Controls {
    pub fn new(controls_map: Vec<(Key, ControlledAction)>) -> (controls: Controls)
        ensures
            controls.controls_map == controls_map,
    {
        Controls { controls_map }
    }

    /// The action that `key` is bound to.
    pub fn get(&self, key: Key) -> (action: Option<ControlledAction>)
        ensures
            action == bound_action(self.controls_map@, key),
    {
        let mut i: usize = 0;
        assert(self.controls_map@.subrange(0, self.controls_map.len() as int) =~= self.controls_map@);
        while i < self.controls_map.len()
            invariant
                i <= self.controls_map.len(),
                bound_action(self.controls_map@, key) == bound_action(
                    self.controls_map@.subrange(i as int, self.controls_map.len() as int),
                    key,
                ),
            decreases self.controls_map.len() - i,
        {
            let ghost rest = self.controls_map@.subrange(i as int, self.controls_map.len() as int);
            assert(rest[0] == self.controls_map@[i as int]);
            assert(rest.subrange(1, rest.len() as int) =~= self.controls_map@.subrange(
                i as int + 1,
                self.controls_map.len() as int,
            ));
            if self.controls_map[i].0 == key {
                return Some(self.controls_map[i].1);
            }
            i = i + 1;
        }
        None
    }
}

/// Turns the keyboard state of one tick into events: for each released key
/// that was bound, the end of its action, and the end of the move where the
/// action was a move; and one event with the actions that the held keys are
/// bound to.
pub fn handle_controls_state(
    controls: &Controls,
    entity: u64,
    pressed_keys: &Vec<Key>,
    released_keys: &Vec<Key>,
) -> (outcome: ControlsOutcome)
    ensures
        outcome.action_ends@.len() == ended_actions(controls.controls_map@, released_keys@).len(),
        forall|i: int|
            0 <= i < outcome.action_ends@.len() ==> (#[trigger] outcome.action_ends@[i]) == (ActionEndEvent {
                entity,
                action: ended_actions(controls.controls_map@, released_keys@)[i],
            }),
        outcome.move_ends@.len() == bound_moves(controls.controls_map@, released_keys@),
        forall|i: int|
            0 <= i < outcome.move_ends@.len() ==> (#[trigger] outcome.move_ends@[i]) == (MoveEndEvent {
                entity,
            }),
        outcome.action_event@ == bound_actions(controls.controls_map@, pressed_keys@),
        outcome.action_event.actions@.no_duplicates(),
{
    let mut action_ends: Vec<ActionEndEvent> = Vec::new();
    let mut move_ends: Vec<MoveEndEvent> = Vec::new();
    let mut i: usize = 0;
    while i < released_keys.len()
        invariant
            i <= released_keys.len(),
            action_ends@.len() == ended_actions(controls.controls_map@, released_keys@.take(i as int)).len(),
            forall|j: int|
                0 <= j < action_ends@.len() ==> (#[trigger] action_ends@[j]) == (ActionEndEvent {
                    entity,
                    action: ended_actions(controls.controls_map@, released_keys@.take(i as int))[j],
                }),
            move_ends@.len() == bound_moves(controls.controls_map@, released_keys@.take(i as int)),
            forall|j: int| 0 <= j < move_ends@.len() ==> (#[trigger] move_ends@[j]) == (MoveEndEvent { entity }),
        decreases released_keys.len() - i,
    {
        assert(released_keys@.take(i as int + 1).drop_last() =~= released_keys@.take(i as int));
        match controls.get(released_keys[i]) {
            Some(action) => {
                action_ends.push(ActionEndEvent { entity, action });
                if action.is_move_action() {
                    move_ends.push(MoveEndEvent { entity });
                }
            },
            None => {},
        }
        i = i + 1;
    }
    assert(released_keys@.take(released_keys@.len() as int) =~= released_keys@);
    let mut actions: Vec<ControlledAction> = Vec::new();
    let mut k: usize = 0;
    while k < pressed_keys.len()
        invariant
            k <= pressed_keys.len(),
            actions@.no_duplicates(),
            actions@.to_set() =~= bound_actions(controls.controls_map@, pressed_keys@.take(k as int)),
        decreases pressed_keys.len() - k,
    {
        let ghost before = actions@;
        let ghost seen = pressed_keys@.take(k as int);
        let ghost next = pressed_keys@.take(k as int + 1);
        let bound = controls.get(pressed_keys[k]);
        match bound {
            Some(action) => {
                if !contains_action(&actions, action) {
                    actions.push(action);
                }
            },
            None => {},
        }
        proof {
            let map = controls.controls_map@;
            assert(next[k as int] == pressed_keys@[k as int]);
            assert forall|a: ControlledAction|
                actions@.to_set().contains(a) == bound_actions(map, next).contains(a) by {
                if bound_actions(map, next).contains(a) {
                    let j = choose|j: int| 0 <= j < next.len() && bound_action(map, #[trigger] next[j]) == Some(a);
                    if j < k {
                        assert(seen[j] == next[j]);
                        assert(bound_actions(map, seen).contains(a));
                        assert(before.contains(a));
                        let at = choose|at: int| 0 <= at < before.len() && before[at] == a;
                        assert(actions@[at] == a);
                    } else {
                        assert(bound == Some(a));
                        if before.contains(a) {
                            let at = choose|at: int| 0 <= at < before.len() && before[at] == a;
                            assert(actions@[at] == a);
                        } else {
                            assert(actions@[before.len() as int] == a);
                        }
                    }
                }
                if actions@.contains(a) {
                    let at = choose|at: int| 0 <= at < actions@.len() && actions@[at] == a;
                    if at < before.len() {
                        assert(before[at] == a);
                        assert(before.contains(a));
                        assert(bound_actions(map, seen).contains(a));
                        let j = choose|j: int| 0 <= j < seen.len() && bound_action(map, #[trigger] seen[j]) == Some(a);
                        assert(next[j] == seen[j]);
                    } else {
                        assert(bound == Some(a));
                        assert(bound_action(map, next[k as int]) == Some(a));
                    }
                }
            }
        }
        k = k + 1;
    }
    assert(pressed_keys@.take(pressed_keys@.len() as int) =~= pressed_keys@);
    ControlsOutcome { action_ends, move_ends, action_event: ActionEvent::new(actions) }
}

} // verus!
