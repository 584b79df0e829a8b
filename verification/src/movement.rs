//! Directions of movement and the events that ask for movement.

use crate::controls::{contains_action, has_move, ControlledAction};
use vstd::prelude::*;

verus! {

/// One of the eight compass directions, standing still, or a direction left
/// to chance.
#[derive(Clone, Copy, Debug, PartialEq, Eq, Hash, Structural)]
pub enum Direction {
    Zero,
    Random,
    Up,
    Down,
    Right,
    Left,
    UpRight,
    UpLeft,
    DownRight,
    DownLeft,
}

/// A vector of whole steps along the three axes.
#[derive(Clone, Copy, Debug, PartialEq, Eq, Structural)]
pub struct StepVec {
    pub x: i32,
    pub y: i32,
    pub z: i32,
}

/// Asks to move an entity.
#[derive(Clone, Copy, Debug, PartialEq, Eq, Structural)]
pub struct MoveEvent {
    pub entity: u64,
    pub direction: Direction,
    pub acceleration: u32,
    pub speed: u32,
}

/// Tells that an entity stopped moving.
#[derive(Clone, Copy, Debug, PartialEq, Eq, Structural)]
pub struct MoveEndEvent {
    pub entity: u64,
}

/// The direction that a set of held actions stands for. Diagonals come first,
/// in the order up-right, down-left, down-right, up-left; then the single
/// directions up, down, left, right. The first rule that applies decides, so
/// opposite keys held together do not cancel.
pub open spec fn resolve_direction(actions: Set<ControlledAction>) -> Direction {
    let up = actions.contains(ControlledAction::MoveUp);
    let down = actions.contains(ControlledAction::MoveDown);
    let left = actions.contains(ControlledAction::MoveLeft);
    let right = actions.contains(ControlledAction::MoveRight);
    if up && right {
        Direction::UpRight
    } else if down && left {
        Direction::DownLeft
    } else if down && right {
        Direction::DownRight
    } else if up && left {
        Direction::UpLeft
    } else if up {
        Direction::Up
    } else if down {
        Direction::Down
    } else if left {
        Direction::Left
    } else if right {
        Direction::Right
    } else {
        Direction::Zero
    }
}

impl StepVec {
    /// The sum of two vectors, component by component.
    pub open spec fn plus(self, other: StepVec) -> StepVec {
        StepVec {
            x: (self.x + other.x) as i32,
            y: (self.y + other.y) as i32,
            z: (self.z + other.z) as i32,
        }
    }
}

impl MoveEvent {
    pub fn new(entity: u64, direction: Direction, acceleration: u32, speed: u32) -> (event: MoveEvent)
        ensures
            event == (MoveEvent { entity, direction, acceleration, speed }),
    {
        MoveEvent { entity, direction, acceleration, speed }
    }
}

impl Default for Direction {
    fn default() -> (direction: Direction)
        ensures
            direction == Direction::Zero,
    {
        Direction::Zero
    }
}

impl Direction {
    /// Whether the direction leans to the left.
    pub open spec fn leans_left(self) -> bool {
        self == Direction::Left || self == Direction::UpLeft || self == Direction::DownLeft
    }

    /// The steps of a fixed direction: one step along each axis it follows.
    /// A diagonal is the sum of its two axes and is not brought back to
    /// length one.
    pub open spec fn steps(self) -> StepVec {
        match self {
            Direction::Up => StepVec { x: 0, y: 1, z: 0 },
            Direction::Down => StepVec { x: 0, y: -1i32, z: 0 },
            Direction::Right => StepVec { x: 1, y: 0, z: 0 },
            Direction::Left => StepVec { x: -1i32, y: 0, z: 0 },
            Direction::UpRight => StepVec { x: 1, y: 1, z: 0 },
            Direction::UpLeft => StepVec { x: -1i32, y: 1, z: 0 },
            Direction::DownRight => StepVec { x: 1, y: -1i32, z: 0 },
            Direction::DownLeft => StepVec { x: -1i32, y: -1i32, z: 0 },
            Direction::Zero => StepVec { x: 0, y: 0, z: 0 },
            Direction::Random => StepVec { x: 0, y: 0, z: 0 },
        }
    }

    /// Resolves the held actions to one direction.
    pub fn from_actions(actions: &Vec<ControlledAction>) -> (direction: Direction)
        ensures
            direction == resolve_direction(actions@.to_set()),
    {
        let up = contains_action(actions, ControlledAction::MoveUp);
        let down = contains_action(actions, ControlledAction::MoveDown);
        let left = contains_action(actions, ControlledAction::MoveLeft);
        let right = contains_action(actions, ControlledAction::MoveRight);
        if up && right {
            Direction::UpRight
        } else if down && left {
            Direction::DownLeft
        } else if down && right {
            Direction::DownRight
        } else if up && left {
            Direction::UpLeft
        } else if up {
            Direction::Up
        } else if down {
            Direction::Down
        } else if left {
            Direction::Left
        } else if right {
            Direction::Right
        } else {
            Direction::Zero
        }
    }

    /// The steps that the held actions ask for: for a diagonal the sum of the
    /// steps of its two axes.
    pub fn vec_from_actions(actions: &Vec<ControlledAction>) -> (steps: StepVec)
        ensures
            steps == resolve_direction(actions@.to_set()).steps(),
    {
        let up = contains_action(actions, ControlledAction::MoveUp);
        let down = contains_action(actions, ControlledAction::MoveDown);
        let left = contains_action(actions, ControlledAction::MoveLeft);
        let right = contains_action(actions, ControlledAction::MoveRight);
        if up && right {
            sum_steps(Direction::Up, Direction::Right)
        } else if down && left {
            sum_steps(Direction::Down, Direction::Left)
        } else if down && right {
            sum_steps(Direction::Down, Direction::Right)
        } else if up && left {
            sum_steps(Direction::Up, Direction::Left)
        } else if up {
            fixed_steps(Direction::Up)
        } else if down {
            fixed_steps(Direction::Down)
        } else if left {
            fixed_steps(Direction::Left)
        } else if right {
            fixed_steps(Direction::Right)
        } else {
            fixed_steps(Direction::Zero)
        }
    }

    /// Whether the direction leans to the left, so that a sprite drawn facing
    /// right has to be mirrored.
    pub fn is_neg_x_axes(&self) -> (left: bool)
        ensures
            left == self.leans_left(),
    {
        match self {
            Direction::Left => true,
            Direction::UpLeft => true,
            Direction::DownLeft => true,
            _ => false,
        }
    }

    /// The steps of the direction, or `None` for `Random`, whose vector is
    /// drawn by the caller.
    pub fn get_direction_vec(&self) -> (steps: Option<StepVec>)
        ensures
            steps == if *self == Direction::Random {
                None
            } else {
                Some(self.steps())
            },
    {
        match self {
            Direction::Random => None,
            _ => Some(fixed_steps(*self)),
        }
    }
}

/// The steps of a direction that is not left to chance.
fn fixed_steps(direction: Direction) -> (steps: StepVec)
    ensures
        steps == direction.steps(),
{
    match direction {
        Direction::Up => StepVec { x: 0, y: 1, z: 0 },
        Direction::Down => StepVec { x: 0, y: -1, z: 0 },
        Direction::Right => StepVec { x: 1, y: 0, z: 0 },
        Direction::Left => StepVec { x: -1, y: 0, z: 0 },
        Direction::UpRight => StepVec { x: 1, y: 1, z: 0 },
        Direction::UpLeft => StepVec { x: -1, y: 1, z: 0 },
        Direction::DownRight => StepVec { x: 1, y: -1, z: 0 },
        Direction::DownLeft => StepVec { x: -1, y: -1, z: 0 },
        Direction::Zero => StepVec { x: 0, y: 0, z: 0 },
        Direction::Random => StepVec { x: 0, y: 0, z: 0 },
    }
}

/// The sum of the steps of two directions.
fn sum_steps(first: Direction, second: Direction) -> (steps: StepVec)
    ensures
        steps == first.steps().plus(second.steps()),
{
    let a = fixed_steps(first);
    let b = fixed_steps(second);
    StepVec { x: a.x + b.x, y: a.y + b.y, z: a.z + b.z }
}

/// Every set of actions resolves to a direction that is fixed, never one
/// left to chance, and to standing still exactly where no move is held.
pub proof fn lemma_resolved_direction(actions: Set<ControlledAction>)
    ensures
        resolve_direction(actions) != Direction::Random,
        resolve_direction(actions) == Direction::Zero <==> !has_move(actions),
{
    if has_move(actions) {
        let held = choose|action: ControlledAction| actions.contains(action) && #[trigger] action.is_move();
        assert(actions.contains(held));
    } else {
        assert(ControlledAction::MoveUp.is_move());
        assert(ControlledAction::MoveDown.is_move());
        assert(ControlledAction::MoveLeft.is_move());
        assert(ControlledAction::MoveRight.is_move());
    }
}

/// Actions that are no moves do not count: only the four moves among the
/// held actions decide the direction.
pub proof fn lemma_only_moves_decide(actions: Set<ControlledAction>, others: Set<ControlledAction>)
    requires
        forall|action: ControlledAction| #[trigger] action.is_move() ==> (actions.contains(action)
            <==> others.contains(action)),
    ensures
        resolve_direction(actions) == resolve_direction(others),
{
    assert(ControlledAction::MoveUp.is_move());
    assert(ControlledAction::MoveDown.is_move());
    assert(ControlledAction::MoveLeft.is_move());
    assert(ControlledAction::MoveRight.is_move());
}

} // verus!
