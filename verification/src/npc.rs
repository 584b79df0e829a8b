//! The warriors: computer-led fighters that walk where their shared
//! direction points.

use crate::movement::{Direction, MoveEvent};
use crate::timer::{FrameTimer, TimerMode};
use vstd::prelude::*;

verus! {

/// Milliseconds between two changes of the warriors' direction.
pub const WARRIOR_DIRECTION_MS: u64 = 2_000;

/// The acceleration with which warriors are moved.
pub const WARRIOR_ACCELERATION: u32 = 50;

/// The speed with which warriors are moved.
pub const WARRIOR_SPEED: u32 = 1;

/// The direction in which all warriors walk.
#[derive(Clone, Copy, Debug, PartialEq, Eq, Structural)]
pub struct WarriorDirection {
    pub direction: Direction,
}

/// Times the changes of the warriors' direction.
#[derive(Clone, Copy, Debug, PartialEq, Eq, Structural)]
pub struct WarriorDirectionTimer(pub FrameTimer);

impl Default for WarriorDirection {
    fn default() -> (warrior_direction: WarriorDirection)
        ensures
            warrior_direction.direction == Direction::Zero,
    {
        WarriorDirection { direction: Direction::Zero }
    }
}

impl Default for WarriorDirectionTimer {
    fn default() -> (timer: WarriorDirectionTimer)
        ensures
            timer.0 == FrameTimer::fresh(WARRIOR_DIRECTION_MS, TimerMode::Repeating),
    {
        WarriorDirectionTimer(FrameTimer::new(WARRIOR_DIRECTION_MS, TimerMode::Repeating))
    }
}

/// Lets `delta_ns` nanoseconds pass; whenever the timer's period is reached
/// the warriors turn to the right.
pub fn change_warrior_direction(
    warrior_direction: &mut WarriorDirection,
    timer: &mut WarriorDirectionTimer,
    delta_ns: u64,
)
    requires
        old(timer).0.wf(),
    ensures
        final(timer).0 == old(timer).0.ticked(delta_ns),
        final(timer).0.wf(),
        final(warrior_direction).direction == if final(timer).0.finished {
            Direction::Right
        } else {
            old(warrior_direction).direction
        },
{
    timer.0.tick(delta_ns);
    if timer.0.finished() {
        warrior_direction.direction = Direction::Right;
    }
}

/// Asks every warrior to move in the warriors' direction.
pub fn warrior_movement(warriors: &Vec<u64>, warrior_direction: &WarriorDirection) -> (moves: Vec<MoveEvent>)
    ensures
        moves@.len() == warriors@.len(),
        forall|i: int|
            0 <= i < warriors@.len() ==> (#[trigger] moves@[i]) == (MoveEvent {
                entity: warriors@[i],
                direction: warrior_direction.direction,
                acceleration: WARRIOR_ACCELERATION,
                speed: WARRIOR_SPEED,
            }),
{
    let mut moves: Vec<MoveEvent> = Vec::new();
    let mut i: usize = 0;
    while i < warriors.len()
        invariant
            i <= warriors.len(),
            moves@.len() == i,
            forall|j: int|
                0 <= j < i ==> (#[trigger] moves@[j]) == (MoveEvent {
                    entity: warriors@[j],
                    direction: warrior_direction.direction,
                    acceleration: WARRIOR_ACCELERATION,
                    speed: WARRIOR_SPEED,
                }),
        decreases warriors.len() - i,
    {
        moves.push(
            MoveEvent::new(warriors[i], warrior_direction.direction, WARRIOR_ACCELERATION, WARRIOR_SPEED),
        );
        i = i + 1;
    }
    moves
}

} // verus!
