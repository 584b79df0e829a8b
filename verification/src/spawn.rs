//! The timers that let enemies and stars appear while the game runs.

use crate::timer::{FrameTimer, TimerMode};
use vstd::prelude::*;

verus! {

/// How many enemies a game starts with.
pub const NUMBER_OF_ENEMIES: usize = 4;

/// How many stars a game starts with.
pub const NUMBER_OF_STARS: usize = 14;

/// Milliseconds between two new enemies.
pub const ENEMY_SPAWN_MS: u64 = 3_000;

/// Milliseconds between two new stars.
pub const STAR_SPAWN_MS: u64 = 1_500;

/// Times the appearing of enemies.
#[derive(Clone, Copy, Debug, PartialEq, Eq, Structural)]
pub struct EnemySpawnTimer {
    pub timer: FrameTimer,
}

/// Times the appearing of stars.
#[derive(Clone, Copy, Debug, PartialEq, Eq, Structural)]
pub struct StarSpawnTimer {
    pub timer: FrameTimer,
}

impl Default for EnemySpawnTimer {
    fn default() -> (spawn_timer: EnemySpawnTimer)
        ensures
            spawn_timer.timer == FrameTimer::fresh(ENEMY_SPAWN_MS, TimerMode::Repeating),
    {
        EnemySpawnTimer { timer: FrameTimer::new(ENEMY_SPAWN_MS, TimerMode::Repeating) }
    }
}

impl Default for StarSpawnTimer {
    fn default() -> (spawn_timer: StarSpawnTimer)
        ensures
            spawn_timer.timer == FrameTimer::fresh(STAR_SPAWN_MS, TimerMode::Repeating),
    {
        StarSpawnTimer { timer: FrameTimer::new(STAR_SPAWN_MS, TimerMode::Repeating) }
    }
}

/// Lets `delta_ns` nanoseconds pass for the enemies' timer.
pub fn tick_enemy_spawn_timer(enemy_spawn_timer: &mut EnemySpawnTimer, delta_ns: u64)
    requires
        old(enemy_spawn_timer).timer.wf(),
    ensures
        final(enemy_spawn_timer).timer == old(enemy_spawn_timer).timer.ticked(delta_ns),
        final(enemy_spawn_timer).timer.wf(),
{
    enemy_spawn_timer.timer.tick(delta_ns);
}

/// How many enemies are to appear now: one where the timer has reached its
/// period, else none.
pub fn spawn_enemies_over_time(enemy_spawn_timer: &EnemySpawnTimer) -> (count: usize)
    ensures
        count == if enemy_spawn_timer.timer.finished {
            1usize
        } else {
            0usize
        },
{
    if enemy_spawn_timer.timer.finished() {
        1
    } else {
        0
    }
}

} // verus!
