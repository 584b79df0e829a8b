//! Input-to-animation state machine of a small 2D action game: key presses
//! become actions, actions become a direction, and a time-gated cursor walks
//! the frames of the sprite-sheet clip chosen for that direction.

pub mod animation;
pub mod controls;
pub mod movement;
pub mod npc;
pub mod player;
pub mod plugins;
pub mod spawn;
pub mod state;
pub mod timer;
