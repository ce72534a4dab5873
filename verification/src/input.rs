//! The keys the game listens to, as the engine saw them at the start of a
//! frame.

use vstd::prelude::*;

verus! {

/// Which of the game's keys are held down.
#[derive(Clone, Copy, Debug, PartialEq, Eq, Structural)]
pub struct InputSnapshot {
    /// The key that moves the player to the left.
    pub move_left: bool,
    /// The key that moves the player to the right.
    pub move_right: bool,
    /// The key that fires the player's gun.
    pub shoot: bool,
}

/// The two keys that move the player.
#[derive(Clone, Copy, Debug, PartialEq, Eq, Structural)]
pub enum MovementKey {
    Left,
    Right,
}

} // verus!
