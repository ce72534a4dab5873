//! The data that the engine stores per entity.
//!
//! Components hold no logic. Those with a stopwatch start it when they are
//! made, so that the first action waits a full cooldown.

use crate::constants::PLAYER_STARTING_LIVES;
use crate::coords::Position;
use thomas::Timer;
use vstd::prelude::*;

verus! {

/// The player's life pool.
#[derive(Clone, Copy, Debug, PartialEq, Eq, Structural)]
pub struct Player {
    pub lives: u8,
}

impl Player {
    /// A player never has more lives than it started with.
    pub open spec fn wf(&self) -> bool {
        self.lives <= PLAYER_STARTING_LIVES
    }

    /// A player with all its lives.
    pub fn new() -> (player: Player)
        ensures
            player.lives == PLAYER_STARTING_LIVES,
            player.wf(),
    {
        Player { lives: PLAYER_STARTING_LIVES }
    }
}

/// Rate limit of the player's sideways steps.
pub struct PlayerMovement {
    pub move_timer: Timer,
}

impl PlayerMovement {
    pub fn new() -> PlayerMovement {
        PlayerMovement { move_timer: Timer::start_new() }
    }
}

/// Score, best score so far and wave number. One per game.
#[derive(Clone, Copy, Debug, PartialEq, Eq, Structural)]
pub struct Scorekeeper {
    pub score: u64,
    pub high_score: u64,
    pub level: u64,
}

/// Rate limit of the player's gun.
pub struct Combat {
    pub shoot_timer: Timer,
}

impl Combat {
    pub fn new() -> Combat {
        Combat { shoot_timer: Timer::start_new() }
    }
}

/// A bullet in flight: its unit step and the stopwatch that paces it.
pub struct Bullet {
    pub direction: Position,
    pub move_timer: Timer,
}

impl Bullet {
    pub fn new(direction: Position) -> (bullet: Bullet)
        ensures
            bullet.direction == direction,
    {
        Bullet { direction, move_timer: Timer::start_new() }
    }
}

/// An enemy: alive as long as the component exists.
pub struct Enemy {
    pub shoot_timer: Timer,
}

impl Enemy {
    pub fn new() -> Enemy {
        Enemy { shoot_timer: Timer::start_new() }
    }
}

/// The stopwatch that paces the whole formation. One per game.
pub struct EnemyMovement {
    pub move_timer: Timer,
}

impl EnemyMovement {
    pub fn new() -> EnemyMovement {
        EnemyMovement { move_timer: Timer::start_new() }
    }
}

/// Paces the arrival of new stars. One per game.
pub struct StarSpawner {
    pub spawn_timer: Timer,
}

impl StarSpawner {
    pub fn new() -> StarSpawner {
        StarSpawner { spawn_timer: Timer::start_new() }
    }
}

/// A background star with its own pace.
pub struct Star {
    pub move_timer: Timer,
    pub move_wait_time: u128,
}

impl Star {
    pub fn new(move_wait_time: u128) -> (star: Star)
        ensures
            star.move_wait_time == move_wait_time,
    {
        Star { move_timer: Timer::start_new(), move_wait_time }
    }
}

} // verus!
