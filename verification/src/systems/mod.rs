//! The systems of the game, and the order in which a frame runs them.
//!
//! A system reads the matches of its queries and changes component data in
//! place; whatever creates or destroys an entity goes to the command queue.
//! Changes to component data are seen by the systems that run later in the
//! same frame, so the order of the systems is part of the rules.

pub mod sys_bullets;
pub mod sys_enemies;
pub mod sys_hud;
pub mod sys_player;
pub mod sys_stars;

use vstd::prelude::*;

verus! {

/// When a system runs: once before the first frame, or once per frame.
#[derive(Clone, Copy, Debug, PartialEq, Eq, Structural)]
pub enum GameEvent {
    Init,
    Update,
}

/// The systems of the game.
#[derive(Clone, Copy, Debug, PartialEq, Eq, Structural)]
pub enum SystemId {
    HudSetup,
    HudUpdate,
    PlayerSetup,
    PlayerMovement,
    PlayerCombat,
    PlayerDeath,
    MoveBullets,
    PlayerBulletHitsEnemy,
    EnemyBulletHitsPlayer,
    CleanupBullets,
    EnemySetup,
    SpawnEnemies,
    EnemyShoot,
    EnemyMovement,
    StarsSetup,
    MoveStars,
    SpawnStars,
}

/// A system together with the event that runs it.
#[derive(Clone, Copy, Debug, PartialEq, Eq, Structural)]
pub struct ScheduledSystem {
    pub event: GameEvent,
    pub system: SystemId,
}

/// The system `system`, run once before the first frame.
pub open spec fn on_init(system: SystemId) -> ScheduledSystem {
    ScheduledSystem { event: GameEvent::Init, system }
}

/// The system `system`, run once per frame.
pub open spec fn on_update(system: SystemId) -> ScheduledSystem {
    ScheduledSystem { event: GameEvent::Update, system }
}

} // verus!
