//! Behaviours: per-entity state machines driven by ticks and messages.
//!
//! A behaviour holds the private state of one entity. The engine calls it
//! when the entity is created, once per frame, when a message arrives and
//! when the entity is destroyed. A behaviour never reaches into another
//! entity: it asks the engine, through the command queue, to create or
//! destroy an entity or to deliver a message, and the engine does so after
//! the frame.

pub mod bullet_behaviour;
pub mod commands;
pub mod enemy_behaviour;
pub mod enemy_combat_behaviour;
pub mod enemy_spawner_behaviour;
pub mod game_manager_behaviour;
pub mod messages;
pub mod player_combat_behaviour;
pub mod player_life_display_behaviour;
pub mod player_move_behaviour;
pub mod star_behaviour;
pub mod star_spawner_behaviour;
pub mod text_behaviour;

use vstd::prelude::*;

verus! {

/// Identity of the entity that keeps the score.
pub const GAME_MANAGER_ID: &'static str = "game-manager";

/// Identity of the player.
pub const PLAYER_ID: &'static str = "player";

/// Identity of the entity that spawns and moves the enemies.
pub const ENEMY_SPAWNER_ID: &'static str = "enemy-spawner";

} // verus!
