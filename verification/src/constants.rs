//! Fixed numbers of the game: screen size, glyphs, layers and points.

use vstd::prelude::*;

verus! {

/// Width of the playing field in cells.
pub const SCREEN_WIDTH: u64 = 50;

/// Height of the playing field in cells.
pub const SCREEN_HEIGHT: u64 = 20;

/// Row on which the player stands; the HUD lives below it.
pub const UI_Y_START_POSITION: u64 = 17;

pub const PLAYER_DISPLAY_CHAR: char = 'A';

/// Collision layer of the player.
pub const PLAYER_COLLISION_LAYER: i32 = 1;

pub const PLAYER_BULLET_DISPLAY_CHAR: char = '"';

/// Collision layer of bullets fired by the player.
pub const PLAYER_BULLET_COLLISION_LAYER: i32 = 3;

/// Number of lives the player starts with, and gets back on a reset.
pub const PLAYER_STARTING_LIVES: u8 = 3;

/// Draw-order layer of the decorative background.
pub const BACKGROUND_LAYER: i32 = -10;

/// Draw-order layer of bullets in the behaviour-driven entities.
pub const BULLET_LAYER: i32 = -1;

/// Draw-order layer of HUD text characters.
pub const UI_LAYER: i32 = 10;

pub const ENEMY_DISPLAY_CHAR: char = '@';

/// Collision layer of enemies.
pub const ENEMY_COLLISION_LAYER: i32 = 2;

pub const ENEMY_BULLET_DISPLAY_CHAR: char = 'o';

/// Collision layer of bullets fired by enemies.
pub const ENEMY_BULLET_COLLISION_LAYER: i32 = 4;

/// Points awarded for one destroyed enemy.
pub const ENEMY_POINT_VALUE: u64 = 100;

pub const STAR_DISPLAY_CHAR: char = '*';

/// Time between two steps of a behaviour-driven star, and between two spawns.
pub const STAR_WAIT_TIME_MILLIS: u128 = 500;

} // verus!
