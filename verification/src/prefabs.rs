//! Descriptions of the entities the game can create.
//!
//! A prefab is plain data: where the entity starts and what the renderer and
//! the collision detector are told about it. The engine turns a prefab into
//! stored components when it applies the command that carries it.

use crate::chance::random_in_range;
use crate::components::Scorekeeper;
use crate::constants::{
    ENEMY_BULLET_COLLISION_LAYER, ENEMY_BULLET_DISPLAY_CHAR, ENEMY_COLLISION_LAYER,
    ENEMY_DISPLAY_CHAR, PLAYER_BULLET_COLLISION_LAYER, PLAYER_BULLET_DISPLAY_CHAR,
    PLAYER_COLLISION_LAYER, PLAYER_DISPLAY_CHAR, PLAYER_STARTING_LIVES, SCREEN_WIDTH,
    STAR_DISPLAY_CHAR, UI_Y_START_POSITION,
};
use crate::coords::Position;
use crate::layers::{base_layer, bullet_render_layer, star_render_layer};
use vstd::prelude::*;

verus! {

/// Shortest waiting time between two steps of a star.
pub const STAR_MIN_WAIT_TIME_MILLIS: u128 = 200;

/// Longest waiting time between two steps of a star.
pub const STAR_MAX_WAIT_TIME_MILLIS: u128 = 600;

/// Row, just above the screen, on which a star without a given place starts.
pub const STAR_ENTRY_ROW: i64 = -1;

/// Which side fired a bullet.
#[derive(Clone, Copy, Debug, PartialEq, Eq, Structural)]
pub enum BulletType {
    Player,
    Enemy,
}

impl BulletType {
    /// The glyph of a bullet of this side.
    pub open spec fn spec_display_char(self) -> char {
        match self {
            BulletType::Player => PLAYER_BULLET_DISPLAY_CHAR,
            BulletType::Enemy => ENEMY_BULLET_DISPLAY_CHAR,
        }
    }

    /// The collision layer of a bullet of this side. The side decides the
    /// layer, and the layer decides whom the bullet can hit.
    pub open spec fn spec_collision_layer(self) -> i32 {
        match self {
            BulletType::Player => PLAYER_BULLET_COLLISION_LAYER,
            BulletType::Enemy => ENEMY_BULLET_COLLISION_LAYER,
        }
    }

    pub fn display_char(self) -> (glyph: char)
        ensures
            glyph == self.spec_display_char(),
    {
        match self {
            BulletType::Player => PLAYER_BULLET_DISPLAY_CHAR,
            BulletType::Enemy => ENEMY_BULLET_DISPLAY_CHAR,
        }
    }

    pub fn collision_layer(self) -> (layer: i32)
        ensures
            layer == self.spec_collision_layer(),
    {
        match self {
            BulletType::Player => PLAYER_BULLET_COLLISION_LAYER,
            BulletType::Enemy => ENEMY_BULLET_COLLISION_LAYER,
        }
    }
}

/// A bullet to be created.
#[derive(Clone, Copy, Debug, PartialEq, Eq, Structural)]
pub struct BulletPrefab {
    pub start_pos: Position,
    pub direction: Position,
    pub bullet_type: BulletType,
    pub display: char,
    pub render_layer: i32,
    pub collision_layer: i32,
    /// Whether the collider takes part in collision detection.
    pub collider_active: bool,
}

/// An enemy to be created.
#[derive(Clone, Copy, Debug, PartialEq, Eq, Structural)]
pub struct EnemyPrefab {
    pub coords: Position,
    pub display: char,
    pub render_layer: i32,
    pub collision_layer: i32,
    /// Whether the collider takes part in collision detection.
    pub collider_active: bool,
}

/// A star to be created.
#[derive(Clone, Copy, Debug, PartialEq, Eq, Structural)]
pub struct StarPrefab {
    pub coords: Position,
    pub move_wait_time: u128,
    pub display: char,
    pub render_layer: i32,
}

/// The player to be created.
#[derive(Clone, Copy, Debug, PartialEq, Eq, Structural)]
pub struct PlayerPrefab {
    pub lives: u8,
    pub coords: Position,
    pub display: char,
    pub render_layer: i32,
    pub collision_layer: i32,
    /// Whether the collider takes part in collision detection.
    pub collider_active: bool,
}

/// The three lines of the HUD.
#[derive(Clone, Copy, Debug, PartialEq, Eq, Structural)]
pub enum HudTag {
    Lives,
    Score,
    HighScore,
}

/// The corner of the screen a HUD line hangs on.
#[derive(Clone, Copy, Debug, PartialEq, Eq, Structural)]
pub enum Anchor {
    BottomLeft,
    BottomRight,
}

/// The side a HUD line is flush with.
#[derive(Clone, Copy, Debug, PartialEq, Eq, Structural)]
pub enum Justification {
    Left,
    Right,
}

/// A HUD line to be created. It starts out empty.
#[derive(Clone, Copy, Debug, PartialEq, Eq, Structural)]
pub struct TextPrefab {
    pub tag: HudTag,
    pub anchor: Anchor,
    pub justification: Justification,
    pub offset: Position,
}

/// Everything the game can ask the engine to create.
#[derive(Clone, Copy, Debug, PartialEq, Eq, Structural)]
pub enum Prefab {
    Player(PlayerPrefab),
    Scorekeeper(Scorekeeper),
    EnemyMovement,
    Enemy(EnemyPrefab),
    Bullet(BulletPrefab),
    StarSpawner,
    Star(StarPrefab),
    Text(TextPrefab),
}

/// The bullet that `make_bullet` describes.
pub open spec fn spec_make_bullet(
    start_pos: Position,
    direction: Position,
    bullet_type: BulletType,
) -> BulletPrefab {
    BulletPrefab {
        start_pos,
        direction,
        bullet_type,
        display: bullet_type.spec_display_char(),
        render_layer: -1i32,
        collision_layer: bullet_type.spec_collision_layer(),
        collider_active: true,
    }
}

/// A bullet of the given side that starts at `start_pos` and flies along
/// `direction`. It is drawn just behind the base layer and collides on the
/// layer of its side.
pub fn make_bullet(
    start_pos: Position,
    direction: Position,
    bullet_type: BulletType,
) -> (prefab: BulletPrefab)
    ensures
        prefab == spec_make_bullet(start_pos, direction, bullet_type),
{
    BulletPrefab {
        start_pos,
        direction,
        bullet_type,
        display: bullet_type.display_char(),
        render_layer: bullet_render_layer(),
        collision_layer: bullet_type.collision_layer(),
        collider_active: true,
    }
}

/// The enemy that `make_enemy` describes.
pub open spec fn spec_make_enemy(coords: Position) -> EnemyPrefab {
    EnemyPrefab {
        coords,
        display: ENEMY_DISPLAY_CHAR,
        render_layer: 0,
        collision_layer: ENEMY_COLLISION_LAYER,
        collider_active: true,
    }
}

/// An enemy at `coords`, drawn on the base layer.
pub fn make_enemy(coords: Position) -> (prefab: EnemyPrefab)
    ensures
        prefab == spec_make_enemy(coords),
{
    EnemyPrefab {
        coords,
        display: ENEMY_DISPLAY_CHAR,
        render_layer: base_layer(),
        collision_layer: ENEMY_COLLISION_LAYER,
        collider_active: true,
    }
}

/// The star with the given place and pace.
pub open spec fn spec_star(coords: Position, move_wait_time: u128) -> StarPrefab {
    StarPrefab {
        coords,
        move_wait_time,
        display: STAR_DISPLAY_CHAR,
        render_layer: (i32::MIN + 1) as i32,
    }
}

/// A star with the given place and pace, drawn just in front of the furthest
/// background.
pub fn star_prefab(coords: Position, move_wait_time: u128) -> (prefab: StarPrefab)
    ensures
        prefab == spec_star(coords, move_wait_time),
{
    StarPrefab {
        coords,
        move_wait_time,
        display: STAR_DISPLAY_CHAR,
        render_layer: star_render_layer(),
    }
}

/// The place of a star: the given one, or the column `drawn_column` of the
/// entry row.
pub open spec fn spec_star_coords(coords: Option<Position>, drawn_column: u64) -> Position {
    match coords {
        Some(given) => given,
        None => Position { x: drawn_column as i64, y: STAR_ENTRY_ROW },
    }
}

/// The place of a star, once the column has been drawn.
pub fn star_coords(coords: Option<Position>, drawn_column: u64) -> (place: Position)
    requires
        drawn_column < SCREEN_WIDTH,
    ensures
        place == spec_star_coords(coords, drawn_column),
{
    match coords {
        Some(given) => given,
        None => Position { x: drawn_column as i64, y: STAR_ENTRY_ROW },
    }
}

/// What is known of a star that `make_star` has made: its pace lies between
/// the shortest and the longest waiting time, and it stands where it was told
/// to or, if it was told nothing, on some column of the entry row.
pub open spec fn spec_is_made_star(prefab: StarPrefab, coords: Option<Position>) -> bool {
    exists|move_wait_time: u128, drawn_column: u64|
        {
            &&& STAR_MIN_WAIT_TIME_MILLIS <= move_wait_time <= STAR_MAX_WAIT_TIME_MILLIS
            &&& drawn_column < SCREEN_WIDTH
            &&& prefab == #[trigger] spec_star(
                spec_star_coords(coords, drawn_column),
                move_wait_time,
            )
        }
}

/// A star with a pace drawn between the shortest and the longest waiting
/// time. Without a given place it enters at a drawn column of the entry row.
pub fn make_star(coords: Option<Position>) -> (prefab: StarPrefab)
    ensures
        spec_is_made_star(prefab, coords),
{
    let move_wait_time: u128 = random_in_range(
        STAR_MIN_WAIT_TIME_MILLIS,
        STAR_MAX_WAIT_TIME_MILLIS,
    );
    let place = match coords {
        Some(given) => {
            assert(given == spec_star_coords(coords, 0));
            given
        },
        None => {
            let drawn: u128 = random_in_range(0, (SCREEN_WIDTH - 1) as u128);
            star_coords(coords, drawn as u64)
        },
    };
    star_prefab(place, move_wait_time)
}

/// The player as the game starts: all lives, in the middle of its row.
pub open spec fn spec_player_prefab() -> PlayerPrefab {
    PlayerPrefab {
        lives: PLAYER_STARTING_LIVES,
        coords: Position { x: (SCREEN_WIDTH / 2) as i64, y: UI_Y_START_POSITION as i64 },
        display: PLAYER_DISPLAY_CHAR,
        render_layer: 0,
        collision_layer: PLAYER_COLLISION_LAYER,
        collider_active: true,
    }
}

/// The player as the game starts.
pub fn player_prefab() -> (prefab: PlayerPrefab)
    ensures
        prefab == spec_player_prefab(),
{
    PlayerPrefab {
        lives: PLAYER_STARTING_LIVES,
        coords: Position { x: (SCREEN_WIDTH / 2) as i64, y: UI_Y_START_POSITION as i64 },
        display: PLAYER_DISPLAY_CHAR,
        render_layer: base_layer(),
        collision_layer: PLAYER_COLLISION_LAYER,
        collider_active: true,
    }
}

} // verus!
