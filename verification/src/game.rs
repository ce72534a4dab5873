//! What a game is made of before its first frame: the options of the engine,
//! the size of the screen, and what runs in which order.

use crate::behaviours::{ENEMY_SPAWNER_ID, GAME_MANAGER_ID, PLAYER_ID};
use crate::constants::{SCREEN_HEIGHT, SCREEN_WIDTH};
use crate::systems::sys_bullets::BulletSystemsGenerator;
use crate::systems::sys_enemies::EnemySystemsGenerator;
use crate::systems::sys_hud::HudSystemsGenerator;
use crate::systems::sys_player::PlayerSystemsGenerator;
use crate::systems::sys_stars::StarsSystemsGenerator;
use crate::systems::ScheduledSystem;
use vstd::prelude::*;

verus! {

/// How the engine runs the game.
#[derive(Clone, Copy, Debug, PartialEq, Eq, Structural)]
pub struct GameOptions {
    /// Whether the escape key ends the game.
    pub press_escape_to_quit: bool,
    /// The most frames per second; 0 for no limit.
    pub max_frame_rate: u16,
}

/// How the engine draws the game.
#[derive(Clone, Copy, Debug, PartialEq, Eq, Structural)]
pub struct ScreenOptions {
    pub screen_height: u64,
    pub screen_width: u64,
    /// Whether the engine supplies its own camera.
    pub include_default_camera: bool,
    /// Whether the engine draws a frame around the screen.
    pub include_screen_outline: bool,
}

/// The options of the game that is built from systems.
pub fn game_options() -> (options: GameOptions)
    ensures
        options == (GameOptions { press_escape_to_quit: false, max_frame_rate: 60 }),
{
    GameOptions { press_escape_to_quit: false, max_frame_rate: 60 }
}

/// The screen of the game that is built from systems.
pub fn screen_options() -> (options: ScreenOptions)
    ensures
        options == (ScreenOptions {
            screen_height: SCREEN_HEIGHT,
            screen_width: SCREEN_WIDTH,
            include_default_camera: true,
            include_screen_outline: false,
        }),
{
    ScreenOptions {
        screen_height: SCREEN_HEIGHT,
        screen_width: SCREEN_WIDTH,
        include_default_camera: true,
        include_screen_outline: false,
    }
}

/// The systems of the whole game: HUD, player, bullets, enemies, stars, each
/// group in its own order.
pub open spec fn spec_schedule() -> Seq<ScheduledSystem> {
    HudSystemsGenerator::spec_generate() + PlayerSystemsGenerator::spec_generate()
        + BulletSystemsGenerator::spec_generate() + EnemySystemsGenerator::spec_generate()
        + StarsSystemsGenerator::spec_generate()
}

/// The systems of the whole game in the order in which they are registered.
/// Within an event the engine runs them in this order.
pub fn schedule() -> (systems: Vec<ScheduledSystem>)
    ensures
        systems@ == spec_schedule(),
{
    let mut systems = HudSystemsGenerator {  }.generate();
    let mut player = PlayerSystemsGenerator {  }.generate();
    let mut bullets = BulletSystemsGenerator {  }.generate();
    let mut enemies = EnemySystemsGenerator {  }.generate();
    let mut stars = StarsSystemsGenerator {  }.generate();
    systems.append(&mut player);
    systems.append(&mut bullets);
    systems.append(&mut enemies);
    systems.append(&mut stars);
    systems
}

/// The entities that a game built from behaviours starts with.
#[derive(Clone, Copy, Debug, PartialEq, Eq, Structural)]
pub enum Singleton {
    GameManager,
    Player,
    PlayerLifeDisplayer,
    EnemySpawner,
    StarSpawner,
}

impl Singleton {
    /// The reserved identity of the singleton, if others address it.
    pub open spec fn spec_id(self) -> Option<Seq<char>> {
        match self {
            Singleton::GameManager => Some(GAME_MANAGER_ID@),
            Singleton::Player => Some(PLAYER_ID@),
            Singleton::EnemySpawner => Some(ENEMY_SPAWNER_ID@),
            Singleton::PlayerLifeDisplayer => None,
            Singleton::StarSpawner => None,
        }
    }

    /// The reserved identity of the singleton, if others address it.
    pub fn id(self) -> (id: Option<&'static str>)
        ensures
            id is Some == self.spec_id() is Some,
            id matches Some(reserved) ==> self.spec_id() == Some(reserved@),
    {
        match self {
            Singleton::GameManager => Some(GAME_MANAGER_ID),
            Singleton::Player => Some(PLAYER_ID),
            Singleton::EnemySpawner => Some(ENEMY_SPAWNER_ID),
            Singleton::PlayerLifeDisplayer => None,
            Singleton::StarSpawner => None,
        }
    }

    /// The name under which the singleton is shown to a developer.
    pub fn name(self) -> (name: &'static str)
        ensures
            name@ == match self {
                Singleton::GameManager => "Game Manager"@,
                Singleton::Player => "Player"@,
                Singleton::PlayerLifeDisplayer => "Player Life Displayer"@,
                Singleton::EnemySpawner => "Enemy Spawner"@,
                Singleton::StarSpawner => "Star Spawner"@,
            },
    {
        match self {
            Singleton::GameManager => "Game Manager",
            Singleton::Player => "Player",
            Singleton::PlayerLifeDisplayer => "Player Life Displayer",
            Singleton::EnemySpawner => "Enemy Spawner",
            Singleton::StarSpawner => "Star Spawner",
        }
    }
}

/// The options of the game that is built from behaviours.
pub fn behaviour_game_options() -> (options: GameOptions)
    ensures
        options == (GameOptions { press_escape_to_quit: true, max_frame_rate: 15 }),
{
    GameOptions { press_escape_to_quit: true, max_frame_rate: 15 }
}

/// The screen of the game that is built from behaviours.
pub fn behaviour_screen_options() -> (options: ScreenOptions)
    ensures
        options == (ScreenOptions {
            screen_height: SCREEN_HEIGHT,
            screen_width: SCREEN_WIDTH,
            include_default_camera: false,
            include_screen_outline: true,
        }),
{
    ScreenOptions {
        screen_height: SCREEN_HEIGHT,
        screen_width: SCREEN_WIDTH,
        include_default_camera: false,
        include_screen_outline: true,
    }
}

/// The singletons in the order in which they are created.
pub fn singletons() -> (entities: Vec<Singleton>)
    ensures
        entities@ == seq![
            Singleton::GameManager,
            Singleton::Player,
            Singleton::PlayerLifeDisplayer,
            Singleton::EnemySpawner,
            Singleton::StarSpawner,
        ],
{
    let mut entities: Vec<Singleton> = Vec::new();
    entities.push(Singleton::GameManager);
    entities.push(Singleton::Player);
    entities.push(Singleton::PlayerLifeDisplayer);
    entities.push(Singleton::EnemySpawner);
    entities.push(Singleton::StarSpawner);
    entities
}

} // verus!
