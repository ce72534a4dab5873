//! The player: setup, sideways steps, the gun, and what death resets.

use crate::commands::{destroy_all, issue_destroy_all, survivors, GameCommand, GameCommandQueue};
use crate::components::{Combat, Player, PlayerMovement, Scorekeeper};
use crate::constants::{PLAYER_STARTING_LIVES, SCREEN_WIDTH};
use crate::cooldown::{has_elapsed, spec_has_elapsed};
use crate::coords::{
    can_translate, spec_down, spec_left, spec_right, spec_translate, Position,
};
use crate::input::{InputSnapshot, MovementKey};
use crate::prefabs::{
    make_bullet, player_prefab, spec_make_bullet, spec_player_prefab, BulletType, Prefab,
};
use crate::systems::{on_init, on_update, GameEvent, ScheduledSystem, SystemId};
use vstd::prelude::*;

verus! {

/// Time between two steps of the player.
pub const MOVE_WAIT_TIME_MILLIS: u128 = 50;

/// Time between two shots of the player.
pub const SHOOT_WAIT_TIME_MILLIS: u128 = 100;

/// The score to beat when the game starts.
pub const STARTING_HIGH_SCORE: u64 = 10000;

/// The systems that create, move and arm the player, and reset the game when
/// the player has died.
pub struct PlayerSystemsGenerator {}

impl PlayerSystemsGenerator {
    /// The player and the scorekeeper are created once; each frame then moves
    /// the player, fires its gun and looks whether it has died.
    pub open spec fn spec_generate() -> Seq<ScheduledSystem> {
        seq![
            on_init(SystemId::PlayerSetup),
            on_update(SystemId::PlayerMovement),
            on_update(SystemId::PlayerCombat),
            on_update(SystemId::PlayerDeath),
        ]
    }

    /// The player systems in the order in which a frame runs them.
    pub fn generate(&self) -> (systems: Vec<ScheduledSystem>)
        ensures
            systems@ == Self::spec_generate(),
    {
        let mut systems: Vec<ScheduledSystem> = Vec::new();
        systems.push(ScheduledSystem { event: GameEvent::Init, system: SystemId::PlayerSetup });
        systems.push(
            ScheduledSystem { event: GameEvent::Update, system: SystemId::PlayerMovement },
        );
        systems.push(ScheduledSystem { event: GameEvent::Update, system: SystemId::PlayerCombat });
        systems.push(ScheduledSystem { event: GameEvent::Update, system: SystemId::PlayerDeath });
        systems
    }
}

/// The scorekeeper as the game starts.
pub open spec fn spec_starting_scorekeeper() -> Scorekeeper {
    Scorekeeper { score: 0, high_score: STARTING_HIGH_SCORE, level: 0 }
}

/// Creates the player and the scorekeeper.
pub fn setup_player(commands: &mut GameCommandQueue)
    ensures
        final(commands)@ == old(commands)@.push(
            GameCommand::AddEntity(Prefab::Player(spec_player_prefab())),
        ).push(GameCommand::AddEntity(Prefab::Scorekeeper(spec_starting_scorekeeper()))),
{
    commands.issue(GameCommand::AddEntity(Prefab::Player(player_prefab())));
    commands.issue(
        GameCommand::AddEntity(
            Prefab::Scorekeeper(
                Scorekeeper { score: 0, high_score: STARTING_HIGH_SCORE, level: 0 },
            ),
        ),
    );
}

/// The movement key that counts: the left one if it is held, else the right
/// one if it is held.
pub open spec fn spec_pressed_movement_key(input: InputSnapshot) -> Option<MovementKey> {
    if input.move_left {
        Some(MovementKey::Left)
    } else if input.move_right {
        Some(MovementKey::Right)
    } else {
        None
    }
}

/// The step that a movement key asks for.
pub open spec fn spec_key_direction(key: MovementKey) -> Position {
    match key {
        MovementKey::Left => spec_left(),
        MovementKey::Right => spec_right(),
    }
}

/// The step that the held keys ask for, if any.
pub open spec fn spec_movement_direction(input: InputSnapshot) -> Option<Position> {
    match spec_pressed_movement_key(input) {
        Some(key) => Some(spec_key_direction(key)),
        None => None,
    }
}

/// The movement key that counts among the held keys.
pub fn get_pressed_movement_key(input: &InputSnapshot) -> (key: Option<MovementKey>)
    ensures
        key == spec_pressed_movement_key(*input),
{
    if input.move_left {
        Some(MovementKey::Left)
    } else if input.move_right {
        Some(MovementKey::Right)
    } else {
        None
    }
}

/// The step that the held keys ask for, if any.
pub fn get_movement_direction(input: &InputSnapshot) -> (direction: Option<Position>)
    ensures
        direction == spec_movement_direction(*input),
{
    match get_pressed_movement_key(input) {
        Some(MovementKey::Left) => Some(Position::left()),
        Some(MovementKey::Right) => Some(Position::right()),
        None => None,
    }
}

/// The column nearest to `x` that is on the screen.
pub open spec fn spec_clamp_to_screen(x: int) -> int {
    if x < 0 {
        0
    } else if x > SCREEN_WIDTH - 1 {
        SCREEN_WIDTH - 1
    } else {
        x
    }
}

/// Where a step takes the player: one cell along `direction`, but never off
/// the screen.
pub open spec fn spec_player_step(coords: Position, direction: Position) -> Position {
    Position {
        x: spec_clamp_to_screen(coords.x + direction.x) as i64,
        y: (coords.y + direction.y) as i64,
    }
}

/// Takes one step along `direction` and stays on the screen.
pub fn player_step(coords: Position, direction: Position) -> (stepped: Position)
    requires
        can_translate(coords, direction),
    ensures
        stepped == spec_player_step(coords, direction),
        0 <= stepped.x < SCREEN_WIDTH,
{
    let moved = coords.translate(&direction);
    let x: i64 = if moved.x < 0 {
        0
    } else if moved.x > SCREEN_WIDTH as i64 - 1 {
        SCREEN_WIDTH as i64 - 1
    } else {
        moved.x
    };
    Position { x, y: moved.y }
}

/// Where the player is after a frame in which its stopwatch read
/// `elapsed_millis`: one step along the held key once the cooldown has
/// expired, and where it was otherwise.
pub open spec fn spec_player_movement(
    coords: Position,
    input: InputSnapshot,
    elapsed_millis: u128,
) -> Position {
    match spec_movement_direction(input) {
        Some(direction) if spec_has_elapsed(elapsed_millis, MOVE_WAIT_TIME_MILLIS) => {
            spec_player_step(coords, direction)
        },
        _ => coords,
    }
}

/// Where the player is after a frame, given the held keys and its stopwatch
/// reading.
pub fn move_player(
    coords: Position,
    input: &InputSnapshot,
    elapsed_millis: u128,
) -> (moved: Position)
    requires
        spec_movement_direction(*input) matches Some(direction) ==> can_translate(
            coords,
            direction,
        ),
    ensures
        moved == spec_player_movement(coords, *input, elapsed_millis),
        moved != coords ==> 0 <= moved.x < SCREEN_WIDTH,
{
    if has_elapsed(elapsed_millis, MOVE_WAIT_TIME_MILLIS) {
        match get_movement_direction(input) {
            Some(direction) => player_step(coords, direction),
            None => coords,
        }
    } else {
        coords
    }
}

/// One frame of the player's feet. With a movement key held and the cooldown
/// expired the player takes one step, stays on the screen, and starts waiting
/// again.
pub fn movement(
    player_movement: &mut PlayerMovement,
    coords: &mut Position,
    input: &InputSnapshot,
)
    requires
        spec_movement_direction(*input) matches Some(direction) ==> can_translate(
            *old(coords),
            direction,
        ),
    ensures
        exists|elapsed_millis: u128|
            *final(coords) == spec_player_movement(*old(coords), *input, elapsed_millis),
{
    try_movement(player_movement, coords, input);
}

/// One frame of the player's feet, wherever on the grid the player stands. It
/// does what `movement` does, but a player whose step is due and would leave
/// the grid stays where it is, and `false` is handed back.
pub fn try_movement(
    player_movement: &mut PlayerMovement,
    coords: &mut Position,
    input: &InputSnapshot,
) -> (in_grid: bool)
    ensures
        exists|elapsed_millis: u128|
            *final(coords) == spec_player_movement(*old(coords), *input, elapsed_millis),
        !in_grid ==> {
            &&& *final(coords) == *old(coords)
            &&& spec_movement_direction(*input) matches Some(direction) && !can_translate(
                *old(coords),
                direction,
            )
        },
{
    let elapsed_millis: u128 = player_movement.move_timer.elapsed_millis();
    if has_elapsed(elapsed_millis, MOVE_WAIT_TIME_MILLIS) {
        match get_movement_direction(input) {
            Some(direction) => {
                if !coords.fits(&direction) {
                    assert(*coords == spec_player_movement(*old(coords), *input, 0));
                    return false;
                }
                *coords = move_player(*coords, input, elapsed_millis);
                player_movement.move_timer.restart();
            },
            None => {
                assert(*coords == spec_player_movement(*old(coords), *input, elapsed_millis));
            },
        }
    } else {
        assert(*coords == spec_player_movement(*old(coords), *input, elapsed_millis));
    }
    true
}

/// The bullet the player at `coords` fires: it starts one cell down and flies
/// down.
pub open spec fn spec_player_bullet(coords: Position) -> GameCommand {
    GameCommand::AddEntity(
        Prefab::Bullet(
            spec_make_bullet(
                spec_translate(coords, spec_down()),
                spec_down(),
                BulletType::Player,
            ),
        ),
    )
}

/// Whether the player shoots in a frame in which its stopwatch read
/// `elapsed_millis`: the fire key must be held and the cooldown expired.
pub open spec fn spec_player_shoots(input: InputSnapshot, elapsed_millis: u128) -> bool {
    input.shoot && spec_has_elapsed(elapsed_millis, SHOOT_WAIT_TIME_MILLIS)
}

/// Whether the player shoots, given the held keys and its stopwatch reading.
pub fn player_shoots(input: &InputSnapshot, elapsed_millis: u128) -> (shoots: bool)
    ensures
        shoots == spec_player_shoots(*input, elapsed_millis),
{
    input.shoot && has_elapsed(elapsed_millis, SHOOT_WAIT_TIME_MILLIS)
}

/// One frame of the player's gun. With the fire key held and the cooldown
/// expired one bullet is queued and the cooldown starts again.
pub fn combat(
    coords: Position,
    gun: &mut Combat,
    input: &InputSnapshot,
    commands: &mut GameCommandQueue,
) -> (shot: bool)
    requires
        input.shoot ==> can_translate(coords, spec_down()),
    ensures
        shot ==> input.shoot,
        final(commands)@ == if shot {
            old(commands)@.push(spec_player_bullet(coords))
        } else {
            old(commands)@
        },
{
    match try_combat(coords, gun, input, commands) {
        Some(shot) => shot,
        None => false,
    }
}

/// One frame of the player's gun, wherever on the grid the player stands. It
/// does what `combat` does, but where a shot is due and the bullet would
/// start off the grid, nothing is queued and `None` is handed back.
pub fn try_combat(
    coords: Position,
    gun: &mut Combat,
    input: &InputSnapshot,
    commands: &mut GameCommandQueue,
) -> (shot: Option<bool>)
    ensures
        shot is None ==> {
            &&& input.shoot
            &&& !can_translate(coords, spec_down())
            &&& final(commands)@ == old(commands)@
        },
        shot matches Some(fired) ==> {
            &&& fired ==> input.shoot
            &&& final(commands)@ == if fired {
                old(commands)@.push(spec_player_bullet(coords))
            } else {
                old(commands)@
            }
        },
{
    if !input.shoot {
        return Some(false);
    }
    let elapsed_millis: u128 = gun.shoot_timer.elapsed_millis();
    if player_shoots(input, elapsed_millis) {
        let down = Position::down();
        if !coords.fits(&down) {
            return None;
        }
        let start_pos = coords.translate(&down);
        commands.issue(
            GameCommand::AddEntity(Prefab::Bullet(make_bullet(start_pos, down, BulletType::Player))),
        );
        gun.shoot_timer.restart();
        Some(true)
    } else {
        Some(false)
    }
}

/// What a frame that finds the player with `lives` lives asks the engine to
/// destroy: every enemy and every bullet if the player has none left, and
/// nothing otherwise.
pub open spec fn spec_reset_commands(lives: u8, enemies: Seq<u64>, bullets: Seq<u64>) -> Seq<
    GameCommand,
> {
    if lives == 0 {
        destroy_all(enemies) + destroy_all(bullets)
    } else {
        Seq::empty()
    }
}

/// Resets the game once the player has no life left: score and wave go back
/// to zero, the player gets its lives back, and every enemy and every bullet
/// is queued for destruction in one batch. While the player lives, nothing
/// happens.
pub fn handle_player_death(
    player: &mut Player,
    scorekeeper: &mut Scorekeeper,
    enemies: &Vec<u64>,
    bullets: &Vec<u64>,
    commands: &mut GameCommandQueue,
)
    ensures
        final(commands)@ == old(commands)@ + spec_reset_commands(
            old(player).lives,
            enemies@,
            bullets@,
        ),
        old(player).lives == 0 ==> {
            &&& final(player).lives == PLAYER_STARTING_LIVES
            &&& *final(scorekeeper) == (Scorekeeper { score: 0, level: 0, ..*old(scorekeeper) })
        },
        old(player).lives != 0 ==> {
            &&& *final(player) == *old(player)
            &&& *final(scorekeeper) == *old(scorekeeper)
        },
{
    if player.lives == 0 {
        scorekeeper.score = 0;
        scorekeeper.level = 0;
        player.lives = PLAYER_STARTING_LIVES;
        issue_destroy_all(enemies, commands);
        issue_destroy_all(bullets, commands);
    }
}

/// The reset leaves nothing behind: once the engine has applied its batch, no
/// enemy and no bullet that the frame saw is alive.
pub proof fn lemma_reset_leaves_nothing(alive: Set<u64>, enemies: Seq<u64>, bullets: Seq<u64>)
    ensures
        forall|i: int|
            0 <= i < enemies.len() ==> !survivors(
                alive,
                spec_reset_commands(0, enemies, bullets),
            ).contains(#[trigger] enemies[i]),
        forall|i: int|
            0 <= i < bullets.len() ==> !survivors(
                alive,
                spec_reset_commands(0, enemies, bullets),
            ).contains(#[trigger] bullets[i]),
{
    let batch = spec_reset_commands(0, enemies, bullets);
    assert forall|i: int| 0 <= i < enemies.len() implies !survivors(alive, batch).contains(
        #[trigger] enemies[i],
    ) by {
        assert(batch[i] == GameCommand::DestroyEntity(enemies[i]));
    }
    assert forall|i: int| 0 <= i < bullets.len() implies !survivors(alive, batch).contains(
        #[trigger] bullets[i],
    ) by {
        assert(batch[enemies.len() + i] == GameCommand::DestroyEntity(bullets[i]));
    }
}

} // verus!
