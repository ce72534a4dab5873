//! The enemy formation: spawning, shooting and the lock-step march.

use crate::chance::{flip_coin, roll_percent};
use crate::commands::{destroy_all, issue_destroy_all, survivors, GameCommand, GameCommandQueue};
use crate::components::{Enemy, EnemyMovement, Scorekeeper};
use crate::constants::SCREEN_WIDTH;
use crate::cooldown::{has_elapsed, spec_has_elapsed};
use crate::coords::{
    can_translate, spec_left, spec_right, spec_translate, spec_up, Position,
};
use crate::formation::{spec_enemy_x_pos, Formation};
use crate::prefabs::{make_bullet, make_enemy, spec_make_bullet, spec_make_enemy, BulletType, Prefab};
use crate::systems::{on_init, on_update, GameEvent, ScheduledSystem, SystemId};
use vstd::prelude::*;

verus! {

/// Enemies in a row of the formation.
pub const ENEMY_GRID_WIDTH: u64 = 10;

/// Rows of the formation.
pub const ENEMY_GRID_HEIGHT: u64 = 4;

/// Empty cells between two neighbours of a row.
pub const ENEMY_PADDING: u64 = 2;

/// Time between two shoot rolls of an enemy.
pub const ENEMY_SHOOT_WAIT_TIME: u128 = 200;

/// Chance, in percent, that a shoot roll fires.
pub const ENEMY_SHOOT_CHANCE: u8 = 10;

/// Time between two steps of the formation.
pub const ENEMY_MOVE_WAIT_TIME: u128 = 800;

/// An enemy at or left of this column turns the formation to the right.
pub const ENEMY_MIN_X: u64 = 3;

/// An enemy at or right of this column turns the formation to the left.
pub const ENEMY_MAX_X: u64 = SCREEN_WIDTH - 4;

/// The systems that create, arm and move the enemies.
pub struct EnemySystemsGenerator {}

impl EnemySystemsGenerator {
    /// The formation's stopwatch is created once; each frame then refills an
    /// empty formation, lets the enemies shoot and moves them.
    pub open spec fn spec_generate() -> Seq<ScheduledSystem> {
        seq![
            on_init(SystemId::EnemySetup),
            on_update(SystemId::SpawnEnemies),
            on_update(SystemId::EnemyShoot),
            on_update(SystemId::EnemyMovement),
        ]
    }

    /// The enemy systems in the order in which a frame runs them.
    pub fn generate(&self) -> (systems: Vec<ScheduledSystem>)
        ensures
            systems@ == Self::spec_generate(),
    {
        let mut systems: Vec<ScheduledSystem> = Vec::new();
        systems.push(ScheduledSystem { event: GameEvent::Init, system: SystemId::EnemySetup });
        systems.push(ScheduledSystem { event: GameEvent::Update, system: SystemId::SpawnEnemies });
        systems.push(ScheduledSystem { event: GameEvent::Update, system: SystemId::EnemyShoot });
        systems.push(
            ScheduledSystem { event: GameEvent::Update, system: SystemId::EnemyMovement },
        );
        systems
    }
}

/// Creates the entity that carries the formation's stopwatch.
pub fn setup_enemies(commands: &mut GameCommandQueue)
    ensures
        final(commands)@ == old(commands)@.push(GameCommand::AddEntity(Prefab::EnemyMovement)),
{
    commands.issue(GameCommand::AddEntity(Prefab::EnemyMovement));
}

/// The formation of a wave: centred on the screen, rows one below the other
/// from the top.
pub open spec fn spec_wave_formation() -> Formation {
    Formation {
        total_area_width: SCREEN_WIDTH,
        padding: ENEMY_PADDING,
        num_enemies_in_row: ENEMY_GRID_WIDTH,
        num_rows: ENEMY_GRID_HEIGHT,
        row_origin: 0,
        row_padding: 1,
    }
}

/// The formation of a wave fits on the screen: its row is 28 cells wide and
/// stands on the columns 11 to 38.
pub proof fn lemma_wave_formation_wf()
    ensures
        spec_wave_formation().wf(),
        spec_enemy_x_pos(SCREEN_WIDTH as int, ENEMY_PADDING as int, ENEMY_GRID_WIDTH as int, 0)
            == 11,
        spec_enemy_x_pos(
            SCREEN_WIDTH as int,
            ENEMY_PADDING as int,
            ENEMY_GRID_WIDTH as int,
            ENEMY_GRID_WIDTH - 1,
        ) == 38,
{
    assert((ENEMY_GRID_WIDTH - 1) * ENEMY_PADDING == 18) by (nonlinear_arith)
        requires
            ENEMY_GRID_WIDTH == 10,
            ENEMY_PADDING == 2,
    ;
    assert((ENEMY_PADDING + 1) * (ENEMY_GRID_WIDTH - 1) == 27) by (nonlinear_arith)
        requires
            ENEMY_GRID_WIDTH == 10,
            ENEMY_PADDING == 2,
    ;
    assert((ENEMY_PADDING + 1) * 0 == 0) by (nonlinear_arith);
    assert(ENEMY_GRID_HEIGHT * 1 == 4) by (nonlinear_arith)
        requires
            ENEMY_GRID_HEIGHT == 4,
    ;
    assert(ENEMY_GRID_HEIGHT * ENEMY_GRID_WIDTH == 40) by (nonlinear_arith)
        requires
            ENEMY_GRID_WIDTH == 10,
            ENEMY_GRID_HEIGHT == 4,
    ;
}

/// The formation of a wave.
pub fn wave_formation() -> (formation: Formation)
    ensures
        formation == spec_wave_formation(),
        formation.wf(),
{
    proof {
        lemma_wave_formation_wf();
    }
    Formation {
        total_area_width: SCREEN_WIDTH,
        padding: ENEMY_PADDING,
        num_enemies_in_row: ENEMY_GRID_WIDTH,
        num_rows: ENEMY_GRID_HEIGHT,
        row_origin: 0,
        row_padding: 1,
    }
}

/// The commands that create an enemy on each of `cells`, in their order.
pub open spec fn spawn_commands(cells: Seq<Position>) -> Seq<GameCommand> {
    Seq::new(
        cells.len(),
        |i: int| GameCommand::AddEntity(Prefab::Enemy(spec_make_enemy(cells[i]))),
    )
}

/// What a frame that finds `enemy_count` live enemies asks the engine to
/// create: a whole formation if none is left, and nothing otherwise.
pub open spec fn spec_respawn(enemy_count: nat) -> Seq<GameCommand> {
    if enemy_count == 0 {
        spawn_commands(spec_wave_formation().spec_cells())
    } else {
        Seq::empty()
    }
}

/// What a frame that finds `enemy_count` live enemies asks the engine to
/// destroy: every bullet in flight if the formation is refilled, so that no
/// stale bullet hits the new wave, and nothing otherwise.
pub open spec fn spec_purge(enemy_count: nat, bullets: Seq<u64>) -> Seq<GameCommand> {
    if enemy_count == 0 {
        destroy_all(bullets)
    } else {
        Seq::empty()
    }
}

/// The wave number after a frame that finds `enemy_count` live enemies.
pub open spec fn spec_wave_after(enemy_count: nat, level: u64) -> int {
    if enemy_count == 0 {
        level + 1
    } else {
        level as int
    }
}

/// Queues an enemy for each of `cells`, in their order.
pub fn issue_spawn_all(cells: &Vec<Position>, commands: &mut GameCommandQueue)
    ensures
        final(commands)@ == old(commands)@ + spawn_commands(cells@),
{
    let mut i: usize = 0;
    while i < cells.len()
        invariant
            i <= cells.len(),
            commands@ == old(commands)@ + spawn_commands(cells@.take(i as int)),
        decreases cells.len() - i,
    {
        commands.issue(GameCommand::AddEntity(Prefab::Enemy(make_enemy(cells[i]))));
        i += 1;
    }
}

/// Refills the formation once no enemy is left: a whole formation is queued,
/// every bullet in flight is queued for destruction, and the wave number goes
/// up by one. While an enemy lives, nothing happens.
pub fn spawn_enemies(
    enemy_count: usize,
    bullets: &Vec<u64>,
    scorekeeper: &mut Scorekeeper,
    commands: &mut GameCommandQueue,
)
    requires
        spec_wave_after(enemy_count as nat, old(scorekeeper).level) <= u64::MAX,
    ensures
        final(commands)@ == old(commands)@ + spec_respawn(enemy_count as nat) + spec_purge(
            enemy_count as nat,
            bullets@,
        ),
        *final(scorekeeper) == (Scorekeeper {
            level: spec_wave_after(enemy_count as nat, old(scorekeeper).level) as u64,
            ..*old(scorekeeper)
        }),
{
    if enemy_count == 0 {
        let cells = wave_formation().cells();
        issue_spawn_all(&cells, commands);
        issue_destroy_all(bullets, commands);
        scorekeeper.level = scorekeeper.level + 1;
    }
}

/// A formation has as many enemies as the grid has cells, and so at least
/// one.
pub proof fn lemma_respawn_size()
    ensures
        spec_respawn(0).len() == ENEMY_GRID_HEIGHT * ENEMY_GRID_WIDTH,
        spec_respawn(0).len() > 0,
{
    spec_wave_formation().lemma_rows_len(ENEMY_GRID_HEIGHT as nat);
}

/// The formation is refilled exactly once per cleared wave. The frame that
/// finds no enemy queues one formation and raises the wave number by one. The
/// next frame finds that formation and does nothing, and so does every frame
/// that finds an enemy alive. Which enemies a batch of kills leaves alive does
/// not depend on the order of the kills.
pub proof fn lemma_cleared_wave_respawns_once(
    level: u64,
    bullets: Seq<u64>,
    enemy_count: nat,
    alive: Set<u64>,
    kills: Seq<GameCommand>,
    reordered: Seq<GameCommand>,
)
    requires
        level < u64::MAX,
        enemy_count > 0,
        kills.to_multiset() == reordered.to_multiset(),
    ensures
        spec_respawn(0).len() == ENEMY_GRID_HEIGHT * ENEMY_GRID_WIDTH,
        spec_wave_after(0, level) == level + 1,
        spec_respawn(spec_respawn(0).len()) == Seq::<GameCommand>::empty(),
        spec_wave_after(spec_respawn(0).len(), (level + 1) as u64) == level + 1,
        spec_respawn(enemy_count) == Seq::<GameCommand>::empty(),
        spec_purge(enemy_count, bullets) == Seq::<GameCommand>::empty(),
        spec_wave_after(enemy_count, level) == level,
        survivors(alive, kills) == survivors(alive, reordered),
{
    lemma_respawn_size();
    assert forall|entity: u64|
        crate::commands::destroyed_by(kills).contains(entity)
            == crate::commands::destroyed_by(reordered).contains(entity) by {
        let command = GameCommand::DestroyEntity(entity);
        vstd::seq_lib::to_multiset_contains(kills, command);
        vstd::seq_lib::to_multiset_contains(reordered, command);
    }
}

/// An enemy as a query finds it: its component and its place.
pub struct EnemyMatch {
    pub enemy: Enemy,
    pub coords: Position,
}

/// The bullet an enemy at `coords` fires: it starts one cell up and flies up.
pub open spec fn spec_enemy_bullet(coords: Position) -> GameCommand {
    GameCommand::AddEntity(
        Prefab::Bullet(
            spec_make_bullet(spec_translate(coords, spec_up()), spec_up(), BulletType::Enemy),
        ),
    )
}

/// Whether an enemy shoots in a frame in which its stopwatch read
/// `elapsed_millis` and its roll came up `roll`: the cooldown must have
/// expired and the roll must be within the chance.
pub open spec fn spec_enemy_shoots(elapsed_millis: u128, roll: u8) -> bool {
    spec_has_elapsed(elapsed_millis, ENEMY_SHOOT_WAIT_TIME) && roll <= ENEMY_SHOOT_CHANCE
}

/// Whether an enemy shoots, given its stopwatch reading and its roll.
pub fn enemy_shoots(elapsed_millis: u128, roll: u8) -> (shoots: bool)
    ensures
        shoots == spec_enemy_shoots(elapsed_millis, roll),
{
    has_elapsed(elapsed_millis, ENEMY_SHOOT_WAIT_TIME) && roll <= ENEMY_SHOOT_CHANCE
}

/// The commands of the enemies that shot, in the order of the enemies.
pub open spec fn shot_commands(enemies: Seq<EnemyMatch>, shots: Seq<bool>) -> Seq<GameCommand>
    decreases enemies.len(),
{
    if enemies.len() == 0 || shots.len() != enemies.len() {
        Seq::empty()
    } else {
        let earlier = shot_commands(enemies.drop_last(), shots.drop_last());
        if shots.last() {
            earlier.push(spec_enemy_bullet(enemies.last().coords))
        } else {
            earlier
        }
    }
}

/// One frame of one enemy's gun. Once its cooldown has expired the enemy
/// rolls a percentage; within the chance, a bullet is queued. The cooldown
/// starts again whatever the roll.
pub fn enemy_shoot(enemy_match: &mut EnemyMatch, commands: &mut GameCommandQueue) -> (shot: bool)
    requires
        can_translate(old(enemy_match).coords, spec_up()),
    ensures
        final(enemy_match).coords == old(enemy_match).coords,
        exists|elapsed_millis: u128, roll: u8|
            1 <= roll <= 100 && shot == #[trigger] spec_enemy_shoots(elapsed_millis, roll),
        final(commands)@ == if shot {
            old(commands)@.push(spec_enemy_bullet(old(enemy_match).coords))
        } else {
            old(commands)@
        },
{
    match try_enemy_shoot(enemy_match, commands) {
        Some(shot) => shot,
        None => false,
    }
}

/// One frame of one enemy's gun, wherever on the grid the enemy stands. It
/// does what `enemy_shoot` does, but where the roll fires and the bullet
/// would start off the grid, nothing is queued and `None` is handed back.
pub fn try_enemy_shoot(
    enemy_match: &mut EnemyMatch,
    commands: &mut GameCommandQueue,
) -> (shot: Option<bool>)
    ensures
        final(enemy_match).coords == old(enemy_match).coords,
        shot is None ==> {
            &&& !can_translate(old(enemy_match).coords, spec_up())
            &&& final(commands)@ == old(commands)@
        },
        shot matches Some(fired) ==> {
            &&& exists|elapsed_millis: u128, roll: u8|
                1 <= roll <= 100 && fired == #[trigger] spec_enemy_shoots(elapsed_millis, roll)
            &&& final(commands)@ == if fired {
                old(commands)@.push(spec_enemy_bullet(old(enemy_match).coords))
            } else {
                old(commands)@
            }
        },
{
    let elapsed_millis: u128 = enemy_match.enemy.shoot_timer.elapsed_millis();
    let shot = try_shoot_after(enemy_match.coords, elapsed_millis, commands);
    if shot.is_some() && has_elapsed(elapsed_millis, ENEMY_SHOOT_WAIT_TIME) {
        enemy_match.enemy.shoot_timer.restart();
    }
    shot
}

/// One frame of the gun of an enemy at `coords`, given its stopwatch reading.
/// Before the cooldown has expired nothing is rolled and nothing is shot. Once
/// it has, a percentage is rolled, and within the chance one bullet is queued.
pub fn shoot_after(
    coords: Position,
    elapsed_millis: u128,
    commands: &mut GameCommandQueue,
) -> (shot: bool)
    requires
        spec_has_elapsed(elapsed_millis, ENEMY_SHOOT_WAIT_TIME) ==> can_translate(
            coords,
            spec_up(),
        ),
    ensures
        exists|roll: u8|
            1 <= roll <= 100 && shot == #[trigger] spec_enemy_shoots(elapsed_millis, roll),
        !spec_has_elapsed(elapsed_millis, ENEMY_SHOOT_WAIT_TIME) ==> !shot,
        final(commands)@ == if shot {
            old(commands)@.push(spec_enemy_bullet(coords))
        } else {
            old(commands)@
        },
{
    match try_shoot_after(coords, elapsed_millis, commands) {
        Some(shot) => shot,
        None => false,
    }
}

/// One frame of the gun of an enemy at `coords`, given its stopwatch reading,
/// wherever on the grid the enemy stands. It does what `shoot_after` does,
/// but where the roll fires and the bullet would start off the grid, nothing
/// is queued and `None` is handed back.
pub fn try_shoot_after(
    coords: Position,
    elapsed_millis: u128,
    commands: &mut GameCommandQueue,
) -> (shot: Option<bool>)
    ensures
        shot is None ==> {
            &&& spec_has_elapsed(elapsed_millis, ENEMY_SHOOT_WAIT_TIME)
            &&& !can_translate(coords, spec_up())
            &&& final(commands)@ == old(commands)@
        },
        shot matches Some(fired) ==> {
            &&& exists|roll: u8|
                1 <= roll <= 100 && fired == #[trigger] spec_enemy_shoots(elapsed_millis, roll)
            &&& !spec_has_elapsed(elapsed_millis, ENEMY_SHOOT_WAIT_TIME) ==> !fired
            &&& final(commands)@ == if fired {
                old(commands)@.push(spec_enemy_bullet(coords))
            } else {
                old(commands)@
            }
        },
{
    if has_elapsed(elapsed_millis, ENEMY_SHOOT_WAIT_TIME) {
        let roll: u8 = roll_percent();
        if enemy_shoots(elapsed_millis, roll) {
            let up = Position::up();
            if !coords.fits(&up) {
                return None;
            }
            let start_pos = coords.translate(&up);
            commands.issue(
                GameCommand::AddEntity(Prefab::Bullet(make_bullet(start_pos, up, BulletType::Enemy))),
            );
            Some(true)
        } else {
            Some(false)
        }
    } else {
        assert(!spec_enemy_shoots(elapsed_millis, 1));
        Some(false)
    }
}

/// One frame of every enemy's gun, in the order of the matches. Each enemy
/// decides for itself; those that shoot queue one bullet each.
pub fn shoot(enemies: &mut Vec<EnemyMatch>, commands: &mut GameCommandQueue)
    requires
        forall|i: int|
            0 <= i < old(enemies).len() ==> can_translate(
                (#[trigger] old(enemies)[i]).coords,
                spec_up(),
            ),
    ensures
        final(enemies).len() == old(enemies).len(),
        forall|i: int|
            0 <= i < old(enemies).len() ==> (#[trigger] final(enemies)[i]).coords == old(
                enemies,
            )[i].coords,
        exists|shots: Seq<bool>|
            shots.len() == old(enemies).len() && final(commands)@ == old(commands)@
                + shot_commands(old(enemies)@, shots),
{
    try_shoot(enemies, commands);
}

/// One frame of every enemy's gun, wherever on the grid the enemies stand. It
/// does what `shoot` does, but an enemy whose roll fires and whose bullet
/// would start off the grid shoots nothing, and `false` is handed back if
/// there was one.
pub fn try_shoot(enemies: &mut Vec<EnemyMatch>, commands: &mut GameCommandQueue) -> (in_grid: bool)
    ensures
        final(enemies).len() == old(enemies).len(),
        forall|i: int|
            0 <= i < old(enemies).len() ==> (#[trigger] final(enemies)[i]).coords == old(
                enemies,
            )[i].coords,
        exists|shots: Seq<bool>|
            shots.len() == old(enemies).len() && final(commands)@ == old(commands)@
                + shot_commands(old(enemies)@, shots),
        !in_grid ==> exists|i: int|
            0 <= i < old(enemies).len() && !can_translate(
                (#[trigger] old(enemies)[i]).coords,
                spec_up(),
            ),
{
    let count: usize = enemies.len();
    let mut i: usize = 0;
    let mut in_grid = true;
    let ghost mut shots: Seq<bool> = Seq::empty();
    assert(old(commands)@ + shot_commands(old(enemies)@.take(0), shots) =~= old(commands)@);
    while i < count
        invariant
            i <= count,
            count == old(enemies).len(),
            enemies.len() == count,
            shots.len() == i,
            forall|j: int| i <= j < count ==> enemies[j] == old(enemies)[j],
            forall|j: int| 0 <= j < i ==> (#[trigger] enemies[j]).coords == old(enemies)[j].coords,
            !in_grid ==> exists|j: int|
                0 <= j < i && !can_translate((#[trigger] old(enemies)[j]).coords, spec_up()),
            commands@ == old(commands)@ + shot_commands(old(enemies)@.take(i as int), shots),
        decreases count - i,
    {
        let tried = try_enemy_shoot(&mut enemies[i], commands);
        let shot = match tried {
            Some(shot) => shot,
            None => {
                assert(!can_translate(old(enemies)[i as int].coords, spec_up()));
                in_grid = false;
                false
            },
        };
        proof {
            let before = old(enemies)@.take(i as int);
            let after = old(enemies)@.take(i + 1);
            assert(after.drop_last() =~= before);
            assert(shots.push(shot).drop_last() =~= shots);
            assert(after.last() == old(enemies)@[i as int]);
            shots = shots.push(shot);
        }
        i += 1;
    }
    assert(old(enemies)@.take(count as int) =~= old(enemies)@);
    in_grid
}

/// Whether an enemy at `coords` stands at the left edge of its range.
pub fn is_at_min_x(coords: Position) -> (at_edge: bool)
    ensures
        at_edge == (coords.x <= ENEMY_MIN_X),
{
    coords.x <= ENEMY_MIN_X as i64
}

/// Whether an enemy at `coords` stands at the right edge of its range.
pub fn is_at_max_x(coords: Position) -> (at_edge: bool)
    ensures
        at_edge == (coords.x >= ENEMY_MAX_X),
{
    coords.x >= ENEMY_MAX_X as i64
}

/// Some enemy stands at the left edge.
pub open spec fn spec_any_at_min_x(coords: Seq<Position>) -> bool {
    exists|i: int| 0 <= i < coords.len() && (#[trigger] coords[i]).x <= ENEMY_MIN_X
}

/// Some enemy stands at the right edge.
pub open spec fn spec_any_at_max_x(coords: Seq<Position>) -> bool {
    exists|i: int| 0 <= i < coords.len() && (#[trigger] coords[i]).x >= ENEMY_MAX_X
}

/// Scans the formation for an enemy at the left edge.
pub fn any_at_min_x(coords: &Vec<Position>) -> (found: bool)
    ensures
        found == spec_any_at_min_x(coords@),
{
    let mut i: usize = 0;
    while i < coords.len()
        invariant
            i <= coords.len(),
            forall|j: int| 0 <= j < i ==> !((#[trigger] coords[j]).x <= ENEMY_MIN_X),
        decreases coords.len() - i,
    {
        if is_at_min_x(coords[i]) {
            return true;
        }
        i += 1;
    }
    false
}

/// Scans the formation for an enemy at the right edge.
pub fn any_at_max_x(coords: &Vec<Position>) -> (found: bool)
    ensures
        found == spec_any_at_max_x(coords@),
{
    let mut i: usize = 0;
    while i < coords.len()
        invariant
            i <= coords.len(),
            forall|j: int| 0 <= j < i ==> !((#[trigger] coords[j]).x >= ENEMY_MAX_X),
        decreases coords.len() - i,
    {
        if is_at_max_x(coords[i]) {
            return true;
        }
        i += 1;
    }
    false
}

/// The direction of the formation's next step: away from the left edge if an
/// enemy stands there, else away from the right edge if an enemy stands
/// there, else as the coin falls.
pub open spec fn spec_formation_direction(coords: Seq<Position>, coin: u8) -> Position {
    if spec_any_at_min_x(coords) {
        spec_right()
    } else if spec_any_at_max_x(coords) {
        spec_left()
    } else if coin == 0 {
        spec_left()
    } else {
        spec_right()
    }
}

/// The direction that the edges force on the formation, if they force one.
pub fn forced_direction(coords: &Vec<Position>) -> (direction: Option<Position>)
    ensures
        direction == if spec_any_at_min_x(coords@) {
            Some(spec_right())
        } else if spec_any_at_max_x(coords@) {
            Some(spec_left())
        } else {
            None
        },
{
    if any_at_min_x(coords) {
        Some(Position::right())
    } else if any_at_max_x(coords) {
        Some(Position::left())
    } else {
        None
    }
}

/// The direction of a formation that no edge turns, by the fall of the coin.
pub fn free_direction(coin: u8) -> (direction: Position)
    ensures
        direction == if coin == 0 {
            spec_left()
        } else {
            spec_right()
        },
{
    if coin == 0 {
        Position::left()
    } else {
        Position::right()
    }
}

/// Every position moved by the same displacement.
pub open spec fn shifted(coords: Seq<Position>, displacement: Position) -> Seq<Position> {
    Seq::new(coords.len(), |i: int| spec_translate(coords[i], displacement))
}

/// Moves every position by `displacement`: the formation is rigid.
pub fn shift_all(coords: &mut Vec<Position>, displacement: Position)
    requires
        forall|i: int|
            0 <= i < old(coords).len() ==> can_translate(#[trigger] old(coords)[i], displacement),
    ensures
        final(coords)@ == shifted(old(coords)@, displacement),
{
    let count: usize = coords.len();
    let mut i: usize = 0;
    while i < count
        invariant
            i <= count,
            count == old(coords).len(),
            coords.len() == count,
            forall|j: int| i <= j < count ==> coords[j] == old(coords)[j],
            forall|j: int|
                0 <= j < i ==> coords[j] == spec_translate(old(coords)[j], displacement),
            forall|j: int|
                0 <= j < count ==> can_translate(#[trigger] old(coords)[j], displacement),
        decreases count - i,
    {
        let moved = coords[i].translate(&displacement);
        coords.set(i, moved);
        i += 1;
    }
}

/// One frame of the formation. Once the shared cooldown has expired, every
/// enemy takes the same one-cell step, in the direction that the edges force
/// or, if they force none, that a coin picks. Before that, and with no enemy
/// alive, nothing moves.
pub fn movement(enemy_coords: &mut Vec<Position>, enemy_movement: &mut EnemyMovement)
    requires
        forall|i: int|
            0 <= i < old(enemy_coords).len() ==> i64::MIN < (#[trigger] old(enemy_coords)[i]).x
                < i64::MAX,
    ensures
        exists|elapsed_millis: u128, coin: u8|
            coin <= 1 && final(enemy_coords)@ == #[trigger] spec_formation_step(
                old(enemy_coords)@,
                elapsed_millis,
                coin,
            ),
{
    try_movement(enemy_coords, enemy_movement);
}

/// Every enemy can take a step to either side without leaving the grid.
pub open spec fn spec_all_can_step(coords: Seq<Position>) -> bool {
    forall|i: int| 0 <= i < coords.len() ==> i64::MIN < (#[trigger] coords[i]).x < i64::MAX
}

/// Whether every enemy can take a step to either side without leaving the
/// grid.
pub fn all_can_step(coords: &Vec<Position>) -> (fit: bool)
    ensures
        fit == spec_all_can_step(coords@),
{
    let mut i: usize = 0;
    while i < coords.len()
        invariant
            i <= coords.len(),
            forall|j: int| 0 <= j < i ==> i64::MIN < (#[trigger] coords[j]).x < i64::MAX,
        decreases coords.len() - i,
    {
        if coords[i].x == i64::MIN || coords[i].x == i64::MAX {
            return false;
        }
        i += 1;
    }
    true
}

/// One frame of the formation, wherever on the grid it stands. It does what
/// `movement` does, but a formation whose step is due while one of its
/// enemies stands on the edge of the grid stays where it is, and `false` is
/// handed back.
pub fn try_movement(
    enemy_coords: &mut Vec<Position>,
    enemy_movement: &mut EnemyMovement,
) -> (in_grid: bool)
    ensures
        exists|elapsed_millis: u128, coin: u8|
            coin <= 1 && final(enemy_coords)@ == #[trigger] spec_formation_step(
                old(enemy_coords)@,
                elapsed_millis,
                coin,
            ),
        !in_grid ==> final(enemy_coords)@ == old(enemy_coords)@ && !spec_all_can_step(
            old(enemy_coords)@,
        ),
{
    let elapsed_millis: u128 = enemy_movement.move_timer.elapsed_millis();
    if has_elapsed(elapsed_millis, ENEMY_MOVE_WAIT_TIME) && !all_can_step(enemy_coords) {
        assert(enemy_coords@ == spec_formation_step(old(enemy_coords)@, 0, 0));
        return false;
    }
    if step_formation(enemy_coords, elapsed_millis) {
        enemy_movement.move_timer.restart();
    }
    true
}

/// Where the enemies stand after a frame in which the formation's stopwatch
/// read `elapsed_millis` and the coin, if it was needed, fell on `coin`: one
/// step along the formation's direction once the cooldown has expired and
/// there is an enemy to move, and where they stood otherwise.
pub open spec fn spec_formation_step(
    coords: Seq<Position>,
    elapsed_millis: u128,
    coin: u8,
) -> Seq<Position> {
    if spec_has_elapsed(elapsed_millis, ENEMY_MOVE_WAIT_TIME) && coords.len() > 0 {
        shifted(coords, spec_formation_direction(coords, coin))
    } else {
        coords
    }
}

/// One frame of the formation, given its stopwatch reading. Once the cooldown
/// has expired every enemy takes the same one-cell step; before that nothing
/// moves. Whether the cooldown had expired is handed back.
pub fn step_formation(enemy_coords: &mut Vec<Position>, elapsed_millis: u128) -> (due: bool)
    requires
        spec_has_elapsed(elapsed_millis, ENEMY_MOVE_WAIT_TIME) ==> spec_all_can_step(
            old(enemy_coords)@,
        ),
    ensures
        due == spec_has_elapsed(elapsed_millis, ENEMY_MOVE_WAIT_TIME),
        exists|coin: u8|
            coin <= 1 && final(enemy_coords)@ == #[trigger] spec_formation_step(
                old(enemy_coords)@,
                elapsed_millis,
                coin,
            ),
{
    if has_elapsed(elapsed_millis, ENEMY_MOVE_WAIT_TIME) {
        if enemy_coords.len() > 0 {
            let ghost mut coin_seen: u8 = 0;
            let direction = match forced_direction(enemy_coords) {
                Some(direction) => direction,
                None => {
                    let coin: u8 = flip_coin();
                    proof {
                        coin_seen = coin;
                    }
                    free_direction(coin)
                },
            };
            assert(direction == spec_formation_direction(enemy_coords@, coin_seen));
            shift_all(enemy_coords, direction);
            assert(enemy_coords@ == spec_formation_step(
                old(enemy_coords)@,
                elapsed_millis,
                coin_seen,
            ));
        } else {
            assert(enemy_coords@ == spec_formation_step(old(enemy_coords)@, elapsed_millis, 0));
        }
        true
    } else {
        assert(enemy_coords@ == spec_formation_step(old(enemy_coords)@, elapsed_millis, 0));
        false
    }
}

/// A formation that stands inside its range, and does not span it from edge
/// to edge, still stands inside after a step.
pub proof fn lemma_formation_stays_in_range(coords: Seq<Position>, coin: u8)
    requires
        forall|i: int|
            0 <= i < coords.len() ==> ENEMY_MIN_X <= (#[trigger] coords[i]).x <= ENEMY_MAX_X,
        !(spec_any_at_min_x(coords) && spec_any_at_max_x(coords)),
    ensures
        forall|i: int|
            0 <= i < coords.len() ==> ENEMY_MIN_X <= (#[trigger] shifted(
                coords,
                spec_formation_direction(coords, coin),
            )[i]).x <= ENEMY_MAX_X,
{
}

} // verus!
