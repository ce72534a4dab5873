//! The starfield behind the game.

use crate::chance::random_in_range;
use crate::commands::{GameCommand, GameCommandQueue};
use crate::components::{Star, StarSpawner};
use crate::constants::{SCREEN_HEIGHT, SCREEN_WIDTH};
use crate::cooldown::{has_elapsed, spec_has_elapsed};
use crate::coords::{can_translate, spec_translate, spec_up, Position};
use crate::prefabs::{make_star, spec_is_made_star, Prefab, StarPrefab};
use crate::systems::{on_init, on_update, GameEvent, ScheduledSystem, SystemId};
use vstd::prelude::*;

verus! {

/// Time between the arrival of two stars.
pub const SPAWN_WAIT_TIME: u128 = 800;

/// Stars on the screen when the game starts.
pub const NUM_STARS_TO_SPAWN_AT_START: u64 = 20;

/// The systems that create and move the stars.
pub struct StarsSystemsGenerator {}

impl StarsSystemsGenerator {
    /// The first stars are scattered once; each frame then moves the stars and
    /// lets a new one in when it is time.
    pub open spec fn spec_generate() -> Seq<ScheduledSystem> {
        seq![
            on_init(SystemId::StarsSetup),
            on_update(SystemId::MoveStars),
            on_update(SystemId::SpawnStars),
        ]
    }

    /// The star systems in the order in which a frame runs them.
    pub fn generate(&self) -> (systems: Vec<ScheduledSystem>)
        ensures
            systems@ == Self::spec_generate(),
    {
        let mut systems: Vec<ScheduledSystem> = Vec::new();
        systems.push(ScheduledSystem { event: GameEvent::Init, system: SystemId::StarsSetup });
        systems.push(ScheduledSystem { event: GameEvent::Update, system: SystemId::MoveStars });
        systems.push(ScheduledSystem { event: GameEvent::Update, system: SystemId::SpawnStars });
        systems
    }
}

/// A command that puts a star somewhere on the screen.
pub open spec fn spec_is_scattered_star(command: GameCommand) -> bool {
    exists|prefab: StarPrefab, coords: Position|
        {
            &&& 0 <= coords.x < SCREEN_WIDTH
            &&& 0 <= coords.y < SCREEN_HEIGHT
            &&& #[trigger] spec_is_made_star(prefab, Some(coords))
            &&& command == GameCommand::AddEntity(Prefab::Star(prefab))
        }
}

/// A command that lets a star in at the entry row.
pub open spec fn spec_is_entering_star(command: GameCommand) -> bool {
    exists|prefab: StarPrefab|
        {
            &&& #[trigger] spec_is_made_star(prefab, None)
            &&& command == GameCommand::AddEntity(Prefab::Star(prefab))
        }
}

/// Creates the star spawner and scatters the first stars over the screen.
pub fn setup_stars(commands: &mut GameCommandQueue)
    ensures
        final(commands)@.len() == old(commands)@.len() + 1 + NUM_STARS_TO_SPAWN_AT_START,
        final(commands)@.take(old(commands)@.len() as int) == old(commands)@,
        final(commands)@[old(commands)@.len() as int] == GameCommand::AddEntity(
            Prefab::StarSpawner,
        ),
        forall|i: int|
            old(commands)@.len() < i < final(commands)@.len() ==> spec_is_scattered_star(
                #[trigger] final(commands)@[i],
            ),
{
    commands.issue(GameCommand::AddEntity(Prefab::StarSpawner));
    let mut scattered: u64 = 0;
    while scattered < NUM_STARS_TO_SPAWN_AT_START
        invariant
            scattered <= NUM_STARS_TO_SPAWN_AT_START,
            commands@.len() == old(commands)@.len() + 1 + scattered,
            commands@.take(old(commands)@.len() as int) == old(commands)@,
            commands@[old(commands)@.len() as int] == GameCommand::AddEntity(Prefab::StarSpawner),
            forall|i: int|
                old(commands)@.len() < i < commands@.len() ==> spec_is_scattered_star(
                    #[trigger] commands@[i],
                ),
        decreases NUM_STARS_TO_SPAWN_AT_START - scattered,
    {
        let x: u128 = random_in_range(0, (SCREEN_WIDTH - 1) as u128);
        let y: u128 = random_in_range(0, (SCREEN_HEIGHT - 1) as u128);
        let coords = Position { x: x as i64, y: y as i64 };
        let prefab = make_star(Some(coords));
        commands.issue(GameCommand::AddEntity(Prefab::Star(prefab)));
        scattered += 1;
    }
}

/// A star as a query finds it: its component and its place.
pub struct StarMatch {
    pub star: Star,
    pub coords: Position,
}

/// Where a star is after a frame in which its stopwatch read `elapsed_millis`:
/// one cell up once its own cooldown has expired, and where it was before
/// that.
pub open spec fn spec_step_star(coords: Position, move_wait_time: u128, elapsed_millis: u128) -> Position {
    if spec_has_elapsed(elapsed_millis, move_wait_time) {
        spec_translate(coords, spec_up())
    } else {
        coords
    }
}

/// Moves a star by one cell if its cooldown has expired.
pub fn step_star(coords: Position, move_wait_time: u128, elapsed_millis: u128) -> (moved: Position)
    requires
        spec_has_elapsed(elapsed_millis, move_wait_time) ==> can_translate(coords, spec_up()),
    ensures
        moved == spec_step_star(coords, move_wait_time, elapsed_millis),
{
    if has_elapsed(elapsed_millis, move_wait_time) {
        coords.translate(&Position::up())
    } else {
        coords
    }
}

/// What a frame may do to a star: it keeps its pace, and either stays or
/// takes one step.
pub open spec fn star_stepped(before: StarMatch, after: StarMatch) -> bool {
    &&& after.star.move_wait_time == before.star.move_wait_time
    &&& exists|elapsed_millis: u128|
        after.coords == spec_step_star(before.coords, before.star.move_wait_time, elapsed_millis)
}

/// One frame of one star.
pub fn move_star(star_match: &mut StarMatch)
    requires
        can_translate(old(star_match).coords, spec_up()),
    ensures
        star_stepped(*old(star_match), *final(star_match)),
{
    try_move_star(star_match);
}

/// What happens to a star whose step would leave the grid: nothing.
pub open spec fn star_stuck(before: StarMatch, after: StarMatch) -> bool {
    &&& after.star.move_wait_time == before.star.move_wait_time
    &&& after.coords == before.coords
    &&& !can_translate(before.coords, spec_up())
}

/// One frame of one star, wherever on the grid it stands. It does what
/// `move_star` does, but a star whose step is due and would leave the grid
/// stays where it is, and `false` is handed back.
pub fn try_move_star(star_match: &mut StarMatch) -> (in_grid: bool)
    ensures
        in_grid ==> star_stepped(*old(star_match), *final(star_match)),
        !in_grid ==> star_stuck(*old(star_match), *final(star_match)),
{
    let elapsed_millis: u128 = star_match.star.move_timer.elapsed_millis();
    if has_elapsed(elapsed_millis, star_match.star.move_wait_time) {
        if !star_match.coords.fits(&Position::up()) {
            return false;
        }
        star_match.coords = step_star(
            star_match.coords,
            star_match.star.move_wait_time,
            elapsed_millis,
        );
        star_match.star.move_timer.restart();
    } else {
        assert(star_match.coords == spec_step_star(
            star_match.coords,
            star_match.star.move_wait_time,
            elapsed_millis,
        ));
    }
    true
}

/// One frame of every star, in the order of the matches.
pub fn move_stars(stars: &mut Vec<StarMatch>)
    requires
        forall|i: int|
            0 <= i < old(stars).len() ==> can_translate((#[trigger] old(stars)[i]).coords, spec_up()),
    ensures
        final(stars).len() == old(stars).len(),
        forall|i: int|
            0 <= i < old(stars).len() ==> star_stepped(old(stars)[i], #[trigger] final(stars)[i]),
{
    try_move_stars(stars);
}

/// One frame of every star, wherever on the grid they stand. It does what
/// `move_stars` does, but a star whose step is due and would leave the grid
/// stays where it is, and `false` is handed back if there was one.
pub fn try_move_stars(stars: &mut Vec<StarMatch>) -> (in_grid: bool)
    ensures
        final(stars).len() == old(stars).len(),
        forall|i: int|
            0 <= i < old(stars).len() ==> {
                ||| star_stepped(old(stars)[i], #[trigger] final(stars)[i])
                ||| star_stuck(old(stars)[i], final(stars)[i])
            },
        !in_grid ==> exists|i: int|
            0 <= i < old(stars).len() && !can_translate(
                (#[trigger] old(stars)[i]).coords,
                spec_up(),
            ),
{
    let count: usize = stars.len();
    let mut i: usize = 0;
    let mut in_grid = true;
    while i < count
        invariant
            i <= count,
            count == old(stars).len(),
            stars.len() == count,
            forall|j: int| i <= j < count ==> stars[j] == old(stars)[j],
            forall|j: int|
                0 <= j < i ==> {
                    ||| star_stepped(old(stars)[j], #[trigger] stars[j])
                    ||| star_stuck(old(stars)[j], stars[j])
                },
            !in_grid ==> exists|j: int|
                0 <= j < i && !can_translate((#[trigger] old(stars)[j]).coords, spec_up()),
        decreases count - i,
    {
        if !try_move_star(&mut stars[i]) {
            assert(!can_translate(old(stars)[i as int].coords, spec_up()));
            in_grid = false;
        }
        i += 1;
    }
    in_grid
}

/// One frame of the star spawner. Once its cooldown has expired one star is
/// let in at the entry row and the cooldown starts again.
pub fn spawn_star(spawner: &mut StarSpawner, commands: &mut GameCommandQueue) -> (spawned: bool)
    ensures
        !spawned ==> final(commands)@ == old(commands)@,
        spawned ==> {
            &&& final(commands)@.len() == old(commands)@.len() + 1
            &&& final(commands)@.drop_last() == old(commands)@
            &&& spec_is_entering_star(final(commands)@.last())
        },
{
    let elapsed_millis: u128 = spawner.spawn_timer.elapsed_millis();
    let spawned = spawn_star_after(elapsed_millis, commands);
    if spawned {
        spawner.spawn_timer.restart();
    }
    spawned
}

/// One frame of the star spawner, given its stopwatch reading: once the
/// cooldown has expired one star is let in at the entry row, and before that
/// none.
pub fn spawn_star_after(elapsed_millis: u128, commands: &mut GameCommandQueue) -> (spawned: bool)
    ensures
        spawned == spec_has_elapsed(elapsed_millis, SPAWN_WAIT_TIME),
        !spawned ==> final(commands)@ == old(commands)@,
        spawned ==> {
            &&& final(commands)@.len() == old(commands)@.len() + 1
            &&& final(commands)@.drop_last() == old(commands)@
            &&& spec_is_entering_star(final(commands)@.last())
        },
{
    if has_elapsed(elapsed_millis, SPAWN_WAIT_TIME) {
        let prefab = make_star(None);
        commands.issue(GameCommand::AddEntity(Prefab::Star(prefab)));
        assert(commands@.drop_last() =~= old(commands)@);
        true
    } else {
        false
    }
}

} // verus!
