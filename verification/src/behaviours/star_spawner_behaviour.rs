//! The source of the starfield.

use crate::behaviours::commands::{Command, CommandQueue, CommandView};
use crate::chance::random_in_range;
use crate::constants::{SCREEN_HEIGHT, SCREEN_WIDTH, STAR_WAIT_TIME_MILLIS};
use crate::coords::Position;
use crate::entities::{make_star, spec_make_star};
use thomas::Timer;
use vstd::prelude::*;

verus! {

/// Columns between two stars of the first scattering.
pub const STAR_COLUMN_STEP: u64 = 3;

/// The stopwatch that paces the arrival of stars.
pub struct StarSpawnerBehaviour {
    pub spawn_timer: Timer,
}

/// The number of stars of the first scattering: one on every third column.
pub open spec fn spec_scattered_count() -> nat {
    ((SCREEN_WIDTH + STAR_COLUMN_STEP - 1) / (STAR_COLUMN_STEP as int)) as nat
}

/// A command that puts a star on column `column`, on some row of the screen.
pub open spec fn spec_is_star_on_column(command: CommandView, column: int) -> bool {
    exists|row: int|
        0 <= row < SCREEN_HEIGHT && command == CommandView::AddEntity(
            #[trigger] spec_make_star(Position { x: column as i64, y: row as i64 }),
        )
}

/// A command that puts a star on the first row, on some column of the screen.
pub open spec fn spec_is_star_on_first_row(command: CommandView) -> bool {
    exists|column: int|
        0 <= column < SCREEN_WIDTH && command == CommandView::AddEntity(
            #[trigger] spec_make_star(Position { x: column as i64, y: 0 }),
        )
}

impl StarSpawnerBehaviour {
    pub fn new() -> StarSpawnerBehaviour {
        StarSpawnerBehaviour { spawn_timer: Timer::new() }
    }

    /// Scatters the first stars, one on every third column and each on a
    /// drawn row, and starts the cooldown.
    pub fn init(&mut self, commands: &mut CommandQueue)
        ensures
            final(commands)@.len() == old(commands)@.len() + spec_scattered_count(),
            final(commands)@.take(old(commands)@.len() as int) == old(commands)@,
            forall|k: int|
                0 <= k < spec_scattered_count() ==> spec_is_star_on_column(
                    #[trigger] final(commands)@[old(commands)@.len() + k],
                    STAR_COLUMN_STEP * k,
                ),
    {
        let mut column: u64 = 0;
        let mut scattered: u64 = 0;
        while column < SCREEN_WIDTH
            invariant
                column == STAR_COLUMN_STEP * scattered,
                scattered <= spec_scattered_count(),
                column < SCREEN_WIDTH ==> scattered < spec_scattered_count(),
                column >= SCREEN_WIDTH ==> scattered == spec_scattered_count(),
                commands@.len() == old(commands)@.len() + scattered,
                commands@.take(old(commands)@.len() as int) == old(commands)@,
                forall|k: int|
                    0 <= k < scattered ==> spec_is_star_on_column(
                        #[trigger] commands@[old(commands)@.len() + k],
                        STAR_COLUMN_STEP * k,
                    ),
            decreases SCREEN_WIDTH + STAR_COLUMN_STEP - column,
        {
            let row: u128 = random_in_range(0, (SCREEN_HEIGHT - 1) as u128);
            let coords = Position { x: column as i64, y: row as i64 };
            commands.issue(Command::AddEntity(make_star(coords)));
            assert(spec_is_star_on_column(
                commands@[old(commands)@.len() + scattered],
                column as int,
            ));
            column = column + STAR_COLUMN_STEP;
            scattered = scattered + 1;
        }
        self.spawn_timer.start();
    }

    /// One frame: once the cooldown has run out, one star is let in on a
    /// drawn column of the first row and the cooldown starts again.
    pub fn update(&mut self, commands: &mut CommandQueue) -> (spawned: bool)
        ensures
            !spawned ==> final(commands)@ == old(commands)@,
            spawned ==> {
                &&& final(commands)@.len() == old(commands)@.len() + 1
                &&& final(commands)@.drop_last() == old(commands)@
                &&& spec_is_star_on_first_row(final(commands)@.last())
            },
    {
        let elapsed_millis: u128 = self.spawn_timer.elapsed_millis();
        if Self::is_due(elapsed_millis) {
            let column: u128 = random_in_range(0, (SCREEN_WIDTH - 1) as u128);
            let coords = Position { x: column as i64, y: 0 };
            commands.issue(Command::AddEntity(make_star(coords)));
            self.spawn_timer.restart();
            true
        } else {
            false
        }
    }

    /// Whether a reading of `elapsed_millis` lets a star in: the reading must
    /// be past the waiting time.
    pub fn is_due(elapsed_millis: u128) -> (due: bool)
        ensures
            due == (elapsed_millis > STAR_WAIT_TIME_MILLIS),
    {
        elapsed_millis > STAR_WAIT_TIME_MILLIS
    }
}

} // verus!
