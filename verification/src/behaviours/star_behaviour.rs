//! A background star that drifts across the screen.

use crate::behaviours::commands::{Command, CommandQueue, CommandView};
use crate::constants::{SCREEN_HEIGHT, STAR_WAIT_TIME_MILLIS};
use crate::cooldown::{has_elapsed, spec_has_elapsed};
use crate::coords::{can_translate, spec_translate, spec_up, Position};
use thomas::Timer;
use vstd::prelude::*;

verus! {

/// The stopwatch that paces a star.
pub struct StarBehaviour {
    pub move_timer: Timer,
}

/// Where a star is after a frame in which its stopwatch read
/// `elapsed_millis`.
pub open spec fn spec_drifted(coords: Position, elapsed_millis: u128) -> Position {
    if spec_has_elapsed(elapsed_millis, STAR_WAIT_TIME_MILLIS) {
        spec_translate(coords, spec_up())
    } else {
        coords
    }
}

/// The command with which a star at `coords` leaves the game, if it has
/// drifted off the screen.
pub open spec fn spec_fade(entity_id: Seq<char>, coords: Position) -> Seq<CommandView> {
    if coords.y >= SCREEN_HEIGHT {
        seq![CommandView::DestroyEntity(entity_id)]
    } else {
        Seq::empty()
    }
}

impl StarBehaviour {
    pub fn new() -> StarBehaviour {
        StarBehaviour { move_timer: Timer::new() }
    }

    /// Starts the cooldown of the first step.
    pub fn init(&mut self) {
        self.move_timer.start();
    }

    /// Where the star is after a frame, given its stopwatch reading: one cell
    /// up once the cooldown has expired, and where it was before that.
    pub fn drifted(coords: Position, elapsed_millis: u128) -> (moved: Position)
        requires
            spec_has_elapsed(elapsed_millis, STAR_WAIT_TIME_MILLIS) ==> can_translate(
                coords,
                spec_up(),
            ),
        ensures
            moved == spec_drifted(coords, elapsed_millis),
    {
        if has_elapsed(elapsed_millis, STAR_WAIT_TIME_MILLIS) {
            coords.translate(&Position::up())
        } else {
            coords
        }
    }

    /// One frame: the star takes a step if its cooldown has expired, and
    /// leaves the game once it is off the screen.
    pub fn update(&mut self, entity_id: &str, coords: &mut Position, commands: &mut CommandQueue)
        requires
            can_translate(*old(coords), spec_up()),
        ensures
            exists|elapsed_millis: u128| *final(coords) == spec_drifted(*old(coords), elapsed_millis),
            final(commands)@ == old(commands)@ + spec_fade(entity_id@, *final(coords)),
    {
        let elapsed_millis: u128 = self.move_timer.elapsed_millis();
        *coords = Self::drifted(*coords, elapsed_millis);
        if has_elapsed(elapsed_millis, STAR_WAIT_TIME_MILLIS) {
            self.move_timer.restart();
        }
        if coords.y >= SCREEN_HEIGHT as i64 {
            commands.issue(Command::DestroyEntity(String::from_str(entity_id)));
        }
    }
}

} // verus!
