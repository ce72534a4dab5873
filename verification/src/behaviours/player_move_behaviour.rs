//! The player's sideways steps.

use crate::constants::{SCREEN_HEIGHT, SCREEN_WIDTH};
use crate::coords::{can_translate, spec_left, spec_right, spec_translate, Position};
use crate::input::InputSnapshot;
use thomas::Timer;
use vstd::prelude::*;

verus! {

/// Time between two steps of the player.
pub const MOVE_WAIT_TIME_MILLIS: u128 = 100;

/// Rows between the player and the bottom of the screen.
pub const PLAYER_Y_OFFSET: u8 = 2;

/// The stopwatch that paces the player's steps.
pub struct PlayerMoveBehaviour {
    pub move_timer: Timer,
}

/// The step that the held keys ask for: to the left if the left key is held,
/// else to the right if the right key is held.
pub open spec fn spec_move_direction(input: InputSnapshot) -> Option<Position> {
    if input.move_left {
        Some(spec_left())
    } else if input.move_right {
        Some(spec_right())
    } else {
        None
    }
}

/// The step of a frame in which the stopwatch read `first_reading` and then
/// `second_reading`: the step that the held keys ask for, once the first
/// reading is past the waiting time and the second has reached it.
pub open spec fn spec_step_after(
    input: InputSnapshot,
    first_reading: u128,
    second_reading: u128,
) -> Option<Position> {
    if first_reading > MOVE_WAIT_TIME_MILLIS && second_reading >= MOVE_WAIT_TIME_MILLIS {
        spec_move_direction(input)
    } else {
        None
    }
}

/// Where the player stands when the game starts: in the middle of its row.
pub open spec fn spec_start_position() -> Position {
    Position { x: (SCREEN_WIDTH / 2) as i64, y: (SCREEN_HEIGHT - PLAYER_Y_OFFSET) as i64 }
}

/// The position with its column pulled back onto the screen.
pub open spec fn spec_clamp_position(coords: Position) -> Position {
    if coords.x < 0 {
        Position { x: 0, y: coords.y }
    } else if coords.x >= SCREEN_WIDTH {
        Position { x: (SCREEN_WIDTH - 1) as i64, y: coords.y }
    } else {
        coords
    }
}

/// What a frame may do to the player's place before it is pulled back onto
/// the screen: nothing, or one step along the held key.
pub open spec fn spec_may_have_moved(before: Position, input: InputSnapshot, after: Position) -> bool {
    ||| after == before
    ||| (spec_move_direction(input) matches Some(direction) && after == spec_translate(
        before,
        direction,
    ))
}

impl PlayerMoveBehaviour {
    pub fn new() -> PlayerMoveBehaviour {
        PlayerMoveBehaviour { move_timer: Timer::new() }
    }

    /// The step that the held keys ask for, if any.
    pub fn move_direction(input: &InputSnapshot) -> (direction: Option<Position>)
        ensures
            direction == spec_move_direction(*input),
    {
        if input.move_left {
            Some(Position::left())
        } else if input.move_right {
            Some(Position::right())
        } else {
            None
        }
    }

    /// Takes one step along the held key once the cooldown has run out, and
    /// starts waiting again.
    pub fn perform_movement(&mut self, coords: &mut Position, input: &InputSnapshot)
        requires
            spec_move_direction(*input) matches Some(direction) ==> can_translate(
                *old(coords),
                direction,
            ),
        ensures
            spec_may_have_moved(*old(coords), *input, *final(coords)),
    {
        let first_reading: u128 = self.move_timer.elapsed_millis();
        if first_reading > MOVE_WAIT_TIME_MILLIS && (input.move_left || input.move_right) {
            if !self.move_timer.is_running() {
                self.move_timer.restart();
            }
            let second_reading: u128 = self.move_timer.elapsed_millis();
            match Self::step_after(input, first_reading, second_reading) {
                Some(direction) => {
                    *coords = coords.translate(&direction);
                    self.move_timer.restart();
                },
                None => {},
            }
        }
    }

    /// The step of a frame, given the held keys and the two readings that the
    /// frame takes of the stopwatch.
    pub fn step_after(
        input: &InputSnapshot,
        first_reading: u128,
        second_reading: u128,
    ) -> (step: Option<Position>)
        ensures
            step == spec_step_after(*input, first_reading, second_reading),
    {
        if first_reading > MOVE_WAIT_TIME_MILLIS && second_reading >= MOVE_WAIT_TIME_MILLIS {
            Self::move_direction(input)
        } else {
            None
        }
    }

    /// Pulls the player back onto the screen.
    pub fn clamp_position(&self, coords: &mut Position)
        ensures
            *final(coords) == spec_clamp_position(*old(coords)),
            0 <= final(coords).x < SCREEN_WIDTH,
    {
        if coords.x < 0 {
            *coords = Position { x: 0, y: coords.y };
        } else if coords.x >= SCREEN_WIDTH as i64 {
            *coords = Position { x: SCREEN_WIDTH as i64 - 1, y: coords.y };
        }
    }

    /// Puts the player on its starting place and starts the cooldown.
    pub fn init(&mut self, coords: &mut Position)
        ensures
            *final(coords) == spec_start_position(),
    {
        *coords = Position {
            x: (SCREEN_WIDTH / 2) as i64,
            y: (SCREEN_HEIGHT - PLAYER_Y_OFFSET as u64) as i64,
        };
        self.move_timer.start();
    }

    /// One frame: a step if it is time for one, and never off the screen.
    pub fn update(&mut self, coords: &mut Position, input: &InputSnapshot)
        requires
            spec_move_direction(*input) matches Some(direction) ==> can_translate(
                *old(coords),
                direction,
            ),
        ensures
            exists|moved: Position|
                #[trigger] spec_may_have_moved(*old(coords), *input, moved) && *final(coords)
                    == spec_clamp_position(moved),
            0 <= final(coords).x < SCREEN_WIDTH,
    {
        self.perform_movement(coords, input);
        self.clamp_position(coords);
    }
}

} // verus!
