//! The player's life pool and gun.

use crate::behaviours::commands::{Command, CommandQueue, CommandView};
use crate::behaviours::messages::{Message, MessageView};
use crate::cooldown::{has_elapsed, spec_has_elapsed};
use crate::coords::{can_translate, spec_down, spec_translate, Position};
use crate::entities::{make_bullet, spec_make_bullet};
use crate::input::InputSnapshot;
use crate::prefabs::BulletType;
use thomas::Timer;
use vstd::prelude::*;

verus! {

/// Time between two shots of the player.
pub const MIN_SHOOT_WAIT_TIME_MILLIS: u128 = 250;

/// The most lives a player can have.
pub const MAX_LIVES: u8 = 3;

/// The lives of the player, its gun, and whether a reset has been asked for.
pub struct PlayerCombatBehaviour {
    pub lives: u8,
    pub fire_timer: Timer,
    pub should_reset: bool,
}

/// The lives left after `message` has arrived: a hit by an enemy's bullet
/// costs one life as long as there is one, and nothing else costs any.
pub open spec fn spec_lives_after_message(lives: u8, message: MessageView) -> u8 {
    match message {
        MessageView::BulletHit(BulletType::Enemy) if lives > 0 => (lives - 1) as u8,
        _ => lives,
    }
}

/// Whether a reset is pending after `message` has arrived.
pub open spec fn spec_reset_after_message(should_reset: bool, message: MessageView) -> bool {
    should_reset || message is Reset
}

/// The bullet the player at `coords` fires: it starts one cell down and flies
/// down.
pub open spec fn spec_player_shot(coords: Position) -> CommandView {
    CommandView::AddEntity(
        spec_make_bullet(spec_translate(coords, spec_down()), BulletType::Player, spec_down()),
    )
}

/// Whether the player shoots in a frame in which its stopwatch read
/// `elapsed_millis`: the fire key must be held and the cooldown expired.
pub open spec fn spec_player_shoots(input: InputSnapshot, elapsed_millis: u128) -> bool {
    input.shoot && spec_has_elapsed(elapsed_millis, MIN_SHOOT_WAIT_TIME_MILLIS)
}

impl PlayerCombatBehaviour {
    /// The player never has more lives than a player can have.
    pub open spec fn wf(&self) -> bool {
        self.lives <= MAX_LIVES
    }

    /// A player with all its lives.
    pub fn new() -> (behaviour: PlayerCombatBehaviour)
        ensures
            behaviour.lives == MAX_LIVES,
            !behaviour.should_reset,
            behaviour.wf(),
    {
        PlayerCombatBehaviour { lives: MAX_LIVES, fire_timer: Timer::new(), should_reset: false }
    }

    /// The lives the player has left.
    pub fn lives(&self) -> (lives: u8)
        ensures
            lives == self.lives,
    {
        self.lives
    }

    /// Gives the player all its lives and starts the cooldown of its gun.
    pub fn init(&mut self)
        ensures
            final(self).lives == MAX_LIVES,
            final(self).should_reset == old(self).should_reset,
            final(self).wf(),
    {
        self.lives = MAX_LIVES;
        self.fire_timer.restart();
    }

    /// Whether the player shoots, given the held keys and its stopwatch
    /// reading.
    pub fn player_shoots(input: &InputSnapshot, elapsed_millis: u128) -> (shoots: bool)
        ensures
            shoots == spec_player_shoots(*input, elapsed_millis),
    {
        input.shoot && has_elapsed(elapsed_millis, MIN_SHOOT_WAIT_TIME_MILLIS)
    }

    /// One frame. With the fire key held and the cooldown expired one bullet
    /// is queued. A pending reset gives the player its lives back.
    pub fn update(
        &mut self,
        coords: Position,
        input: &InputSnapshot,
        commands: &mut CommandQueue,
    ) -> (shot: bool)
        requires
            input.shoot ==> can_translate(coords, spec_down()),
        ensures
            shot ==> input.shoot,
            final(commands)@ == if shot {
                old(commands)@.push(spec_player_shot(coords))
            } else {
                old(commands)@
            },
            final(self).lives == if old(self).should_reset {
                MAX_LIVES
            } else {
                old(self).lives
            },
            !final(self).should_reset,
    {
        let mut shot = false;
        if input.shoot {
            let elapsed_millis: u128 = self.fire_timer.elapsed_millis();
            if Self::player_shoots(input, elapsed_millis) {
                let down = Position::down();
                commands.issue(
                    Command::AddEntity(
                        make_bullet(coords.translate(&down), BulletType::Player, down),
                    ),
                );
                self.fire_timer.restart();
                shot = true;
            }
        }
        self.settle_reset();
        shot
    }

    /// Carries out a pending reset: the player gets all its lives back and
    /// the reset is noted as done. Without a pending reset nothing changes.
    pub fn settle_reset(&mut self)
        ensures
            final(self).lives == if old(self).should_reset {
                MAX_LIVES
            } else {
                old(self).lives
            },
            !final(self).should_reset,
            old(self).wf() ==> final(self).wf(),
    {
        if self.should_reset {
            self.init();
            self.should_reset = false;
        }
    }

    /// Takes a message: a hit by an enemy's bullet costs a life, never the
    /// last but none; a reset is noted for the next frame.
    pub fn on_message(&mut self, message: &Message)
        ensures
            final(self).lives == spec_lives_after_message(old(self).lives, message@),
            final(self).should_reset == spec_reset_after_message(old(self).should_reset, message@),
            final(self).lives <= old(self).lives,
            old(self).wf() ==> final(self).wf(),
    {
        match message {
            Message::BulletHit(payload) => {
                match payload.bullet_type {
                    BulletType::Enemy => {
                        if self.lives > 0 {
                            self.lives = self.lives - 1;
                        }
                    },
                    BulletType::Player => {},
                }
            },
            Message::Reset => {
                self.should_reset = true;
            },
            _ => {},
        }
    }
}

} // verus!
