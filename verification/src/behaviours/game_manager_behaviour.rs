//! The bookkeeper of the score.
//!
//! Kills are reported by message, possibly several per frame. The points are
//! collected as they arrive and added to the score once per frame, so that
//! the visible score changes at most once per frame.

use crate::behaviours::commands::{Command, CommandQueue, CommandView};
use crate::behaviours::messages::{ChangeTextPayload, Message, MessageView};
use crate::coords::Position;
use crate::entities::{make_text, spec_make_text};
use crate::text::{score_text, spec_score_text};
use vstd::prelude::*;

verus! {

/// Points for an enemy that the player has destroyed.
pub const ENEMY_KILL_SCORE: u32 = 10;

/// Identity of the line of text that shows the score.
pub const SCORE_TEXT_ID: &'static str = "player-score-text";

/// The score, and the points that wait to be added to it.
#[derive(Clone, Copy, Debug, PartialEq, Eq, Structural)]
pub struct GameManagerBehaviour {
    pub score: u32,
    pub score_addition: u32,
}

/// The message that tells the score line to show `score`.
pub open spec fn spec_score_message(score: u32) -> CommandView {
    CommandView::SendMessage {
        entity_id: SCORE_TEXT_ID@,
        message: MessageView::ChangeText(spec_score_text(score as u64)),
    }
}

/// The message that tells the entity `entity_id` to reset itself.
pub open spec fn spec_reset_message(entity_id: Seq<char>) -> CommandView {
    CommandView::SendMessage { entity_id, message: MessageView::Reset }
}

/// The identity of an entity that a lookup has found.
pub open spec fn spec_found(lookup: Option<&str>) -> Seq<char> {
    match lookup {
        Some(entity_id) => entity_id@,
        None => Seq::empty(),
    }
}

/// The game is reset when the player is there and has no life left.
pub open spec fn spec_should_reset(player_lives: Option<u8>) -> bool {
    player_lives == Some(0u8)
}

impl GameManagerBehaviour {
    /// A bookkeeper with no points.
    pub fn new() -> (behaviour: GameManagerBehaviour)
        ensures
            behaviour == (GameManagerBehaviour { score: 0, score_addition: 0 }),
    {
        GameManagerBehaviour { score: 0, score_addition: 0 }
    }

    /// The state after `message` has arrived: a kill by the player adds its
    /// points to those that wait; every other message changes nothing.
    pub open spec fn spec_on_message(self, message: MessageView) -> GameManagerBehaviour {
        match message {
            MessageView::PlayerKilledEnemy => GameManagerBehaviour {
                score_addition: (self.score_addition + ENEMY_KILL_SCORE) as u32,
                ..self
            },
            _ => self,
        }
    }

    /// The state after the waiting points have been added to the score.
    pub open spec fn spec_scored(self) -> GameManagerBehaviour {
        GameManagerBehaviour {
            score: (self.score + self.score_addition) as u32,
            score_addition: 0,
        }
    }

    /// The state after a frame that finds the player with `player_lives`.
    pub open spec fn spec_update(self, player_lives: Option<u8>) -> GameManagerBehaviour {
        if spec_should_reset(player_lives) {
            GameManagerBehaviour { score: 0, score_addition: 0 }
        } else if self.score_addition > 0 {
            self.spec_scored()
        } else {
            self
        }
    }

    /// The commands of the reset: the score line shows zero, and the spawner
    /// and the player, as the lookups found them, are told to reset
    /// themselves.
    pub open spec fn spec_reset_commands(
        enemy_spawner: Option<&str>,
        player: Option<&str>,
    ) -> Seq<CommandView> {
        seq![
            spec_score_message(0),
            spec_reset_message(spec_found(enemy_spawner)),
            spec_reset_message(spec_found(player)),
        ]
    }

    /// The commands of a frame that finds the player with `player_lives`.
    pub open spec fn spec_update_commands(
        self,
        player_lives: Option<u8>,
        enemy_spawner: Option<&str>,
        player: Option<&str>,
    ) -> Seq<CommandView> {
        if spec_should_reset(player_lives) {
            Self::spec_reset_commands(enemy_spawner, player)
        } else if self.score_addition > 0 {
            seq![spec_score_message(self.spec_scored().score)]
        } else {
            Seq::empty()
        }
    }

    /// Whether the game is to be reset, given the lives of the player if the
    /// player was found.
    pub fn should_reset(&self, player_lives: Option<u8>) -> (reset: bool)
        ensures
            reset == spec_should_reset(player_lives),
    {
        match player_lives {
            Some(lives) => lives == 0,
            None => false,
        }
    }

    /// Adds the waiting points to the score and tells the score line.
    pub fn update_score(&mut self, commands: &mut CommandQueue)
        requires
            old(self).score + old(self).score_addition <= u32::MAX,
        ensures
            *final(self) == old(self).spec_scored(),
            final(commands)@ == old(commands)@.push(spec_score_message(final(self).score)),
    {
        self.score = self.score + self.score_addition;
        self.score_addition = 0;
        commands.issue(
            Command::SendMessage {
                entity_id: String::from_str(SCORE_TEXT_ID),
                message: Message::ChangeText(
                    ChangeTextPayload { new_text: score_text(self.score as u64) },
                ),
            },
        );
    }

    /// Resets the score and tells the spawner and the player to reset
    /// themselves, in one batch. Both must have been found: a reset is never
    /// delivered to one of them only.
    pub fn reset_game(
        &mut self,
        enemy_spawner: Option<&str>,
        player: Option<&str>,
        commands: &mut CommandQueue,
    )
        requires
            enemy_spawner is Some,
            player is Some,
        ensures
            *final(self) == (GameManagerBehaviour { score: 0, score_addition: 0 }),
            final(commands)@ == old(commands)@ + Self::spec_reset_commands(enemy_spawner, player),
    {
        self.score = 0;
        self.score_addition = 0;
        self.update_score(commands);
        commands.issue(
            Command::SendMessage {
                entity_id: String::from_str(enemy_spawner.unwrap()),
                message: Message::Reset,
            },
        );
        commands.issue(
            Command::SendMessage {
                entity_id: String::from_str(player.unwrap()),
                message: Message::Reset,
            },
        );
    }

    /// Creates the line of text that shows the score.
    pub fn init(&self, commands: &mut CommandQueue)
        ensures
            final(commands)@ == old(commands)@.push(
                CommandView::AddEntity(
                    spec_make_text(
                        Position { x: 0, y: 0 },
                        SCORE_TEXT_ID@,
                        spec_score_text(self.score as u64),
                    ),
                ),
            ),
    {
        let text = score_text(self.score as u64);
        commands.issue(
            Command::AddEntity(make_text(Position { x: 0, y: 0 }, SCORE_TEXT_ID, text.as_str())),
        );
    }

    /// One frame, given the lives of the player and what the lookups of the
    /// spawner and of the player have found. With the player out of lives the
    /// game is reset; otherwise points that wait are added to the score.
    pub fn update(
        &mut self,
        player_lives: Option<u8>,
        enemy_spawner: Option<&str>,
        player: Option<&str>,
        commands: &mut CommandQueue,
    )
        requires
            !spec_should_reset(player_lives) ==> old(self).score + old(self).score_addition
                <= u32::MAX,
            spec_should_reset(player_lives) ==> enemy_spawner is Some && player is Some,
        ensures
            *final(self) == old(self).spec_update(player_lives),
            final(commands)@ == old(commands)@ + old(self).spec_update_commands(
                player_lives,
                enemy_spawner,
                player,
            ),
    {
        if self.should_reset(player_lives) {
            self.reset_game(enemy_spawner, player, commands);
        }
        if self.score_addition > 0 {
            self.update_score(commands);
        }
    }

    /// Takes a message: a kill by the player is worth its points, whenever in
    /// the frame it is reported.
    pub fn on_message(&mut self, message: &Message)
        requires
            message@ is PlayerKilledEnemy ==> old(self).score_addition + ENEMY_KILL_SCORE
                <= u32::MAX,
        ensures
            *final(self) == old(self).spec_on_message(message@),
    {
        match message {
            Message::PlayerKilledEnemy => {
                self.score_addition = self.score_addition + ENEMY_KILL_SCORE;
            },
            _ => {},
        }
    }
}

} // verus!
