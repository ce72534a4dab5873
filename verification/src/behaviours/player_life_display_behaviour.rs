//! The line of the HUD that shows the player's lives.

use crate::behaviours::commands::{Command, CommandQueue, CommandView};
use crate::behaviours::messages::{ChangeTextPayload, Message, MessageView};
use crate::constants::SCREEN_HEIGHT;
use crate::coords::Position;
use crate::entities::{make_text, spec_make_text};
use crate::text::{lives_text, spec_lives_text};
use vstd::prelude::*;

verus! {

/// Identity of the line of text that shows the lives.
pub const PLAYER_LIVES_TEXT_ID: &'static str = "player-lives-text";

/// What the line shows before it has seen the player.
pub const PLAYER_LIVES_LABEL: &'static str = "Lives:";

/// The number of lives that the line shows.
#[derive(Clone, Copy, Debug, PartialEq, Eq, Structural)]
pub struct PlayerLifeDisplayBehaviour {
    pub current_lives_displayed: u8,
}

/// The lives to show: those of the player, and none if there is no player.
pub open spec fn spec_player_lives(player_lives: Option<u8>) -> u8 {
    match player_lives {
        Some(lives) => lives,
        None => 0,
    }
}

/// The message that tells the line to show `lives` lives.
pub open spec fn spec_lives_message(lives: u8) -> CommandView {
    CommandView::SendMessage {
        entity_id: PLAYER_LIVES_TEXT_ID@,
        message: MessageView::ChangeText(spec_lives_text(lives)),
    }
}

impl PlayerLifeDisplayBehaviour {
    /// A display that shows no life yet.
    pub fn new() -> (behaviour: PlayerLifeDisplayBehaviour)
        ensures
            behaviour.current_lives_displayed == 0,
    {
        PlayerLifeDisplayBehaviour { current_lives_displayed: 0 }
    }

    /// The lives to show, given the lives of the player if the player was
    /// found.
    pub fn get_player_lives(&self, player_lives: Option<u8>) -> (lives: u8)
        ensures
            lives == spec_player_lives(player_lives),
    {
        match player_lives {
            Some(lives) => lives,
            None => 0,
        }
    }

    /// Creates the line of text, on the last row of the screen.
    pub fn init(&self, commands: &mut CommandQueue)
        ensures
            final(commands)@ == old(commands)@.push(
                CommandView::AddEntity(
                    spec_make_text(
                        Position { x: 0, y: (SCREEN_HEIGHT - 1) as i64 },
                        PLAYER_LIVES_TEXT_ID@,
                        PLAYER_LIVES_LABEL@,
                    ),
                ),
            ),
    {
        commands.issue(
            Command::AddEntity(
                make_text(
                    Position { x: 0, y: (SCREEN_HEIGHT - 1) as i64 },
                    PLAYER_LIVES_TEXT_ID,
                    PLAYER_LIVES_LABEL,
                ),
            ),
        );
    }

    /// One frame: when the player's lives differ from what the line shows,
    /// the line is told the new text, once.
    pub fn update(&mut self, player_lives: Option<u8>, commands: &mut CommandQueue)
        ensures
            final(self).current_lives_displayed == spec_player_lives(player_lives),
            final(commands)@ == if spec_player_lives(player_lives) != old(
                self,
            ).current_lives_displayed {
                old(commands)@.push(spec_lives_message(spec_player_lives(player_lives)))
            } else {
                old(commands)@
            },
    {
        let lives: u8 = self.get_player_lives(player_lives);
        if lives != self.current_lives_displayed {
            commands.issue(
                Command::SendMessage {
                    entity_id: String::from_str(PLAYER_LIVES_TEXT_ID),
                    message: Message::ChangeText(ChangeTextPayload { new_text: lives_text(lives) }),
                },
            );
            self.current_lives_displayed = lives;
        }
    }
}

} // verus!
