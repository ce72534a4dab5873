//! The last word of an enemy.
//!
//! The death notice belongs to the destroy hook, not to whatever killed the
//! enemy: the engine runs the hook once per destroyed entity, so the spawner
//! hears of each death once, whether a bullet or a reset was the cause.

use crate::behaviours::commands::{Command, CommandQueue, CommandView};
use crate::behaviours::messages::{EnemyDiedPayload, Message, MessageView};
use crate::behaviours::ENEMY_SPAWNER_ID;
use vstd::prelude::*;

verus! {

/// An enemy that does nothing but report its death.
#[derive(Clone, Copy, Debug, PartialEq, Eq, Structural)]
pub struct EnemyBehaviour {}

/// The notice to the spawner that the enemy `entity_id` has died.
pub open spec fn spec_death_notice(entity_id: Seq<char>) -> CommandView {
    CommandView::SendMessage {
        entity_id: ENEMY_SPAWNER_ID@,
        message: MessageView::EnemyDied(entity_id),
    }
}

impl EnemyBehaviour {
    pub fn new() -> (behaviour: EnemyBehaviour)
        ensures
            behaviour == (EnemyBehaviour {  }),
    {
        EnemyBehaviour {  }
    }

    /// Tells the spawner that this enemy has died: one notice per call.
    pub fn on_destroy(&self, entity_id: &str, commands: &mut CommandQueue)
        ensures
            final(commands)@ == old(commands)@.push(spec_death_notice(entity_id@)),
    {
        commands.issue(
            Command::SendMessage {
                entity_id: String::from_str(ENEMY_SPAWNER_ID),
                message: Message::EnemyDied(
                    EnemyDiedPayload { enemy_id: String::from_str(entity_id) },
                ),
            },
        );
    }
}

} // verus!
