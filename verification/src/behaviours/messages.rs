//! The messages that behaviours send each other.
//!
//! A message is addressed to one entity and delivered on or after the next
//! frame. The set of messages is closed: a behaviour matches on the variants
//! it knows and ignores the others.

use crate::coords::Position;
use crate::prefabs::BulletType;
use vstd::prelude::*;

verus! {

pub const MSG_BULLET_HIT: &'static str = "bullethit";

pub const MSG_ENEMY_DIED: &'static str = "enemydied";

pub const MSG_PLAYER_KILLED_ENEMY: &'static str = "enemydiedbyplayer";

pub const MSG_RESET: &'static str = "reset";

pub const MSG_CHANGE_TEXT: &'static str = "updatetxt";

pub const MSG_MOVE_ENEMY: &'static str = "moveenemy";

/// A bullet of the given side has hit the receiver.
#[derive(Clone, Copy, Debug, PartialEq, Eq, Structural)]
pub struct BulletHitPayload {
    pub bullet_type: BulletType,
}

/// The enemy with the given identity has been destroyed.
#[derive(Clone, Debug, PartialEq, Eq)]
pub struct EnemyDiedPayload {
    pub enemy_id: String,
}

/// The receiver shall show the given text.
#[derive(Clone, Debug, PartialEq, Eq)]
pub struct ChangeTextPayload {
    pub new_text: String,
}

/// The receiver shall move by the given displacement.
#[derive(Clone, Copy, Debug, PartialEq, Eq, Structural)]
pub struct MoveEnemyPayload {
    pub displacement: Position,
}

/// A message with its payload.
#[derive(Clone, Debug, PartialEq, Eq)]
pub enum Message {
    BulletHit(BulletHitPayload),
    EnemyDied(EnemyDiedPayload),
    PlayerKilledEnemy,
    Reset,
    ChangeText(ChangeTextPayload),
    MoveEnemy(MoveEnemyPayload),
}

/// What a message says, with strings as sequences of characters.
pub enum MessageView {
    BulletHit(BulletType),
    EnemyDied(Seq<char>),
    PlayerKilledEnemy,
    Reset,
    ChangeText(Seq<char>),
    MoveEnemy(Position),
}

impl View for Message {
    type V = MessageView;

    open spec fn view(&self) -> MessageView {
        match self {
            Message::BulletHit(payload) => MessageView::BulletHit(payload.bullet_type),
            Message::EnemyDied(payload) => MessageView::EnemyDied(payload.enemy_id@),
            Message::PlayerKilledEnemy => MessageView::PlayerKilledEnemy,
            Message::Reset => MessageView::Reset,
            Message::ChangeText(payload) => MessageView::ChangeText(payload.new_text@),
            Message::MoveEnemy(payload) => MessageView::MoveEnemy(payload.displacement),
        }
    }
}

impl Message {
    /// The name under which a message of this kind travels.
    pub open spec fn spec_type_tag(&self) -> Seq<char> {
        match self {
            Message::BulletHit(_) => MSG_BULLET_HIT@,
            Message::EnemyDied(_) => MSG_ENEMY_DIED@,
            Message::PlayerKilledEnemy => MSG_PLAYER_KILLED_ENEMY@,
            Message::Reset => MSG_RESET@,
            Message::ChangeText(_) => MSG_CHANGE_TEXT@,
            Message::MoveEnemy(_) => MSG_MOVE_ENEMY@,
        }
    }

    /// The name under which a message of this kind travels.
    pub fn type_tag(&self) -> (tag: &'static str)
        ensures
            tag@ == self.spec_type_tag(),
    {
        match self {
            Message::BulletHit(_) => MSG_BULLET_HIT,
            Message::EnemyDied(_) => MSG_ENEMY_DIED,
            Message::PlayerKilledEnemy => MSG_PLAYER_KILLED_ENEMY,
            Message::Reset => MSG_RESET,
            Message::ChangeText(_) => MSG_CHANGE_TEXT,
            Message::MoveEnemy(_) => MSG_MOVE_ENEMY,
        }
    }
}

} // verus!
