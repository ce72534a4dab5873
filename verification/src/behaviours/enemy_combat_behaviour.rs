//! An enemy of the formation: its health, its gun and its next step.
//!
//! An enemy is alive until a bullet of the player hits it. From then on it is
//! dying: it queues its own destruction on every frame until the engine has
//! removed it, and nothing brings it back.

use crate::behaviours::commands::{Command, CommandQueue, CommandView};
use crate::behaviours::enemy_behaviour::spec_death_notice;
use crate::behaviours::messages::{EnemyDiedPayload, Message, MessageView};
use crate::behaviours::{ENEMY_SPAWNER_ID, GAME_MANAGER_ID};
use crate::chance::{random_in_range, roll_percent};
use crate::cooldown::{has_elapsed, spec_has_elapsed};
use crate::coords::{can_translate, spec_translate, spec_up, spec_zero, Position};
use crate::entities::{make_bullet, spec_make_bullet};
use crate::prefabs::BulletType;
use thomas::Timer;
use vstd::prelude::*;

verus! {

/// Chance, in percent, that a shoot roll fires.
pub const CHANCE_TO_SHOOT: u8 = 50;

/// Shortest time between two shoot rolls of an enemy.
pub const SHOOT_ROLL_MIN_WAIT_TIME_MILLIS: u128 = 2500;

/// Longest time between two shoot rolls of an enemy.
pub const SHOOT_ROLL_MAX_WAIT_TIME_MILLIS: u128 = 3500;

/// The state of an enemy.
pub struct EnemyCombatBehaviour {
    pub health: u32,
    pub shoot_wait_timer: Timer,
    /// Time between two shoot rolls of this enemy, drawn when it was made.
    pub shoot_roll_wait_time: u128,
    pub killed_by_player: bool,
    /// The step that the spawner has asked for and that is not taken yet.
    pub move_by: Position,
}

/// The health after `message` has arrived: a bullet of the player takes all
/// of it, and nothing else takes any.
pub open spec fn spec_health_after_message(health: u32, message: MessageView) -> u32 {
    match message {
        MessageView::BulletHit(BulletType::Player) => 0,
        _ => health,
    }
}

/// Whether the player is to blame after `message` has arrived.
pub open spec fn spec_blame_after_message(killed_by_player: bool, message: MessageView) -> bool {
    killed_by_player || message == MessageView::BulletHit(BulletType::Player)
}

/// The pending step after `message` has arrived.
pub open spec fn spec_step_after_message(move_by: Position, message: MessageView) -> Position {
    match message {
        MessageView::MoveEnemy(displacement) => displacement,
        _ => move_by,
    }
}

/// Whether an enemy with the waiting time `wait_millis` shoots in a frame in
/// which its stopwatch read `elapsed_millis` and its roll came up `roll`: the
/// cooldown must have expired and the roll must be within the chance.
pub open spec fn spec_fires(wait_millis: u128, elapsed_millis: u128, roll: u8) -> bool {
    spec_has_elapsed(elapsed_millis, wait_millis) && roll <= CHANCE_TO_SHOOT
}

/// The command with which a dying enemy leaves the game.
pub open spec fn spec_leave(entity_id: Seq<char>, health: u32) -> Seq<CommandView> {
    if health == 0 {
        seq![CommandView::DestroyEntity(entity_id)]
    } else {
        Seq::empty()
    }
}

/// The bullet an enemy at `coords` fires: it starts one cell up and flies up.
pub open spec fn spec_enemy_shot(coords: Position) -> CommandView {
    CommandView::AddEntity(
        spec_make_bullet(spec_translate(coords, spec_up()), BulletType::Enemy, spec_up()),
    )
}

/// The notice to the bookkeeper that the player has destroyed an enemy.
pub open spec fn spec_kill_notice() -> CommandView {
    CommandView::SendMessage {
        entity_id: GAME_MANAGER_ID@,
        message: MessageView::PlayerKilledEnemy,
    }
}

/// What an enemy says when it is destroyed: the spawner always hears of it,
/// the bookkeeper if the player is to blame.
pub open spec fn spec_last_words(entity_id: Seq<char>, killed_by_player: bool) -> Seq<CommandView> {
    if killed_by_player {
        seq![spec_death_notice(entity_id), spec_kill_notice()]
    } else {
        seq![spec_death_notice(entity_id)]
    }
}

impl EnemyCombatBehaviour {
    /// A healthy enemy with a freshly drawn time between its shoot rolls.
    pub fn new() -> (behaviour: EnemyCombatBehaviour)
        ensures
            behaviour.health == 1,
            !behaviour.killed_by_player,
            behaviour.move_by == spec_zero(),
            SHOOT_ROLL_MIN_WAIT_TIME_MILLIS <= behaviour.shoot_roll_wait_time
                <= SHOOT_ROLL_MAX_WAIT_TIME_MILLIS,
    {
        EnemyCombatBehaviour {
            health: 1,
            shoot_wait_timer: Timer::new(),
            shoot_roll_wait_time: random_in_range(
                SHOOT_ROLL_MIN_WAIT_TIME_MILLIS,
                SHOOT_ROLL_MAX_WAIT_TIME_MILLIS,
            ),
            killed_by_player: false,
            move_by: Position::zero(),
        }
    }

    /// Whether a roll of `roll` fires.
    pub fn roll_fires(roll: u8) -> (fires: bool)
        ensures
            fires == (roll <= CHANCE_TO_SHOOT),
    {
        roll <= CHANCE_TO_SHOOT
    }

    /// Rolls a percentage against the chance to shoot.
    pub fn should_shoot(&self) -> bool {
        Self::roll_fires(roll_percent())
    }

    /// Queues a bullet that starts one cell up from `coords` and flies up.
    pub fn shoot(&self, coords: Position, commands: &mut CommandQueue)
        requires
            can_translate(coords, spec_up()),
        ensures
            final(commands)@ == old(commands)@.push(spec_enemy_shot(coords)),
    {
        let up = Position::up();
        commands.issue(Command::AddEntity(make_bullet(coords.translate(&up), BulletType::Enemy, up)));
    }

    /// Starts the cooldown of the first shoot roll.
    pub fn init(&mut self)
        ensures
            final(self).health == old(self).health,
            final(self).shoot_roll_wait_time == old(self).shoot_roll_wait_time,
            final(self).killed_by_player == old(self).killed_by_player,
            final(self).move_by == old(self).move_by,
    {
        self.shoot_wait_timer.start();
    }

    /// One frame. A dying enemy queues its destruction. An enemy whose
    /// cooldown has expired rolls and perhaps shoots, and starts waiting
    /// again whatever the roll. Then the enemy takes the step that was asked
    /// of it, once.
    pub fn update(
        &mut self,
        entity_id: &str,
        coords: &mut Position,
        commands: &mut CommandQueue,
    ) -> (shot: bool)
        requires
            can_translate(*old(coords), spec_up()),
            can_translate(*old(coords), old(self).move_by),
        ensures
            final(self).health == old(self).health,
            final(self).killed_by_player == old(self).killed_by_player,
            final(self).shoot_roll_wait_time == old(self).shoot_roll_wait_time,
            final(self).move_by == spec_zero(),
            *final(coords) == spec_translate(*old(coords), old(self).move_by),
            final(commands)@ == old(commands)@ + spec_leave(entity_id@, old(self).health) + if shot {
                seq![spec_enemy_shot(*old(coords))]
            } else {
                Seq::empty()
            },
    {
        if self.health == 0 {
            commands.issue(Command::DestroyEntity(String::from_str(entity_id)));
        }
        let elapsed_millis: u128 = self.shoot_wait_timer.elapsed_millis();
        let shot = self.fire_after(*coords, elapsed_millis, commands);
        if has_elapsed(elapsed_millis, self.shoot_roll_wait_time) {
            self.shoot_wait_timer.restart();
        }
        assert(commands@ =~= old(commands)@ + spec_leave(entity_id@, old(self).health) + if shot {
            seq![spec_enemy_shot(*old(coords))]
        } else {
            Seq::empty()
        });
        if self.move_by != Position::zero() {
            *coords = coords.translate(&self.move_by);
            self.move_by = Position::zero();
        }
        shot
    }

    /// One frame of the gun, given the stopwatch reading. Before the enemy's
    /// cooldown has expired nothing is rolled and nothing is shot. Once it
    /// has, a percentage is rolled, and within the chance one bullet is
    /// queued.
    pub fn fire_after(
        &self,
        coords: Position,
        elapsed_millis: u128,
        commands: &mut CommandQueue,
    ) -> (shot: bool)
        requires
            spec_has_elapsed(elapsed_millis, self.shoot_roll_wait_time) ==> can_translate(
                coords,
                spec_up(),
            ),
        ensures
            exists|roll: u8|
                1 <= roll <= 100 && shot == #[trigger] spec_fires(
                    self.shoot_roll_wait_time,
                    elapsed_millis,
                    roll,
                ),
            !spec_has_elapsed(elapsed_millis, self.shoot_roll_wait_time) ==> !shot,
            final(commands)@ == if shot {
                old(commands)@.push(spec_enemy_shot(coords))
            } else {
                old(commands)@
            },
    {
        if has_elapsed(elapsed_millis, self.shoot_roll_wait_time) {
            let roll: u8 = roll_percent();
            if Self::roll_fires(roll) {
                self.shoot(coords, commands);
                assert(spec_fires(self.shoot_roll_wait_time, elapsed_millis, roll));
                true
            } else {
                assert(!spec_fires(self.shoot_roll_wait_time, elapsed_millis, roll));
                false
            }
        } else {
            assert(!spec_fires(self.shoot_roll_wait_time, elapsed_millis, 1));
            false
        }
    }

    /// Takes a message: a bullet of the player kills, a step from the spawner
    /// is noted for the next frame.
    pub fn on_message(&mut self, message: &Message)
        ensures
            final(self).health == spec_health_after_message(old(self).health, message@),
            final(self).killed_by_player == spec_blame_after_message(
                old(self).killed_by_player,
                message@,
            ),
            final(self).move_by == spec_step_after_message(old(self).move_by, message@),
            final(self).shoot_roll_wait_time == old(self).shoot_roll_wait_time,
            final(self).health <= old(self).health,
    {
        match message {
            Message::BulletHit(payload) => {
                match payload.bullet_type {
                    BulletType::Player => {
                        self.health = 0;
                        self.killed_by_player = true;
                    },
                    BulletType::Enemy => {},
                }
            },
            Message::MoveEnemy(payload) => {
                self.move_by = payload.displacement;
            },
            _ => {},
        }
    }

    /// Says the last words of the enemy: one notice to the spawner, and one
    /// to the bookkeeper if the player is to blame.
    pub fn on_destroy(&self, entity_id: &str, commands: &mut CommandQueue)
        ensures
            final(commands)@ == old(commands)@ + spec_last_words(entity_id@, self.killed_by_player),
    {
        commands.issue(
            Command::SendMessage {
                entity_id: String::from_str(ENEMY_SPAWNER_ID),
                message: Message::EnemyDied(
                    EnemyDiedPayload { enemy_id: String::from_str(entity_id) },
                ),
            },
        );
        if self.killed_by_player {
            commands.issue(
                Command::SendMessage {
                    entity_id: String::from_str(GAME_MANAGER_ID),
                    message: Message::PlayerKilledEnemy,
                },
            );
        }
    }
}

} // verus!
