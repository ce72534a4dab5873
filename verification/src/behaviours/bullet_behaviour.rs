//! A bullet in flight.
//!
//! A bullet flies until it leaves the screen or hits an entity of the other
//! side. Either ends it: it queues its own destruction and never flies again.

use crate::behaviours::commands::{Command, CommandQueue, CommandView};
use crate::behaviours::messages::{BulletHitPayload, Message, MessageView};
use crate::constants::SCREEN_HEIGHT;
use crate::cooldown::{has_elapsed, spec_has_elapsed};
use crate::coords::{can_translate, spec_translate, Position};
use crate::layers::{base_layer, engine_layer_is_with};
use crate::prefabs::BulletType;
use thomas::Timer;
use vstd::prelude::*;

verus! {

/// Time between two steps of a bullet.
pub const MOVE_WAIT_TIME_MILLIS: u128 = 50;

/// The side of a bullet, its unit step and the stopwatch that paces it.
pub struct BulletBehaviour {
    pub typ: BulletType,
    pub travel_direction: Position,
    pub move_timer: Timer,
}

/// An entity that overlaps a bullet, as the bullet needs to see it.
#[derive(Debug)]
pub struct Overlap {
    pub entity_id: String,
    /// The draw-order layer of the entity, if it is drawn at all.
    pub render_layer: Option<i32>,
    /// Whether the entity fights as the player does.
    pub has_player_combat: bool,
    /// Whether the entity fights as an enemy does.
    pub has_enemy_combat: bool,
}

/// An overlap with the identity as a sequence of characters.
pub struct OverlapView {
    pub entity_id: Seq<char>,
    pub render_layer: Option<i32>,
    pub has_player_combat: bool,
    pub has_enemy_combat: bool,
}

impl View for Overlap {
    type V = OverlapView;

    open spec fn view(&self) -> OverlapView {
        OverlapView {
            entity_id: self.entity_id@,
            render_layer: self.render_layer,
            has_player_combat: self.has_player_combat,
            has_enemy_combat: self.has_enemy_combat,
        }
    }
}

/// The overlaps, each with its identity as a sequence of characters.
pub open spec fn overlap_views(overlaps: Seq<Overlap>) -> Seq<OverlapView> {
    overlaps.map_values(|overlap: Overlap| overlap@)
}

/// Whether a bullet of the side `typ` hits the overlapping entity: the entity
/// is drawn on the base layer and fights for the other side.
pub open spec fn spec_is_hit(typ: BulletType, overlap: OverlapView) -> bool {
    &&& overlap.render_layer == Some(0i32)
    &&& ((overlap.has_player_combat && typ == BulletType::Enemy) || (overlap.has_enemy_combat
        && typ == BulletType::Player))
}

/// The two commands of a hit: the victim is told, and the bullet goes.
pub open spec fn spec_hit(entity_id: Seq<char>, typ: BulletType, victim: Seq<char>) -> Seq<
    CommandView,
> {
    seq![
        CommandView::SendMessage { entity_id: victim, message: MessageView::BulletHit(typ) },
        CommandView::DestroyEntity(entity_id),
    ]
}

/// The commands of a bullet that overlaps `overlaps`: the first of them that
/// it hits is its one victim, and a bullet that hits nothing does nothing. A
/// bullet that has hit something cannot hit a second target.
pub open spec fn spec_hit_commands(
    entity_id: Seq<char>,
    typ: BulletType,
    overlaps: Seq<OverlapView>,
) -> Seq<CommandView>
    decreases overlaps.len(),
{
    if overlaps.len() == 0 {
        Seq::empty()
    } else if spec_is_hit(typ, overlaps.first()) {
        spec_hit(entity_id, typ, overlaps.first().entity_id)
    } else {
        spec_hit_commands(entity_id, typ, overlaps.drop_first())
    }
}

/// The victim of a bullet is the first overlap that it hits: nothing before
/// it is a hit. Without a hit among the overlaps there is no command.
pub proof fn lemma_first_hit_is_the_victim(
    entity_id: Seq<char>,
    typ: BulletType,
    overlaps: Seq<OverlapView>,
    first_hit: int,
)
    requires
        0 <= first_hit <= overlaps.len(),
        forall|i: int| 0 <= i < first_hit ==> !spec_is_hit(typ, #[trigger] overlaps[i]),
        first_hit < overlaps.len() ==> spec_is_hit(typ, overlaps[first_hit]),
    ensures
        spec_hit_commands(entity_id, typ, overlaps) == if first_hit < overlaps.len() {
            spec_hit(entity_id, typ, overlaps[first_hit].entity_id)
        } else {
            Seq::empty()
        },
    decreases overlaps.len(),
{
    if overlaps.len() > 0 && first_hit > 0 {
        assert(!spec_is_hit(typ, overlaps[0]));
        let rest = overlaps.drop_first();
        assert forall|i: int| 0 <= i < first_hit - 1 implies !spec_is_hit(
            typ,
            #[trigger] rest[i],
        ) by {
            assert(rest[i] == overlaps[i + 1]);
        }
        lemma_first_hit_is_the_victim(entity_id, typ, rest, first_hit - 1);
    }
}

/// A bullet is off the screen when its row is above the first or below the
/// last row.
pub open spec fn spec_is_off_screen(coords: Position) -> bool {
    coords.y > SCREEN_HEIGHT || coords.y < 0
}

/// The command with which a bullet at `coords` leaves the game, if it is off
/// the screen.
pub open spec fn spec_cull(entity_id: Seq<char>, coords: Position) -> Seq<CommandView> {
    if spec_is_off_screen(coords) {
        seq![CommandView::DestroyEntity(entity_id)]
    } else {
        Seq::empty()
    }
}

/// Where a bullet is after a frame in which its stopwatch read
/// `elapsed_millis`.
pub open spec fn spec_flown(coords: Position, direction: Position, elapsed_millis: u128) -> Position {
    if spec_has_elapsed(elapsed_millis, MOVE_WAIT_TIME_MILLIS) {
        spec_translate(coords, direction)
    } else {
        coords
    }
}

impl BulletBehaviour {
    /// A bullet of the side `typ` that flies along `travel_direction`.
    pub fn new(typ: BulletType, travel_direction: Position) -> (behaviour: BulletBehaviour)
        ensures
            behaviour.typ == typ,
            behaviour.travel_direction == travel_direction,
    {
        BulletBehaviour { typ, travel_direction, move_timer: Timer::new() }
    }

    /// Starts the cooldown of the first step.
    pub fn init(&mut self)
        ensures
            final(self).typ == old(self).typ,
            final(self).travel_direction == old(self).travel_direction,
    {
        self.move_timer.start();
    }

    /// Whether this bullet hits the overlapping entity.
    pub fn is_hit(&self, overlap: &Overlap) -> (hit: bool)
        ensures
            hit == spec_is_hit(self.typ, overlap@),
    {
        let on_base_layer = match overlap.render_layer {
            Some(layer) => engine_layer_is_with(layer, base_layer()),
            None => false,
        };
        let other_side = match self.typ {
            BulletType::Enemy => overlap.has_player_combat,
            BulletType::Player => overlap.has_enemy_combat,
        };
        on_base_layer && other_side
    }

    /// Settles the overlaps of a frame: the first entity of the other side
    /// that the bullet overlaps is told that it was hit, and the bullet is
    /// queued for destruction, once. Whatever else it overlaps is spared.
    pub fn handle_collisions(
        &self,
        entity_id: &str,
        overlaps: &Vec<Overlap>,
        commands: &mut CommandQueue,
    )
        ensures
            final(commands)@ == old(commands)@ + spec_hit_commands(
                entity_id@,
                self.typ,
                overlap_views(overlaps@),
            ),
    {
        let mut i: usize = 0;
        while i < overlaps.len()
            invariant
                i <= overlaps.len(),
                commands@ == old(commands)@,
                forall|j: int|
                    0 <= j < i ==> !spec_is_hit(self.typ, #[trigger] overlap_views(overlaps@)[j]),
            decreases overlaps.len() - i,
        {
            if self.is_hit(&overlaps[i]) {
                proof {
                    lemma_first_hit_is_the_victim(
                        entity_id@,
                        self.typ,
                        overlap_views(overlaps@),
                        i as int,
                    );
                }
                commands.issue(
                    Command::SendMessage {
                        entity_id: overlaps[i].entity_id.clone(),
                        message: Message::BulletHit(BulletHitPayload { bullet_type: self.typ }),
                    },
                );
                commands.issue(Command::DestroyEntity(String::from_str(entity_id)));
                assert(commands@ =~= old(commands)@ + spec_hit(
                    entity_id@,
                    self.typ,
                    overlaps@[i as int]@.entity_id,
                ));
                return ;
            }
            i += 1;
        }
        proof {
            lemma_first_hit_is_the_victim(
                entity_id@,
                self.typ,
                overlap_views(overlaps@),
                overlaps@.len() as int,
            );
        }
        assert(commands@ =~= old(commands)@ + Seq::<CommandView>::empty());
    }

    /// Where the bullet is after a frame, given its stopwatch reading: one
    /// step further once the cooldown has expired, and where it was before
    /// that.
    pub fn flown(coords: Position, direction: Position, elapsed_millis: u128) -> (moved: Position)
        requires
            spec_has_elapsed(elapsed_millis, MOVE_WAIT_TIME_MILLIS) ==> can_translate(
                coords,
                direction,
            ),
        ensures
            moved == spec_flown(coords, direction, elapsed_millis),
    {
        if has_elapsed(elapsed_millis, MOVE_WAIT_TIME_MILLIS) {
            coords.translate(&direction)
        } else {
            coords
        }
    }

    /// One frame: the bullet takes a step if its cooldown has expired, leaves
    /// the game if that took it off the screen, and settles its overlaps.
    pub fn update(
        &mut self,
        entity_id: &str,
        coords: &mut Position,
        overlaps: &Vec<Overlap>,
        commands: &mut CommandQueue,
    )
        requires
            can_translate(*old(coords), old(self).travel_direction),
        ensures
            final(self).typ == old(self).typ,
            final(self).travel_direction == old(self).travel_direction,
            exists|elapsed_millis: u128|
                *final(coords) == spec_flown(
                    *old(coords),
                    old(self).travel_direction,
                    elapsed_millis,
                ),
            final(commands)@ == old(commands)@ + spec_cull(entity_id@, *final(coords))
                + spec_hit_commands(entity_id@, old(self).typ, overlap_views(overlaps@)),
    {
        let elapsed_millis: u128 = self.move_timer.elapsed_millis();
        *coords = Self::flown(*coords, self.travel_direction, elapsed_millis);
        if has_elapsed(elapsed_millis, MOVE_WAIT_TIME_MILLIS) {
            self.move_timer.restart();
        }
        if coords.y > SCREEN_HEIGHT as i64 || coords.y < 0 {
            commands.issue(Command::DestroyEntity(String::from_str(entity_id)));
        }
        self.handle_collisions(entity_id, overlaps, commands);
    }
}

} // verus!
