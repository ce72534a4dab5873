//! What the collision detector reports, and how the game reads it.
//!
//! Each frame the engine reports the pairs of entities whose colliders
//! overlap, each body tagged with its collision layer. The rules of combat are
//! keyed by which layers are present in a pair.

use crate::constants::{
    ENEMY_BULLET_COLLISION_LAYER, ENEMY_COLLISION_LAYER, PLAYER_BULLET_COLLISION_LAYER,
    PLAYER_COLLISION_LAYER,
};
use vstd::prelude::*;

verus! {

/// One side of a collision: the entity and the layer of its collider.
#[derive(Clone, Copy, Debug, PartialEq, Eq, Structural)]
pub struct CollisionBody {
    pub entity: u64,
    pub layer: i32,
}

/// Two overlapping bodies.
#[derive(Clone, Copy, Debug, PartialEq, Eq, Structural)]
pub struct Collision {
    pub first: CollisionBody,
    pub second: CollisionBody,
}

impl Collision {
    /// Whether one of the two bodies is on `layer`.
    pub open spec fn spec_has_layer(self, layer: i32) -> bool {
        self.first.layer == layer || self.second.layer == layer
    }

    /// The entity of the first body that is on `layer` or on `other`.
    pub open spec fn spec_entity_on_either(self, layer: i32, other: i32) -> Option<u64> {
        if self.first.layer == layer || self.first.layer == other {
            Some(self.first.entity)
        } else if self.second.layer == layer || self.second.layer == other {
            Some(self.second.entity)
        } else {
            None
        }
    }

    /// The entity of the first body that is on `layer`.
    pub open spec fn spec_entity_on_layer(self, layer: i32) -> Option<u64> {
        self.spec_entity_on_either(layer, layer)
    }

    /// A player's bullet meets an enemy.
    pub open spec fn spec_is_enemy_hit(self) -> bool {
        self.spec_has_layer(PLAYER_BULLET_COLLISION_LAYER) && self.spec_has_layer(
            ENEMY_COLLISION_LAYER,
        )
    }

    /// An enemy's bullet meets the player.
    pub open spec fn spec_is_player_hit(self) -> bool {
        self.spec_has_layer(ENEMY_BULLET_COLLISION_LAYER) && self.spec_has_layer(
            PLAYER_COLLISION_LAYER,
        )
    }

    /// A bullet of each side meet. Such bullets pass through each other.
    pub open spec fn spec_is_bullet_crossing(self) -> bool {
        self.spec_has_layer(ENEMY_BULLET_COLLISION_LAYER) && self.spec_has_layer(
            PLAYER_BULLET_COLLISION_LAYER,
        )
    }

    /// A bullet has hit something that is not a bullet of the other side, and
    /// is spent.
    pub open spec fn spec_is_spent_bullet(self) -> bool {
        !self.spec_is_bullet_crossing() && (self.spec_has_layer(ENEMY_BULLET_COLLISION_LAYER)
            || self.spec_has_layer(PLAYER_BULLET_COLLISION_LAYER))
    }

    pub fn has_layer(&self, layer: i32) -> (found: bool)
        ensures
            found == self.spec_has_layer(layer),
    {
        self.first.layer == layer || self.second.layer == layer
    }

    /// The entity of the first body that is on `layer` or on `other`, if there
    /// is one.
    pub fn entity_on_either(&self, layer: i32, other: i32) -> (found: Option<u64>)
        ensures
            found == self.spec_entity_on_either(layer, other),
    {
        if self.first.layer == layer || self.first.layer == other {
            Some(self.first.entity)
        } else if self.second.layer == layer || self.second.layer == other {
            Some(self.second.entity)
        } else {
            None
        }
    }

    /// The entity of the first body that is on `layer`, if there is one.
    pub fn entity_on_layer(&self, layer: i32) -> (found: Option<u64>)
        ensures
            found == self.spec_entity_on_layer(layer),
    {
        self.entity_on_either(layer, layer)
    }

    pub fn is_enemy_hit(&self) -> (hit: bool)
        ensures
            hit == self.spec_is_enemy_hit(),
    {
        self.has_layer(PLAYER_BULLET_COLLISION_LAYER) && self.has_layer(ENEMY_COLLISION_LAYER)
    }

    pub fn is_player_hit(&self) -> (hit: bool)
        ensures
            hit == self.spec_is_player_hit(),
    {
        self.has_layer(ENEMY_BULLET_COLLISION_LAYER) && self.has_layer(PLAYER_COLLISION_LAYER)
    }

    pub fn is_bullet_crossing(&self) -> (crossing: bool)
        ensures
            crossing == self.spec_is_bullet_crossing(),
    {
        self.has_layer(ENEMY_BULLET_COLLISION_LAYER) && self.has_layer(
            PLAYER_BULLET_COLLISION_LAYER,
        )
    }

    pub fn is_spent_bullet(&self) -> (spent: bool)
        ensures
            spent == self.spec_is_spent_bullet(),
    {
        !self.is_bullet_crossing() && (self.has_layer(ENEMY_BULLET_COLLISION_LAYER)
            || self.has_layer(PLAYER_BULLET_COLLISION_LAYER))
    }
}

/// The collisions in which a player's bullet meets an enemy, in their order.
pub open spec fn enemy_hits(collisions: Seq<Collision>) -> Seq<Collision> {
    collisions.filter(|c: Collision| c.spec_is_enemy_hit())
}

/// The collisions in which an enemy's bullet meets the player, in their order.
pub open spec fn player_hits(collisions: Seq<Collision>) -> Seq<Collision> {
    collisions.filter(|c: Collision| c.spec_is_player_hit())
}

/// The collisions that spend a bullet, in their order.
pub open spec fn spent_bullets(collisions: Seq<Collision>) -> Seq<Collision> {
    collisions.filter(|c: Collision| c.spec_is_spent_bullet())
}

/// The collisions of a frame in which a player's bullet meets an enemy.
pub fn select_enemy_hits(collisions: &Vec<Collision>) -> (selected: Vec<Collision>)
    ensures
        selected@ == enemy_hits(collisions@),
{
    let mut selected: Vec<Collision> = Vec::new();
    let mut i: usize = 0;
    proof {
        reveal(Seq::filter);
    }
    while i < collisions.len()
        invariant
            i <= collisions.len(),
            selected@ == enemy_hits(collisions@.take(i as int)),
        decreases collisions.len() - i,
    {
        proof {
            collisions@.take(i as int).lemma_filter_push(
                collisions@[i as int],
                |c: Collision| c.spec_is_enemy_hit(),
            );
            assert(collisions@.take(i as int).push(collisions@[i as int]) =~= collisions@.take(
                i + 1,
            ));
        }
        if collisions[i].is_enemy_hit() {
            selected.push(collisions[i]);
        }
        i += 1;
    }
    assert(collisions@.take(collisions.len() as int) =~= collisions@);
    selected
}

/// The collisions of a frame in which an enemy's bullet meets the player.
pub fn select_player_hits(collisions: &Vec<Collision>) -> (selected: Vec<Collision>)
    ensures
        selected@ == player_hits(collisions@),
{
    let mut selected: Vec<Collision> = Vec::new();
    let mut i: usize = 0;
    proof {
        reveal(Seq::filter);
    }
    while i < collisions.len()
        invariant
            i <= collisions.len(),
            selected@ == player_hits(collisions@.take(i as int)),
        decreases collisions.len() - i,
    {
        proof {
            collisions@.take(i as int).lemma_filter_push(
                collisions@[i as int],
                |c: Collision| c.spec_is_player_hit(),
            );
            assert(collisions@.take(i as int).push(collisions@[i as int]) =~= collisions@.take(
                i + 1,
            ));
        }
        if collisions[i].is_player_hit() {
            selected.push(collisions[i]);
        }
        i += 1;
    }
    assert(collisions@.take(collisions.len() as int) =~= collisions@);
    selected
}

/// The collisions of a frame that spend a bullet.
pub fn select_spent_bullets(collisions: &Vec<Collision>) -> (selected: Vec<Collision>)
    ensures
        selected@ == spent_bullets(collisions@),
{
    let mut selected: Vec<Collision> = Vec::new();
    let mut i: usize = 0;
    proof {
        reveal(Seq::filter);
    }
    while i < collisions.len()
        invariant
            i <= collisions.len(),
            selected@ == spent_bullets(collisions@.take(i as int)),
        decreases collisions.len() - i,
    {
        proof {
            collisions@.take(i as int).lemma_filter_push(
                collisions@[i as int],
                |c: Collision| c.spec_is_spent_bullet(),
            );
            assert(collisions@.take(i as int).push(collisions@[i as int]) =~= collisions@.take(
                i + 1,
            ));
        }
        if collisions[i].is_spent_bullet() {
            selected.push(collisions[i]);
        }
        i += 1;
    }
    assert(collisions@.take(collisions.len() as int) =~= collisions@);
    selected
}

} // verus!
