//! Blueprints of the entities that behaviours create.

use crate::behaviours::commands::{Blueprint, BlueprintView};
use crate::constants::{
    BACKGROUND_LAYER, BULLET_LAYER, ENEMY_BULLET_DISPLAY_CHAR, ENEMY_DISPLAY_CHAR,
    STAR_DISPLAY_CHAR, UI_LAYER,
};
use crate::coords::Position;
use crate::layers::base_layer;
use crate::prefabs::BulletType;
use crate::text::{push_decimal, spec_decimal};
use vstd::prelude::*;

verus! {

/// Glyph of a bullet that the player's behaviour fires.
pub const PLAYER_SHOT_DISPLAY_CHAR: char = '.';

/// The glyph of a behaviour-driven bullet of the given side.
pub open spec fn spec_shot_display_char(bullet_type: BulletType) -> char {
    match bullet_type {
        BulletType::Player => PLAYER_SHOT_DISPLAY_CHAR,
        BulletType::Enemy => ENEMY_BULLET_DISPLAY_CHAR,
    }
}

/// The bullet that `make_bullet` describes.
pub open spec fn spec_make_bullet(
    coords: Position,
    bullet_type: BulletType,
    travel_direction: Position,
) -> BlueprintView {
    BlueprintView::Bullet {
        coords,
        bullet_type,
        travel_direction,
        display: spec_shot_display_char(bullet_type),
        layer: BULLET_LAYER,
    }
}

/// A bullet of the given side at `coords` that flies along
/// `travel_direction`.
pub fn make_bullet(
    coords: Position,
    bullet_type: BulletType,
    travel_direction: Position,
) -> (blueprint: Blueprint)
    ensures
        blueprint@ == spec_make_bullet(coords, bullet_type, travel_direction),
{
    let display = match bullet_type {
        BulletType::Player => PLAYER_SHOT_DISPLAY_CHAR,
        BulletType::Enemy => ENEMY_BULLET_DISPLAY_CHAR,
    };
    Blueprint::Bullet { coords, bullet_type, travel_direction, display, layer: BULLET_LAYER }
}

/// The enemy that `make_enemy` describes.
pub open spec fn spec_make_enemy(id: Seq<char>, coords: Position) -> BlueprintView {
    BlueprintView::Enemy { id, coords, display: ENEMY_DISPLAY_CHAR, layer: 0 }
}

/// An enemy with the identity `id` at `coords`, drawn on the base layer.
pub fn make_enemy(id: String, coords: Position) -> (blueprint: Blueprint)
    ensures
        blueprint@ == spec_make_enemy(id@, coords),
{
    Blueprint::Enemy { id, coords, display: ENEMY_DISPLAY_CHAR, layer: base_layer() }
}

/// The line of text that `make_text` describes.
pub open spec fn spec_make_text(coords: Position, id: Seq<char>, text: Seq<char>) -> BlueprintView {
    BlueprintView::Text { id, coords, text }
}

/// A line of text with the identity `id` that starts at `coords`.
pub fn make_text(coords: Position, id: &str, text: &str) -> (blueprint: Blueprint)
    ensures
        blueprint@ == spec_make_text(coords, id@, text@),
{
    Blueprint::Text { id: String::from_str(id), coords, text: String::from_str(text) }
}

/// The star that `make_star` describes.
pub open spec fn spec_make_star(coords: Position) -> BlueprintView {
    BlueprintView::Star { coords, display: STAR_DISPLAY_CHAR, layer: BACKGROUND_LAYER }
}

/// A star at `coords`, drawn in the background.
pub fn make_star(coords: Position) -> (blueprint: Blueprint)
    ensures
        blueprint@ == spec_make_star(coords),
{
    Blueprint::Star { coords, display: STAR_DISPLAY_CHAR, layer: BACKGROUND_LAYER }
}

/// The identity of one character of a line of text: the identity of the
/// line, the character and its index, joined by hyphens.
pub open spec fn spec_char_entity_id(
    text_entity_id: Seq<char>,
    character: char,
    index: nat,
) -> Seq<char> {
    text_entity_id.push('-').push(character).push('-') + spec_decimal(index)
}

/// The identity of the entity that shows `character` at `index` of the line
/// of text `text_entity_id`.
pub fn get_char_entity_id(text_entity_id: &str, character: char, index: usize) -> (id: String)
    ensures
        id@ == spec_char_entity_id(text_entity_id@, character, index as nat),
{
    let mut id = String::from_str(text_entity_id);
    id.push('-');
    id.push(character);
    id.push('-');
    push_decimal(&mut id, index as u64);
    id
}

/// The character entity that `make_char_entity` describes.
pub open spec fn spec_make_char_entity(
    coords: Position,
    text_entity_id: Seq<char>,
    character: char,
    index: nat,
) -> BlueprintView {
    BlueprintView::TextChar {
        id: spec_char_entity_id(text_entity_id, character, index),
        coords,
        character,
        layer: UI_LAYER,
    }
}

/// The entity that shows `character` at `index` of the line of text
/// `text_entity_id`, drawn on the layer of the HUD.
pub fn make_char_entity(
    coords: Position,
    text_entity_id: &str,
    character: char,
    index: usize,
) -> (blueprint: Blueprint)
    ensures
        blueprint@ == spec_make_char_entity(coords, text_entity_id@, character, index as nat),
{
    Blueprint::TextChar {
        id: get_char_entity_id(text_entity_id, character, index),
        coords,
        character,
        layer: UI_LAYER,
    }
}

} // verus!
