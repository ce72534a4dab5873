//! Draw-order layers, as plain numbers.
//!
//! The engine orders what it draws by `Layer`, a wrapped `i32`. The library
//! keeps the number and asks the engine for the named layers and for the
//! neighbours of a layer.

use thomas::Layer;
use vstd::prelude::*;

verus! {

/// Reads `Layer::base()`, the layer everything is ordered around: 0.
#[verifier::external_body]
pub(crate) fn engine_base_layer() -> (value: i32)
    ensures
        value == 0,
{
    Layer::base().value()
}

/// Reads `Layer::furthest_background()`, the lowest layer there is:
/// `i32::MIN`.
#[verifier::external_body]
pub(crate) fn engine_furthest_background_layer() -> (value: i32)
    ensures
        value == i32::MIN,
{
    Layer::furthest_background().value()
}

/// Reads `Layer::above` of the layer `value`: one more. The engine adds with
/// plain `i32` addition, so the highest layer is kept out.
#[verifier::external_body]
pub(crate) fn engine_layer_above(value: i32) -> (above: i32)
    requires
        value < i32::MAX,
    ensures
        above == value + 1,
{
    Layer::above(&Layer(value)).value()
}

/// Reads `Layer::below` of the layer `value`: one less. The engine subtracts
/// with plain `i32` subtraction, so the lowest layer is kept out.
#[verifier::external_body]
pub(crate) fn engine_layer_below(value: i32) -> (below: i32)
    requires
        value > i32::MIN,
    ensures
        below == value - 1,
{
    Layer::below(&Layer(value)).value()
}

/// Asks `Layer::is_with` whether two layers are the same: they are when their
/// numbers are equal.
#[verifier::external_body]
pub(crate) fn engine_layer_is_with(value: i32, other: i32) -> (same: bool)
    ensures
        same == (value == other),
{
    Layer(value).is_with(&Layer(other))
}

/// The layer of the player, the enemies and everything else that is neither
/// in front nor behind.
pub fn base_layer() -> (value: i32)
    ensures
        value == 0,
{
    engine_base_layer()
}

/// The layer of bullets: just behind the base layer.
pub fn bullet_render_layer() -> (value: i32)
    ensures
        value == -1,
{
    engine_layer_below(engine_base_layer())
}

/// The layer of stars: just in front of the furthest background.
pub fn star_render_layer() -> (value: i32)
    ensures
        value == i32::MIN + 1,
{
    engine_layer_above(engine_furthest_background_layer())
}

} // verus!
