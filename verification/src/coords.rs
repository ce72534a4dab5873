//! Grid positions and unit steps.
//!
//! A [`Position`] is a cell of the terminal grid. The unit steps and the sum of
//! two positions come from the engine's `IntCoords2d`, so that the library and
//! the engine agree on which way is up.

use thomas::IntCoords2d;
use vstd::prelude::*;

verus! {

/// A cell of the grid, or a displacement between two cells.
#[derive(Clone, Copy, Debug, PartialEq, Eq, Structural)]
pub struct Position {
    pub x: i64,
    pub y: i64,
}

/// The displacement that changes nothing.
pub open spec fn spec_zero() -> Position {
    Position { x: 0, y: 0 }
}

/// One cell towards smaller `x`.
pub open spec fn spec_left() -> Position {
    Position { x: -1i64, y: 0 }
}

/// One cell towards larger `x`.
pub open spec fn spec_right() -> Position {
    Position { x: 1, y: 0 }
}

/// One cell towards larger `y`.
pub open spec fn spec_up() -> Position {
    Position { x: 0, y: 1 }
}

/// One cell towards smaller `y`.
pub open spec fn spec_down() -> Position {
    Position { x: 0, y: -1i64 }
}

/// Whether `a + b` stays inside `i64` in both coordinates.
pub open spec fn can_translate(a: Position, b: Position) -> bool {
    &&& i64::MIN <= a.x + b.x <= i64::MAX
    &&& i64::MIN <= a.y + b.y <= i64::MAX
}

/// The sum of two positions, coordinate by coordinate.
pub open spec fn spec_translate(a: Position, b: Position) -> Position
    recommends
        can_translate(a, b),
{
    Position { x: (a.x + b.x) as i64, y: (a.y + b.y) as i64 }
}

/// Calls `IntCoords2d::zero` and reads its two coordinates: both are 0.
#[verifier::external_body]
pub(crate) fn engine_zero() -> (p: Position)
    ensures
        p == spec_zero(),
{
    let c = IntCoords2d::zero();
    Position { x: c.x(), y: c.y() }
}

/// Calls `IntCoords2d::left` and reads its two coordinates: (-1, 0).
#[verifier::external_body]
pub(crate) fn engine_left() -> (p: Position)
    ensures
        p == spec_left(),
{
    let c = IntCoords2d::left();
    Position { x: c.x(), y: c.y() }
}

/// Calls `IntCoords2d::right` and reads its two coordinates: (1, 0).
#[verifier::external_body]
pub(crate) fn engine_right() -> (p: Position)
    ensures
        p == spec_right(),
{
    let c = IntCoords2d::right();
    Position { x: c.x(), y: c.y() }
}

/// Calls `IntCoords2d::up` and reads its two coordinates: (0, 1).
#[verifier::external_body]
pub(crate) fn engine_up() -> (p: Position)
    ensures
        p == spec_up(),
{
    let c = IntCoords2d::up();
    Position { x: c.x(), y: c.y() }
}

/// Calls `IntCoords2d::down` and reads its two coordinates: (0, -1).
#[verifier::external_body]
pub(crate) fn engine_down() -> (p: Position)
    ensures
        p == spec_down(),
{
    let c = IntCoords2d::down();
    Position { x: c.x(), y: c.y() }
}

/// Adds two `IntCoords2d` with the engine's `+`, which adds the two `x` and the
/// two `y`. The engine's addition is plain `i64` addition, so sums that leave
/// `i64` are kept out.
#[verifier::external_body]
pub(crate) fn engine_add(a: Position, b: Position) -> (p: Position)
    requires
        can_translate(a, b),
    ensures
        p == spec_translate(a, b),
{
    let c = IntCoords2d::new(a.x, a.y) + IntCoords2d::new(b.x, b.y);
    Position { x: c.x(), y: c.y() }
}

impl Position {
    pub fn new(x: i64, y: i64) -> (p: Position)
        ensures
            p == (Position { x, y }),
    {
        Position { x, y }
    }

    pub fn zero() -> (p: Position)
        ensures
            p == spec_zero(),
    {
        engine_zero()
    }

    pub fn left() -> (p: Position)
        ensures
            p == spec_left(),
    {
        engine_left()
    }

    pub fn right() -> (p: Position)
        ensures
            p == spec_right(),
    {
        engine_right()
    }

    pub fn up() -> (p: Position)
        ensures
            p == spec_up(),
    {
        engine_up()
    }

    pub fn down() -> (p: Position)
        ensures
            p == spec_down(),
    {
        engine_down()
    }

    /// Whether `self + delta` can be formed without leaving `i64`.
    pub fn fits(&self, delta: &Position) -> (ok: bool)
        ensures
            ok == can_translate(*self, *delta),
    {
        self.x.checked_add(delta.x).is_some() && self.y.checked_add(delta.y).is_some()
    }

    /// The position `delta` away from `self`.
    pub fn translate(&self, delta: &Position) -> (p: Position)
        requires
            can_translate(*self, *delta),
        ensures
            p == spec_translate(*self, *delta),
    {
        engine_add(*self, *delta)
    }
}

} // verus!
