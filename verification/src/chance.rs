//! Dice. The only source of randomness in the game.

use rand::Rng;
use vstd::prelude::*;

verus! {

/// Draws from `rand::thread_rng()` with `Rng::gen_range` on the inclusive
/// range `low..=high`. The draw lies in the range; which number it is depends
/// on the generator. `gen_range` panics on an empty range, which `low <= high`
/// keeps out.
#[verifier::external_body]
pub(crate) fn random_in_range(low: u128, high: u128) -> (drawn: u128)
    requires
        low <= high,
    ensures
        low <= drawn <= high,
{
    rand::thread_rng().gen_range(low..=high)
}

/// A uniform percentage: a number from 1 to 100.
pub fn roll_percent() -> (roll: u8)
    ensures
        1 <= roll <= 100,
{
    let drawn: u128 = random_in_range(1, 100);
    drawn as u8
}

/// A fair coin: 0 or 1.
pub fn flip_coin() -> (side: u8)
    ensures
        side <= 1,
{
    let drawn: u128 = random_in_range(0, 1);
    drawn as u8
}

} // verus!
