//! The words on the HUD.

use crate::constants::PLAYER_DISPLAY_CHAR;
use vstd::prelude::*;

verus! {

/// `String::push` appends one character to the end of the string.
pub assume_specification[ String::push ](text: &mut String, character: char)
    ensures
        final(text)@ == old(text)@.push(character),
;

/// The number of bytes that a character takes in UTF-8.
pub open spec fn spec_utf8_len(character: char) -> nat {
    if (character as u32) < 0x80 {
        1
    } else if (character as u32) < 0x800 {
        2
    } else if (character as u32) < 0x10000 {
        3
    } else {
        4
    }
}

/// The number of bytes that a character takes in UTF-8.
pub fn utf8_len(character: char) -> (len: usize)
    ensures
        len == spec_utf8_len(character),
{
    let code: u32 = character as u32;
    if code < 0x80 {
        1
    } else if code < 0x800 {
        2
    } else if code < 0x10000 {
        3
    } else {
        4
    }
}

/// The byte at which the character `index` of `text` starts in UTF-8; for
/// `index == text.len()`, the number of bytes of the whole text.
pub open spec fn spec_byte_offset(text: Seq<char>, index: int) -> nat
    decreases index,
{
    if index <= 0 {
        0
    } else {
        spec_byte_offset(text, index - 1) + spec_utf8_len(text[index - 1])
    }
}

/// Byte offsets grow with the index, by at least one and at most four bytes
/// per character.
pub proof fn lemma_byte_offset_grows(text: Seq<char>, earlier: int, later: int)
    requires
        0 <= earlier <= later,
    ensures
        spec_byte_offset(text, earlier) + (later - earlier) <= spec_byte_offset(text, later),
        spec_byte_offset(text, later) <= spec_byte_offset(text, earlier) + 4 * (later - earlier),
    decreases later,
{
    if earlier < later {
        lemma_byte_offset_grows(text, earlier, later - 1);
    }
}

/// The character of a decimal digit.
pub open spec fn spec_digit(digit: nat) -> char {
    if digit == 0 {
        '0'
    } else if digit == 1 {
        '1'
    } else if digit == 2 {
        '2'
    } else if digit == 3 {
        '3'
    } else if digit == 4 {
        '4'
    } else if digit == 5 {
        '5'
    } else if digit == 6 {
        '6'
    } else if digit == 7 {
        '7'
    } else if digit == 8 {
        '8'
    } else {
        '9'
    }
}

/// A number in decimal: no sign, no leading zero, `0` for zero.
pub open spec fn spec_decimal(number: nat) -> Seq<char>
    decreases number,
{
    if number < 10 {
        seq![spec_digit(number)]
    } else {
        spec_decimal(number / 10).push(spec_digit(number % 10))
    }
}

/// The one-character string of a decimal digit.
fn digit_str(digit: u64) -> (text: &'static str)
    requires
        digit < 10,
    ensures
        text@ == seq![spec_digit(digit as nat)],
{
    proof {
        reveal_strlit("0");
        reveal_strlit("1");
        reveal_strlit("2");
        reveal_strlit("3");
        reveal_strlit("4");
        reveal_strlit("5");
        reveal_strlit("6");
        reveal_strlit("7");
        reveal_strlit("8");
        reveal_strlit("9");
    }
    let text = if digit == 0 {
        "0"
    } else if digit == 1 {
        "1"
    } else if digit == 2 {
        "2"
    } else if digit == 3 {
        "3"
    } else if digit == 4 {
        "4"
    } else if digit == 5 {
        "5"
    } else if digit == 6 {
        "6"
    } else if digit == 7 {
        "7"
    } else if digit == 8 {
        "8"
    } else {
        "9"
    };
    text
}

/// Appends `number` in decimal to `text`.
pub fn push_decimal(text: &mut String, number: u64)
    ensures
        final(text)@ == old(text)@ + spec_decimal(number as nat),
    decreases number,
{
    if number >= 10 {
        push_decimal(text, number / 10);
    }
    text.append(digit_str(number % 10));
}

/// `number` in decimal.
pub fn decimal_string(number: u64) -> (text: String)
    ensures
        text@ == spec_decimal(number as nat),
{
    let mut text = String::new();
    push_decimal(&mut text, number);
    text
}

/// One player glyph for each life.
pub open spec fn spec_life_glyphs(lives: u8) -> Seq<char> {
    Seq::new(lives as nat, |i: int| PLAYER_DISPLAY_CHAR)
}

/// The HUD line of the lives: the label and one player glyph per life.
pub open spec fn spec_lives_text(lives: u8) -> Seq<char> {
    "Lives: "@ + spec_life_glyphs(lives)
}

/// The HUD line of the score.
pub open spec fn spec_score_text(score: u64) -> Seq<char> {
    "Score: "@ + spec_decimal(score as nat)
}

/// The score that the HUD shows as the best: the best score on record, or the
/// running score once it is higher.
pub open spec fn spec_best_score(high_score: u64, score: u64) -> u64 {
    if score > high_score {
        score
    } else {
        high_score
    }
}

/// The HUD line of the best score.
pub open spec fn spec_high_score_text(high_score: u64, score: u64) -> Seq<char> {
    "Hi-score: "@ + spec_decimal(spec_best_score(high_score, score) as nat)
}

/// The HUD line of the lives.
pub fn lives_text(lives: u8) -> (text: String)
    ensures
        text@ == spec_lives_text(lives),
{
    let mut text = String::from_str("Lives: ");
    let mut shown: u8 = 0;
    proof {
        reveal_strlit("A");
    }
    while shown < lives
        invariant
            shown <= lives,
            text@ == "Lives: "@ + spec_life_glyphs(shown),
            "A"@ == seq![PLAYER_DISPLAY_CHAR],
        decreases lives - shown,
    {
        text.append("A");
        shown += 1;
    }
    text
}

/// The HUD line of the score.
pub fn score_text(score: u64) -> (text: String)
    ensures
        text@ == spec_score_text(score),
{
    let mut text = String::from_str("Score: ");
    push_decimal(&mut text, score);
    text
}

/// The HUD line of the best score.
pub fn high_score_text(high_score: u64, score: u64) -> (text: String)
    ensures
        text@ == spec_high_score_text(high_score, score),
{
    let best: u64 = if score > high_score {
        score
    } else {
        high_score
    };
    let mut text = String::from_str("Hi-score: ");
    push_decimal(&mut text, best);
    text
}

} // verus!
