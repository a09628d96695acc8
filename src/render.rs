//! How tiles are shown: a counter of the first player as a plain digit, one
//! of the second player as a circled digit, a fortification as its owner's
//! number.

use vstd::prelude::*;
use crate::entities::{Counter, Player};

verus! {

/// Code point of the glyph for `c`: `0`..`5` for the first player, circled
/// digits (U+24EA for zero, U+2460 onward for one and up) for the second.
pub open spec fn counter_code(c: Counter) -> u32 {
    match c.player {
        Player::FirstPlayer => (0x30 + c.value) as u32,
        Player::SecondPlayer => if c.value == 0 {
            0x24EA
        } else {
            (0x2460 + c.value - 1) as u32
        },
    }
}

/// The character that shows the counter `c`.
pub fn counter_glyph(c: Counter) -> (r: char)
    requires
        c.wf(),
    ensures
        r as u32 == counter_code(c),
{
    match c.player {
        Player::FirstPlayer => match c.value {
            0 => '0',
            1 => '1',
            2 => '2',
            3 => '3',
            4 => '4',
            _ => '5',
        },
        Player::SecondPlayer => match c.value {
            0 => '\u{24EA}',
            1 => '\u{2460}',
            2 => '\u{2461}',
            3 => '\u{2462}',
            4 => '\u{2463}',
            _ => '\u{2464}',
        },
    }
}

/// The character that shows a fortification of `p`.
pub fn fortification_glyph(p: Player) -> (r: char)
    ensures
        r == (match p {
            Player::FirstPlayer => '1',
            Player::SecondPlayer => '2',
        }),
{
    match p {
        Player::FirstPlayer => '1',
        Player::SecondPlayer => '2',
    }
}

} // verus!
