//! Reading a command: digits for coordinates and a short token for the action.

use vstd::prelude::*;
use crate::entities::Action;

verus! {

/// ASCII codes of the characters a command is read from.
pub const ZERO: u8 = 0x30;
pub const NINE: u8 = 0x39;
pub const KEY_INCREASE: u8 = 0x69;
pub const KEY_SQUARE: u8 = 0x73;
pub const KEY_UP: u8 = 0x75;
pub const KEY_RIGHT: u8 = 0x72;
pub const KEY_DOWN: u8 = 0x64;
pub const KEY_LEFT: u8 = 0x6c;

/// The digit that the byte `b` spells, if it spells one.
pub open spec fn digit_of(b: u8) -> Option<u8> {
    if ZERO <= b <= NINE {
        Some((b - ZERO) as u8)
    } else {
        None
    }
}

/// The action that a trimmed token names: the empty token spawns; `i`
/// increases, `s` squares, and `u`, `r`, `d`, `l` move.
pub open spec fn action_of(token: Seq<u8>) -> Option<Action> {
    if token.len() == 0 {
        Some(Action::Spawn)
    } else if token.len() != 1 {
        None
    } else if token[0] == KEY_INCREASE {
        Some(Action::Increase)
    } else if token[0] == KEY_SQUARE {
        Some(Action::Square)
    } else if token[0] == KEY_UP {
        Some(Action::Up)
    } else if token[0] == KEY_RIGHT {
        Some(Action::Right)
    } else if token[0] == KEY_DOWN {
        Some(Action::Down)
    } else if token[0] == KEY_LEFT {
        Some(Action::Left)
    } else {
        None
    }
}

/// The value of the decimal digit `b`, or `None` for any other byte.
pub fn read_digit(b: u8) -> (r: Option<u8>)
    ensures
        r == digit_of(b),
{
    if ZERO <= b && b <= NINE {
        Some(b - ZERO)
    } else {
        None
    }
}

/// The action that the trimmed token names, or `None` for an unknown token.
pub fn parse_action(token: &[u8]) -> (r: Option<Action>)
    ensures
        r == action_of(token@),
{
    if token.len() == 0 {
        return Some(Action::Spawn);
    }
    if token.len() != 1 {
        return None;
    }
    let b = token[0];
    if b == KEY_INCREASE {
        Some(Action::Increase)
    } else if b == KEY_SQUARE {
        Some(Action::Square)
    } else if b == KEY_UP {
        Some(Action::Up)
    } else if b == KEY_RIGHT {
        Some(Action::Right)
    } else if b == KEY_DOWN {
        Some(Action::Down)
    } else if b == KEY_LEFT {
        Some(Action::Left)
    } else {
        None
    }
}

} // verus!
