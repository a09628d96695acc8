//! The game's value types: players, counters, tiles and commands.

use vstd::prelude::*;

verus! {

/// Largest value a counter can carry.
pub const MAX_VALUE: u8 = 5;

/// One of the two sides of a match.
#[derive(Clone, Copy, Debug, PartialEq, Eq, Structural)]
pub enum Player {
    FirstPlayer,
    SecondPlayer,
}

impl Player {
    /// The opponent of `p`.
    pub open spec fn opponent(p: Player) -> Player {
        match p {
            Player::FirstPlayer => Player::SecondPlayer,
            Player::SecondPlayer => Player::FirstPlayer,
        }
    }

    /// The opponent of this player.
    pub fn other(&self) -> (r: Player)
        ensures
            r == Player::opponent(*self),
            r != *self,
    {
        match self {
            Player::FirstPlayer => Player::SecondPlayer,
            Player::SecondPlayer => Player::FirstPlayer,
        }
    }

    /// This player, as a fresh value.
    pub fn same(&self) -> (r: Player)
        ensures
            r == *self,
    {
        match self {
            Player::FirstPlayer => Player::FirstPlayer,
            Player::SecondPlayer => Player::SecondPlayer,
        }
    }
}

/// A numbered piece owned by one player.
#[derive(Clone, Copy, Debug, PartialEq, Eq, Structural)]
pub struct Counter {
    pub player: Player,
    pub value: u8,
}

impl Counter {
    /// A counter's value never leaves `0..=MAX_VALUE`.
    pub open spec fn wf(self) -> bool {
        self.value <= MAX_VALUE
    }
}

/// One grid cell: at most one counter and at most one fortification,
/// held independently of each other.
#[derive(Clone, Copy, Debug, PartialEq, Eq, Structural)]
pub struct Tile {
    pub counter: Option<Counter>,
    pub fortification: Option<Player>,
}

impl Tile {
    pub open spec fn wf(self) -> bool {
        match self.counter {
            Some(c) => c.wf(),
            None => true,
        }
    }

    pub open spec fn empty_spec() -> Tile {
        Tile { counter: None, fortification: None }
    }

    /// A tile with neither a counter nor a fortification.
    pub fn empty() -> (r: Tile)
        ensures
            r == Tile::empty_spec(),
    {
        Tile { counter: None, fortification: None }
    }
}

/// A cell address, 1-based: `x` is the column, `y` the row.
#[derive(Clone, Copy, Debug, PartialEq, Eq, Structural)]
pub struct Point {
    pub x: u8,
    pub y: u8,
}

/// What a player does at a point: one of four moves, or spawn, square, increase.
#[derive(Clone, Copy, Debug, PartialEq, Eq, Structural)]
pub enum Action {
    Up,
    Right,
    Down,
    Left,
    Spawn,
    Square,
    Increase,
}

/// A complete command: an action at a point.
#[derive(Clone, Copy, Debug, PartialEq, Eq, Structural)]
pub struct Turn {
    pub point: Point,
    pub action: Action,
}

/// Why a command was refused. A refused command changes nothing.
#[derive(Clone, Copy, Debug, PartialEq, Eq, Structural)]
pub enum Rejection {
    InvalidCoordinate,
    OccupiedTarget,
    WrongSpawnRow,
    NotOwner,
    NoCounter,
    OutOfGrowthZone,
    ValueAtMax,
    InsufficientValue,
    OutOfBounds,
    FriendlyOccupied,
    InsufficientPower,
}

impl Rejection {
    /// A short message for the player whose command was refused.
    pub fn message(&self) -> &'static str {
        match self {
            Rejection::InvalidCoordinate => "Wrong coordinate!",
            Rejection::OccupiedTarget => "Can't spawn there!",
            Rejection::WrongSpawnRow => "Can't spawn there!",
            Rejection::NotOwner => "That's not your number!",
            Rejection::NoCounter => "No number there!",
            Rejection::OutOfGrowthZone => "Can't do that outside the growth zone!",
            Rejection::ValueAtMax => "Can't increase over limit!",
            Rejection::InsufficientValue => "The number is too small!",
            Rejection::OutOfBounds => "Can't move there!",
            Rejection::FriendlyOccupied => "Can't move there!",
            Rejection::InsufficientPower => "Not enough power!",
        }
    }
}

} // verus!
