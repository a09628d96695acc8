//! The rules of the game as spec functions over `GameView`, the abstract
//! state of a match: what each command does, or why it is refused.

use vstd::prelude::*;
use crate::entities::{Action, Counter, MAX_VALUE, Player, Point, Rejection, Tile, Turn};

verus! {

/// Columns of the grid.
pub const WIDTH: u8 = 6;

/// Rows of the grid.
pub const HEIGHT: u8 = 8;

/// Number of cells of the grid.
pub const CELLS: usize = 48;

/// Score at which a player wins the match.
pub const WIN_SCORE: u8 = 10;

/// Whether `(x, y)` lies on the grid, in 1-based coordinates.
pub open spec fn in_bounds(x: int, y: int) -> bool {
    1 <= x <= WIDTH && 1 <= y <= HEIGHT
}

/// Position of the cell `(x, y)` in the row-major sequence of tiles.
pub open spec fn cell(x: int, y: int) -> int {
    (y - 1) * (WIDTH as int) + (x - 1)
}

/// The only row on which `p` may spawn counters.
pub open spec fn home_row(p: Player) -> int {
    match p {
        Player::FirstPlayer => HEIGHT as int,
        Player::SecondPlayer => 1,
    }
}

/// The rows on which counters may be increased or squared.
pub open spec fn in_growth_zone(y: int) -> bool {
    3 <= y <= HEIGHT - 3
}

/// The cell one step from `p` in the direction of a move; `p` itself for
/// the actions that stay in place.
pub open spec fn step(p: Point, a: Action) -> (int, int) {
    match a {
        Action::Up => (p.x as int, p.y - 1),
        Action::Right => (p.x + 1, p.y as int),
        Action::Down => (p.x as int, p.y + 1),
        Action::Left => (p.x - 1, p.y as int),
        _ => (p.x as int, p.y as int),
    }
}

/// The value kept per player in a pair: first player's, then second's.
pub open spec fn of_player(pair: (nat, nat), p: Player) -> nat {
    match p {
        Player::FirstPlayer => pair.0,
        Player::SecondPlayer => pair.1,
    }
}

/// `pair` with the entry of `p` replaced by `n`.
pub open spec fn with_player(pair: (nat, nat), p: Player, n: nat) -> (nat, nat) {
    match p {
        Player::FirstPlayer => (n, pair.1),
        Player::SecondPlayer => (pair.0, n),
    }
}

/// The initial board: all tiles empty but the middle tile of row 3, which
/// the second player has fortified.
pub open spec fn initial_board() -> Seq<Tile> {
    Seq::new(
        CELLS as nat,
        |i: int|
            if i == cell((WIDTH / 2 + 1) as int, 3) {
                Tile { counter: None, fortification: Some(Player::SecondPlayer) }
            } else {
                Tile { counter: None, fortification: None }
            },
    )
}

/// The abstract state of a match.
pub ghost struct GameView {
    /// The player to move.
    pub player: Player,
    /// The tiles, row by row from row 1, each row from column 1.
    pub board: Seq<Tile>,
    /// Each player's score.
    pub score: (nat, nat),
    /// Each player's fortification count.
    pub forts: (nat, nat),
}

impl GameView {
    /// Every tile is there and every counter's value is in range.
    pub open spec fn wf(self) -> bool {
        &&& self.board.len() == CELLS
        &&& forall|i: int| 0 <= i < self.board.len() ==> (#[trigger] self.board[i]).wf()
    }

    pub open spec fn tile(self, x: int, y: int) -> Tile {
        self.board[cell(x, y)]
    }

    pub open spec fn with_tile(self, x: int, y: int, t: Tile) -> GameView {
        GameView { board: self.board.update(cell(x, y), t), ..self }
    }

    /// The state with the counter slot of `(x, y)` set to `c`.
    pub open spec fn with_counter(self, x: int, y: int, c: Option<Counter>) -> GameView {
        self.with_tile(x, y, Tile { counter: c, ..self.tile(x, y) })
    }

    /// Whether a player has reached the winning score.
    pub open spec fn is_over(self) -> bool {
        self.score.0 >= WIN_SCORE || self.score.1 >= WIN_SCORE
    }

    /// Spawn at `(x, y)`: a counter of value 0 on an empty slot of the
    /// mover's home row.
    pub open spec fn spawn_outcome(self, x: int, y: int) -> Result<GameView, Rejection> {
        if self.tile(x, y).counter is Some {
            Err(Rejection::OccupiedTarget)
        } else if y != home_row(self.player) {
            Err(Rejection::WrongSpawnRow)
        } else {
            Ok(self.with_counter(x, y, Some(Counter { player: self.player, value: 0 })))
        }
    }

    /// Increase at `(x, y)`: the mover's counter there gains one, inside
    /// the growth zone and up to `MAX_VALUE`.
    pub open spec fn increase_outcome(self, x: int, y: int) -> Result<GameView, Rejection> {
        match self.tile(x, y).counter {
            None => Err(Rejection::NoCounter),
            Some(c) => if c.player != self.player {
                Err(Rejection::NotOwner)
            } else if !in_growth_zone(y) {
                Err(Rejection::OutOfGrowthZone)
            } else if c.value >= MAX_VALUE {
                Err(Rejection::ValueAtMax)
            } else {
                Ok(self.with_counter(x, y, Some(Counter { player: c.player, value: (c.value + 1) as u8 })))
            },
        }
    }

    /// Square at `(x, y)`: the mover's counter there, inside the growth
    /// zone and of a value above the mover's fortification count, becomes
    /// a fortification of the mover, whose count goes up by one.
    pub open spec fn square_outcome(self, x: int, y: int) -> Result<GameView, Rejection> {
        match self.tile(x, y).counter {
            None => Err(Rejection::NoCounter),
            Some(c) => if c.player != self.player {
                Err(Rejection::NotOwner)
            } else if !in_growth_zone(y) {
                Err(Rejection::OutOfGrowthZone)
            } else if c.value <= of_player(self.forts, self.player) {
                Err(Rejection::InsufficientValue)
            } else {
                let v = self.with_tile(x, y, Tile { counter: None, fortification: Some(self.player) });
                Ok(GameView {
                    forts: with_player(self.forts, self.player, of_player(self.forts, self.player) + 1),
                    ..v
                })
            },
        }
    }

    /// The mover's counter at `(x, y)` attacks the opposing counter `d` at
    /// `(x1, y1)`. Its power is its value, squared when it stands on its own
    /// fortification. A win leaves the attacker at the source, its value
    /// reduced by 1 when squared and by `d`'s value otherwise, and a counter
    /// of value 0 of the mover's opponent at the destination.
    pub open spec fn attack_outcome(self, x: int, y: int, x1: int, y1: int, c: Counter, d: Counter) -> Result<GameView, Rejection> {
        let squared = self.tile(x, y).fortification == Some(c.player);
        let power: int = if squared { c.value * c.value } else { c.value as int };
        if power <= d.value {
            Err(Rejection::InsufficientPower)
        } else {
            let left: int = if squared { c.value - 1 } else { c.value - d.value };
            Ok(self.with_counter(x, y, Some(Counter { player: c.player, value: left as u8 }))
                .with_counter(x1, y1, Some(Counter { player: Player::opponent(c.player), value: 0 })))
        }
    }

    /// The mover's counter `c` leaves `(x, y)` for the counter-free cell
    /// `(x1, y1)`. On an opposing fortification a counter of value 0 breaches
    /// it: the destination is emptied, the mover's fortification count drops
    /// by one (staying at 0 if it is 0) and the opponent scores one. A counter
    /// of higher value loses one on entering it. Anywhere else it moves as it is.
    pub open spec fn advance_outcome(self, x: int, y: int, x1: int, y1: int, c: Counter) -> GameView {
        let cleared = self.with_counter(x, y, None);
        match self.tile(x1, y1).fortification {
            Some(f) if f != c.player => if c.value == 0 {
                let v = cleared.with_tile(x1, y1, Tile { counter: None, fortification: None });
                let own = of_player(self.forts, c.player);
                let rival = Player::opponent(c.player);
                GameView {
                    forts: with_player(self.forts, c.player, if own > 0 { (own - 1) as nat } else { 0 }),
                    score: with_player(self.score, rival, of_player(self.score, rival) + 1),
                    ..v
                }
            } else {
                cleared.with_counter(x1, y1, Some(Counter { player: c.player, value: (c.value - 1) as u8 }))
            },
            _ => cleared.with_counter(x1, y1, Some(c)),
        }
    }

    /// Move the mover's counter from `(x, y)` to `(x1, y1)`.
    pub open spec fn move_outcome(self, x: int, y: int, x1: int, y1: int) -> Result<GameView, Rejection> {
        match self.tile(x, y).counter {
            None => Err(Rejection::NoCounter),
            Some(c) => if c.player != self.player {
                Err(Rejection::NotOwner)
            } else if !in_bounds(x1, y1) {
                Err(Rejection::OutOfBounds)
            } else {
                match self.tile(x1, y1).counter {
                    Some(d) => if d.player == c.player {
                        Err(Rejection::FriendlyOccupied)
                    } else {
                        self.attack_outcome(x, y, x1, y1, c, d)
                    },
                    None => Ok(self.advance_outcome(x, y, x1, y1, c)),
                }
            },
        }
    }

    /// What a command of the player to move does: the new state, or why it
    /// is refused. Coordinates off the grid are refused before anything else.
    pub open spec fn turn_outcome(self, t: Turn) -> Result<GameView, Rejection> {
        let x = t.point.x as int;
        let y = t.point.y as int;
        if !in_bounds(x, y) {
            Err(Rejection::InvalidCoordinate)
        } else {
            match t.action {
                Action::Spawn => self.spawn_outcome(x, y),
                Action::Increase => self.increase_outcome(x, y),
                Action::Square => self.square_outcome(x, y),
                _ => self.move_outcome(x, y, step(t.point, t.action).0, step(t.point, t.action).1),
            }
        }
    }
}

/// `after` and `r` are what `outcome` says: the new state and `Ok`, or the
/// unchanged state and the rejection.
pub open spec fn settles(
    before: GameView,
    after: GameView,
    r: Result<(), Rejection>,
    outcome: Result<GameView, Rejection>,
) -> bool {
    match outcome {
        Ok(v) => r is Ok && after == v,
        Err(e) => r == Err::<(), Rejection>(e) && after == before,
    }
}

} // verus!
