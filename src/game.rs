//! A match in progress and the engine that carries out commands on it.

use vstd::prelude::*;
use crate::board::Board;
use crate::entities::{Action, Counter, MAX_VALUE, Player, Point, Rejection, Tile, Turn};
use crate::rules::{GameView, HEIGHT, WIDTH, WIN_SCORE, cell, in_bounds, initial_board, settles};

verus! {

/// A match: the board, the player to move, the scores and the
/// fortification counts.
pub struct Game {
    player: Player,
    board: Board,
    score: (u8, u8),
    squares: (u8, u8),
}

impl View for Game {
    type V = GameView;

    closed spec fn view(&self) -> GameView {
        GameView {
            player: self.player,
            board: self.board@,
            score: (self.score.0 as nat, self.score.1 as nat),
            forts: (self.squares.0 as nat, self.squares.1 as nat),
        }
    }
}

/// The state a match starts in.
pub open spec fn initial_view() -> GameView {
    GameView {
        player: Player::FirstPlayer,
        board: initial_board(),
        score: (0, 0),
        forts: (0, 1),
    }
}

/// The winner of a match in state `v`, if a player has reached the winning
/// score; the first player is named when both have.
pub open spec fn winner_of(v: GameView) -> Option<Player> {
    if v.score.0 >= WIN_SCORE {
        Some(Player::FirstPlayer)
    } else if v.score.1 >= WIN_SCORE {
        Some(Player::SecondPlayer)
    } else {
        None
    }
}

impl Game {
    pub open spec fn wf(&self) -> bool {
        self@.wf()
    }

    /// A fresh match: the first player moves, scores are 0 to 0, and the
    /// second player holds the one fortification on the board.
    pub fn new() -> (r: Game)
        ensures
            r.wf(),
            r@ == initial_view(),
    {
        let r = Game {
            player: Player::FirstPlayer,
            board: Board::new(),
            score: (0, 0),
            squares: (0, 1),
        };
        assert(r@.board == initial_board());
        assert forall|i: int| 0 <= i < r@.board.len() implies (#[trigger] r@.board[i]).wf() by {
            assert(r@.board[i].counter is None);
        }
        r
    }

    /// The player to move.
    pub fn current_player(&self) -> (r: Player)
        ensures
            r == self@.player,
    {
        self.player
    }

    /// The scores, first player's then second's.
    pub fn score(&self) -> (r: (u8, u8))
        ensures
            r.0 == self@.score.0,
            r.1 == self@.score.1,
    {
        self.score
    }

    /// The fortification counts, first player's then second's.
    pub fn fortification_counts(&self) -> (r: (u8, u8))
        ensures
            r.0 == self@.forts.0,
            r.1 == self@.forts.1,
    {
        self.squares
    }

    /// The tile at `(x, y)`.
    pub fn tile_at(&self, x: u8, y: u8) -> (r: Tile)
        requires
            self.wf(),
            in_bounds(x as int, y as int),
        ensures
            r == self@.tile(x as int, y as int),
    {
        self.board.tile_at(x, y)
    }

    /// Put `t` at `(x, y)`; nothing else changes.
    pub fn set_tile(&mut self, x: u8, y: u8, t: Tile)
        requires
            old(self).wf(),
            in_bounds(x as int, y as int),
            t.wf(),
        ensures
            final(self).wf(),
            final(self)@ == old(self)@.with_tile(x as int, y as int, t),
    {
        self.board.set_tile(x, y, t);
    }

    /// The player who has reached the winning score, if any.
    pub fn winner(&self) -> (r: Option<Player>)
        ensures
            r == winner_of(self@),
            r is Some <==> self@.is_over(),
    {
        if self.score.0 >= WIN_SCORE {
            Some(Player::FirstPlayer)
        } else if self.score.1 >= WIN_SCORE {
            Some(Player::SecondPlayer)
        } else {
            None
        }
    }
}

/// Spawn a counter of the player to move at `point`.
pub fn exec_spawn(point: Point, game: &mut Game) -> (r: Result<(), Rejection>)
    requires
        old(game).wf(),
        in_bounds(point.x as int, point.y as int),
    ensures
        final(game).wf(),
        settles(old(game)@, final(game)@, r, old(game)@.spawn_outcome(point.x as int, point.y as int)),
{
    let tile = game.board.tile_at(point.x, point.y);
    if tile.counter.is_some() {
        return Err(Rejection::OccupiedTarget);
    }
    let line: u8 = match game.player {
        Player::FirstPlayer => HEIGHT,
        Player::SecondPlayer => 1,
    };
    if point.y != line {
        return Err(Rejection::WrongSpawnRow);
    }
    let counter = Counter { player: game.player.same(), value: 0 };
    game.board.set_tile(point.x, point.y, Tile { counter: Some(counter), ..tile });
    Ok(())
}

/// Move the counter at `point` to `dest`: a plain move, an attack on an
/// opposing counter, or an entry into an opposing fortification.
pub fn exec_move(point: Point, dest: Point, game: &mut Game) -> (r: Result<(), Rejection>)
    requires
        old(game).wf(),
        !old(game)@.is_over(),
        in_bounds(point.x as int, point.y as int),
    ensures
        final(game).wf(),
        settles(
            old(game)@,
            final(game)@,
            r,
            old(game)@.move_outcome(point.x as int, point.y as int, dest.x as int, dest.y as int),
        ),
{
    let ghost before = game@;
    let source = game.board.tile_at(point.x, point.y);
    let c = match source.counter {
        Some(c) => c,
        None => {
            return Err(Rejection::NoCounter);
        },
    };
    if c.player != game.player {
        return Err(Rejection::NotOwner);
    }
    if dest.x < 1 || dest.x > WIDTH || dest.y < 1 || dest.y > HEIGHT {
        return Err(Rejection::OutOfBounds);
    }
    let target = game.board.tile_at(dest.x, dest.y);
    assert(before.board[cell(point.x as int, point.y as int)].wf());
    if let Some(d) = target.counter {
        if d.player == c.player {
            return Err(Rejection::FriendlyOccupied);
        }
        let squared = match source.fortification {
            Some(owner) => owner == c.player,
            None => false,
        };
        assert(c.value * c.value <= MAX_VALUE * MAX_VALUE) by (nonlinear_arith)
            requires
                c.value <= MAX_VALUE,
        ;
        let power: u8 = if squared { c.value * c.value } else { c.value };
        if power <= d.value {
            return Err(Rejection::InsufficientPower);
        }
        assert(c.value > 0) by (nonlinear_arith)
            requires
                power > d.value,
                squared ==> power == c.value * c.value,
                !squared ==> power == c.value,
        ;
        let left: u8 = if squared { c.value - 1 } else { c.value - d.value };
        let winner = Counter { player: c.player, value: left };
        let remnant = Counter { player: c.player.other(), value: 0 };
        game.board.set_tile(point.x, point.y, Tile { counter: Some(winner), ..source });
        game.board.set_tile(dest.x, dest.y, Tile { counter: Some(remnant), ..target });
        return Ok(());
    }
    game.board.set_tile(point.x, point.y, Tile { counter: None, ..source });
    let hostile = match target.fortification {
        Some(owner) => owner != c.player,
        None => false,
    };
    if hostile && c.value == 0 {
        game.board.set_tile(dest.x, dest.y, Tile::empty());
        match c.player {
            Player::FirstPlayer => {
                if game.squares.0 > 0 {
                    game.squares.0 = game.squares.0 - 1;
                }
                game.score.1 = game.score.1 + 1;
            },
            Player::SecondPlayer => {
                if game.squares.1 > 0 {
                    game.squares.1 = game.squares.1 - 1;
                }
                game.score.0 = game.score.0 + 1;
            },
        }
    } else {
        let value: u8 = if hostile { c.value - 1 } else { c.value };
        let moved = Counter { player: c.player, value };
        game.board.set_tile(dest.x, dest.y, Tile { counter: Some(moved), ..target });
    }
    Ok(())
}

/// Raise by one the value of the mover's counter at `point`.
pub fn exec_increase(point: Point, game: &mut Game) -> (r: Result<(), Rejection>)
    requires
        old(game).wf(),
        in_bounds(point.x as int, point.y as int),
    ensures
        final(game).wf(),
        settles(old(game)@, final(game)@, r, old(game)@.increase_outcome(point.x as int, point.y as int)),
{
    let tile = game.board.tile_at(point.x, point.y);
    match tile.counter {
        Some(c) => {
            if c.player != game.player {
                return Err(Rejection::NotOwner);
            }
            if point.y < 3 || point.y + 3 > HEIGHT {
                return Err(Rejection::OutOfGrowthZone);
            }
            if c.value >= MAX_VALUE {
                return Err(Rejection::ValueAtMax);
            }
            let raised = Counter { player: c.player.same(), value: c.value + 1 };
            game.board.set_tile(point.x, point.y, Tile { counter: Some(raised), ..tile });
            Ok(())
        },
        None => Err(Rejection::NoCounter),
    }
}

/// Turn the mover's counter at `point` into a fortification of the mover.
pub fn exec_square(point: Point, game: &mut Game) -> (r: Result<(), Rejection>)
    requires
        old(game).wf(),
        in_bounds(point.x as int, point.y as int),
    ensures
        final(game).wf(),
        settles(old(game)@, final(game)@, r, old(game)@.square_outcome(point.x as int, point.y as int)),
{
    let ghost before = game@;
    let tile = game.board.tile_at(point.x, point.y);
    match tile.counter {
        Some(c) => {
            if c.player != game.player {
                return Err(Rejection::NotOwner);
            }
            if point.y < 3 || point.y + 3 > HEIGHT {
                return Err(Rejection::OutOfGrowthZone);
            }
            let squares = match c.player {
                Player::FirstPlayer => game.squares.0,
                Player::SecondPlayer => game.squares.1,
            };
            if c.value <= squares {
                return Err(Rejection::InsufficientValue);
            }
            assert(before.board[cell(point.x as int, point.y as int)].wf());
            game.board.set_tile(point.x, point.y, Tile { counter: None, fortification: Some(c.player.same()) });
            match c.player {
                Player::FirstPlayer => game.squares.0 = game.squares.0 + 1,
                Player::SecondPlayer => game.squares.1 = game.squares.1 + 1,
            }
            Ok(())
        },
        None => Err(Rejection::NoCounter),
    }
}

impl Game {
    /// Carry out `turn` for the player to move. A refused turn leaves the
    /// match exactly as it was. The player to move does not change.
    pub fn apply(&mut self, turn: Turn) -> (r: Result<(), Rejection>)
        requires
            old(self).wf(),
            !old(self)@.is_over(),
        ensures
            final(self).wf(),
            settles(old(self)@, final(self)@, r, old(self)@.turn_outcome(turn)),
            r is Err ==> final(self)@ == old(self)@,
    {
        let p = turn.point;
        if p.x < 1 || p.x > WIDTH || p.y < 1 || p.y > HEIGHT {
            return Err(Rejection::InvalidCoordinate);
        }
        match turn.action {
            Action::Spawn => exec_spawn(p, self),
            Action::Increase => exec_increase(p, self),
            Action::Square => exec_square(p, self),
            Action::Up => exec_move(p, Point { y: p.y - 1, ..p }, self),
            Action::Right => exec_move(p, Point { x: p.x + 1, ..p }, self),
            Action::Down => exec_move(p, Point { y: p.y + 1, ..p }, self),
            Action::Left => exec_move(p, Point { x: p.x - 1, ..p }, self),
        }
    }

    /// Play `turn` for the player to move; when it is carried out, the
    /// opponent moves next. A refused turn changes nothing.
    pub fn play_turn(&mut self, turn: Turn) -> (r: Result<(), Rejection>)
        requires
            old(self).wf(),
            !old(self)@.is_over(),
        ensures
            final(self).wf(),
            match old(self)@.turn_outcome(turn) {
                Ok(v) => r is Ok && final(self)@ == GameView { player: Player::opponent(v.player), ..v },
                Err(e) => r == Err::<(), Rejection>(e) && final(self)@ == old(self)@,
            },
    {
        let r = self.apply(turn);
        if r.is_ok() {
            self.player = self.player.other();
        }
        r
    }
}

} // verus!
