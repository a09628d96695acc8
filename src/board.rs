//! The grid of tiles, with bounds-checked reads and writes.

use vstd::prelude::*;
use crate::entities::{Player, Tile};
use crate::rules::{CELLS, HEIGHT, WIDTH, cell, in_bounds, initial_board};

verus! {

/// A `WIDTH` by `HEIGHT` grid of tiles, stored row by row.
pub struct Board {
    tiles: Vec<Tile>,
}

impl View for Board {
    type V = Seq<Tile>;

    closed spec fn view(&self) -> Seq<Tile> {
        self.tiles@
    }
}

/// Position of `(x, y)` in the row-major vector of tiles.
fn cell_index(x: u8, y: u8) -> (r: usize)
    requires
        in_bounds(x as int, y as int),
    ensures
        r as int == cell(x as int, y as int),
        r < CELLS,
{
    let row: usize = y as usize - 1;
    let col: usize = x as usize - 1;
    assert(row * (WIDTH as usize) + col < CELLS) by (nonlinear_arith)
        requires
            row < HEIGHT,
            col < WIDTH,
            WIDTH == 6,
            HEIGHT == 8,
            CELLS == 48,
    ;
    row * (WIDTH as usize) + col
}

impl Board {
    /// The starting grid: empty, but for the second player's fortification
    /// in the middle of row 3.
    pub fn new() -> (r: Board)
        ensures
            r@ == initial_board(),
    {
        let mut tiles: Vec<Tile> = Vec::new();
        let mut i: usize = 0;
        while i < CELLS
            invariant
                i <= CELLS,
                tiles@.len() == i,
                forall|j: int| 0 <= j < i ==> #[trigger] tiles@[j] == Tile::empty_spec(),
            decreases CELLS - i,
        {
            tiles.push(Tile::empty());
            i = i + 1;
        }
        let special = cell_index(WIDTH / 2 + 1, 3);
        tiles[special] = Tile { counter: None, fortification: Some(Player::SecondPlayer) };
        let r = Board { tiles };
        assert(r@ =~= initial_board());
        r
    }

    /// The tile at `(x, y)`.
    pub fn tile_at(&self, x: u8, y: u8) -> (r: Tile)
        requires
            self@.len() == CELLS,
            in_bounds(x as int, y as int),
        ensures
            r == self@[cell(x as int, y as int)],
    {
        self.tiles[cell_index(x, y)]
    }

    /// Replace the tile at `(x, y)` by `t`, leaving every other tile as it was.
    pub fn set_tile(&mut self, x: u8, y: u8, t: Tile)
        requires
            old(self)@.len() == CELLS,
            in_bounds(x as int, y as int),
        ensures
            final(self)@ == old(self)@.update(cell(x as int, y as int), t),
    {
        let i = cell_index(x, y);
        self.tiles[i] = t;
    }
}

} // verus!
