//! Properties that hold across turns, stated over the rules and proved.

use vstd::prelude::*;
use crate::entities::{Action, Counter, Player, Tile, Turn};
use crate::rules::{CELLS, GameView, HEIGHT, WIDTH, cell, in_bounds, initial_board, of_player, step};
use crate::game::initial_view;

verus! {

/// 1 for a fortified tile, 0 for another.
pub open spec fn fort_mark(t: Tile) -> int {
    if t.fortification is Some { 1 } else { 0 }
}

/// The number of fortified tiles in `s`.
pub open spec fn fortified_count(s: Seq<Tile>) -> nat
    decreases s.len(),
{
    if s.len() == 0 {
        0
    } else {
        (fortified_count(s.drop_last()) + fort_mark(s.last())) as nat
    }
}

/// The two fortification counts add up to the number of fortified tiles.
pub open spec fn forts_balanced(v: GameView) -> bool {
    v.forts.0 + v.forts.1 == fortified_count(v.board)
}

/// `t` squares a counter on a tile that already bears a fortification.
pub open spec fn squares_fortified_tile(v: GameView, t: Turn) -> bool {
    &&& t.action == Action::Square
    &&& in_bounds(t.point.x as int, t.point.y as int)
    &&& v.tile(t.point.x as int, t.point.y as int).fortification is Some
}

/// `t` moves a counter of value 0 into an opposing fortification while the
/// mover's own fortification count is 0.
pub open spec fn breaches_without_forts(v: GameView, t: Turn) -> bool {
    let d = step(t.point, t.action);
    &&& t.action != Action::Spawn && t.action != Action::Increase && t.action != Action::Square
    &&& of_player(v.forts, v.player) == 0
    &&& in_bounds(t.point.x as int, t.point.y as int)
    &&& in_bounds(d.0, d.1)
    &&& v.tile(t.point.x as int, t.point.y as int).counter matches Some(c)
    &&& c.value == 0
    &&& v.tile(d.0, d.1).counter is None
    &&& v.tile(d.0, d.1).fortification matches Some(f)
    &&& f != v.player
}

proof fn lemma_cell_in_range(x: int, y: int)
    requires
        in_bounds(x, y),
    ensures
        0 <= cell(x, y) < CELLS,
{
    assert(0 <= (y - 1) * (WIDTH as int) + (x - 1) < 48) by (nonlinear_arith)
        requires
            1 <= x <= 6,
            1 <= y <= 8,
            WIDTH == 6,
            HEIGHT == 8,
    ;
}

proof fn lemma_count_update(s: Seq<Tile>, i: int, t: Tile)
    requires
        0 <= i < s.len(),
    ensures
        fortified_count(s.update(i, t)) == fortified_count(s) - fort_mark(s[i]) + fort_mark(t),
    decreases s.len(),
{
    let u = s.update(i, t);
    if i == s.len() - 1 {
        assert(u.drop_last() =~= s.drop_last());
    } else {
        lemma_count_update(s.drop_last(), i, t);
        assert(u.drop_last() =~= s.drop_last().update(i, t));
    }
}

proof fn lemma_with_counter_count(v: GameView, x: int, y: int, c: Option<Counter>)
    requires
        v.board.len() == CELLS,
        in_bounds(x, y),
    ensures
        fortified_count(v.with_counter(x, y, c).board) == fortified_count(v.board),
        v.with_counter(x, y, c).board.len() == CELLS,
{
    lemma_cell_in_range(x, y);
    lemma_count_update(v.board, cell(x, y), Tile { counter: c, ..v.tile(x, y) });
}

/// A new match starts balanced: the second player's one fortification is
/// the one fortified tile.
pub proof fn lemma_initial_balanced()
    ensures
        forts_balanced(initial_view()),
{
    let s = initial_board();
    let k = cell((WIDTH / 2 + 1) as int, 3);
    assert(k == 15);
    let e = Seq::new(CELLS as nat, |i: int| Tile { counter: None, fortification: None });
    assert forall|n: nat| n <= CELLS implies fortified_count(#[trigger] e.take(n as int)) == 0 by {
        lemma_empty_prefix(e, n);
    }
    assert(e.take(CELLS as int) =~= e);
    lemma_count_update(e, k, Tile { counter: None, fortification: Some(Player::SecondPlayer) });
    assert(e.update(k, Tile { counter: None, fortification: Some(Player::SecondPlayer) }) =~= s);
}

proof fn lemma_empty_prefix(e: Seq<Tile>, n: nat)
    requires
        n <= e.len(),
        forall|i: int| 0 <= i < e.len() ==> (#[trigger] e[i]).fortification is None,
    ensures
        fortified_count(e.take(n as int)) == 0,
    decreases n,
{
    if n > 0 {
        lemma_empty_prefix(e, (n - 1) as nat);
        assert(e.take(n as int).drop_last() =~= e.take(n - 1));
    }
}

/// A carried-out turn keeps the fortification counts equal to the number of
/// fortified tiles, except when it squares a counter on an already fortified
/// tile or breaches with a mover whose own count is already 0.
pub proof fn lemma_turn_keeps_balance(v: GameView, t: Turn)
    requires
        v.wf(),
        forts_balanced(v),
        !squares_fortified_tile(v, t),
        !breaches_without_forts(v, t),
    ensures
        v.turn_outcome(t) matches Ok(w) ==> forts_balanced(w),
{
    let x = t.point.x as int;
    let y = t.point.y as int;
    if v.turn_outcome(t) is Ok && in_bounds(x, y) {
        lemma_cell_in_range(x, y);
        match t.action {
            Action::Spawn => lemma_with_counter_count(v, x, y, Some(Counter { player: v.player, value: 0 })),
            Action::Increase => {
                let c = v.tile(x, y).counter.unwrap();
                lemma_with_counter_count(v, x, y, Some(Counter { player: c.player, value: (c.value + 1) as u8 }));
            },
            Action::Square => {
                lemma_count_update(v.board, cell(x, y), Tile { counter: None, fortification: Some(v.player) });
            },
            _ => {
                let d = step(t.point, t.action);
                let (x1, y1) = (d.0, d.1);
                lemma_cell_in_range(x1, y1);
                let c = v.tile(x, y).counter.unwrap();
                match v.tile(x1, y1).counter {
                    Some(e) => {
                        let squared = v.tile(x, y).fortification == Some(c.player);
                        let left: int = if squared { c.value - 1 } else { c.value - e.value };
                        let a = Counter { player: c.player, value: left as u8 };
                        let b = Counter { player: Player::opponent(c.player), value: 0 };
                        lemma_with_counter_count(v, x, y, Some(a));
                        let v1 = v.with_counter(x, y, Some(a));
                        lemma_with_counter_count(v1, x1, y1, Some(b));
                    },
                    None => {
                        lemma_with_counter_count(v, x, y, None);
                        let v1 = v.with_counter(x, y, None);
                        let hostile = v.tile(x1, y1).fortification matches Some(f) && f != c.player;
                        if hostile && c.value == 0 {
                            lemma_count_update(v1.board, cell(x1, y1), Tile { counter: None, fortification: None });
                        } else if hostile {
                            lemma_with_counter_count(v1, x1, y1, Some(Counter { player: c.player, value: (c.value - 1) as u8 }));
                        } else {
                            lemma_with_counter_count(v1, x1, y1, Some(c));
                        }
                    },
                }
            },
        }
    }
}

/// A turn never lowers a score, and raises each by at most one, so a match
/// ends on the very turn a score reaches the winning score.
pub proof fn lemma_scores_never_fall(v: GameView, t: Turn)
    ensures
        v.turn_outcome(t) matches Ok(w) ==> {
            &&& v.score.0 <= w.score.0 <= v.score.0 + 1
            &&& v.score.1 <= w.score.1 <= v.score.1 + 1
        },
{
}

proof fn lemma_with_tile_wf(v: GameView, x: int, y: int, t: Tile)
    requires
        v.wf(),
        in_bounds(x, y),
        t.wf(),
    ensures
        v.with_tile(x, y, t).wf(),
{
    lemma_cell_in_range(x, y);
    let w = v.with_tile(x, y, t);
    assert forall|i: int| 0 <= i < w.board.len() implies (#[trigger] w.board[i]).wf() by {
        if i != cell(x, y) {
            assert(w.board[i] == v.board[i]);
        }
    }
}

/// A carried-out turn keeps every counter's value within range.
pub proof fn lemma_turn_keeps_values_in_range(v: GameView, t: Turn)
    requires
        v.wf(),
    ensures
        v.turn_outcome(t) matches Ok(w) ==> w.wf(),
{
    let x = t.point.x as int;
    let y = t.point.y as int;
    if v.turn_outcome(t) is Ok && in_bounds(x, y) {
        lemma_cell_in_range(x, y);
        let here = v.tile(x, y);
        match t.action {
            Action::Spawn => {
                lemma_with_tile_wf(v, x, y, Tile { counter: Some(Counter { player: v.player, value: 0 }), ..here });
            },
            Action::Increase => {
                let c = here.counter.unwrap();
                let raised = Counter { player: c.player, value: (c.value + 1) as u8 };
                lemma_with_tile_wf(v, x, y, Tile { counter: Some(raised), ..here });
            },
            Action::Square => {
                lemma_with_tile_wf(v, x, y, Tile { counter: None, fortification: Some(v.player) });
            },
            _ => {
                let d = step(t.point, t.action);
                let (x1, y1) = (d.0, d.1);
                lemma_cell_in_range(x1, y1);
                let c = here.counter.unwrap();
                assert(v.board[cell(x, y)].wf());
                match v.tile(x1, y1).counter {
                    Some(e) => {
                        let squared = here.fortification == Some(c.player);
                        let power: int = if squared { c.value * c.value } else { c.value as int };
                        assert(c.value > 0) by (nonlinear_arith)
                            requires
                                power > e.value,
                                squared ==> power == c.value * c.value,
                                !squared ==> power == c.value,
                        ;
                        let left: int = if squared { c.value - 1 } else { c.value - e.value };
                        let a = Counter { player: c.player, value: left as u8 };
                        let b = Counter { player: Player::opponent(c.player), value: 0 };
                        lemma_with_tile_wf(v, x, y, Tile { counter: Some(a), ..here });
                        let v1 = v.with_counter(x, y, Some(a));
                        lemma_with_tile_wf(v1, x1, y1, Tile { counter: Some(b), ..v1.tile(x1, y1) });
                    },
                    None => {
                        lemma_with_tile_wf(v, x, y, Tile { counter: None, ..here });
                        let v1 = v.with_counter(x, y, None);
                        let there = v1.tile(x1, y1);
                        let hostile = v.tile(x1, y1).fortification matches Some(f) && f != c.player;
                        if hostile && c.value == 0 {
                            lemma_with_tile_wf(v1, x1, y1, Tile { counter: None, fortification: None });
                        } else if hostile {
                            let m = Counter { player: c.player, value: (c.value - 1) as u8 };
                            lemma_with_tile_wf(v1, x1, y1, Tile { counter: Some(m), ..there });
                        } else {
                            lemma_with_tile_wf(v1, x1, y1, Tile { counter: Some(c), ..there });
                        }
                    },
                }
            },
        }
    }
}

} // verus!
