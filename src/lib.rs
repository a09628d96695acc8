//! A two-player strategy game on a six by eight grid: counters are spawned,
//! strengthened, turned into fortifications and moved to attack.

pub mod entities;
pub mod rules;
pub mod board;
pub mod game;
pub mod laws;
pub mod input;
pub mod render;

pub use board::Board;
pub use entities::{Action, Counter, Player, Point, Rejection, Tile, Turn};
pub use game::{Game, exec_increase, exec_move, exec_spawn, exec_square};
pub use input::{parse_action, read_digit};
pub use render::{counter_glyph, fortification_glyph};
pub use rules::{HEIGHT, WIDTH, WIN_SCORE};
