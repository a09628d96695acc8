use grid_duel::{Action, Counter, Game, Player, Point, Rejection, Tile, Turn};
use grid_duel::{HEIGHT, WIDTH};

fn turn(x: u8, y: u8, action: Action) -> Turn {
    Turn { point: Point { x, y }, action }
}

fn counter(player: Player, value: u8) -> Tile {
    Tile { counter: Some(Counter { player, value }), fortification: None }
}

fn snapshot(g: &Game) -> Vec<Tile> {
    let mut tiles = Vec::new();
    for y in 1..=HEIGHT {
        for x in 1..=WIDTH {
            tiles.push(g.tile_at(x, y));
        }
    }
    tiles
}

fn fortified_tiles(g: &Game) -> usize {
    snapshot(g).iter().filter(|t| t.fortification.is_some()).count()
}

#[test]
fn new_game_starts_with_one_fortification() {
    let g = Game::new();
    assert_eq!(g.current_player(), Player::FirstPlayer);
    assert_eq!(g.score(), (0, 0));
    assert_eq!(g.fortification_counts(), (0, 1));
    assert_eq!(g.tile_at(4, 3), Tile { counter: None, fortification: Some(Player::SecondPlayer) });
    assert_eq!(fortified_tiles(&g), 1);
    assert_eq!(g.winner(), None);
}

#[test]
fn spawn_on_home_row() {
    let mut g = Game::new();
    assert_eq!(g.apply(turn(3, 8, Action::Spawn)), Ok(()));
    assert_eq!(g.tile_at(3, 8), counter(Player::FirstPlayer, 0));
}

#[test]
fn spawn_twice_is_rejected() {
    let mut g = Game::new();
    assert_eq!(g.apply(turn(3, 8, Action::Spawn)), Ok(()));
    assert_eq!(g.apply(turn(3, 8, Action::Spawn)), Err(Rejection::OccupiedTarget));
}

#[test]
fn spawn_one_row_off_home_is_rejected() {
    let mut g = Game::new();
    assert_eq!(g.apply(turn(3, 7, Action::Spawn)), Err(Rejection::WrongSpawnRow));
    assert_eq!(g.apply(turn(3, 1, Action::Spawn)), Err(Rejection::WrongSpawnRow));
}

#[test]
fn second_player_spawns_on_row_one() {
    let mut g = Game::new();
    assert_eq!(g.play_turn(turn(1, 8, Action::Spawn)), Ok(()));
    assert_eq!(g.current_player(), Player::SecondPlayer);
    assert_eq!(g.play_turn(turn(1, 8, Action::Spawn)), Err(Rejection::OccupiedTarget));
    assert_eq!(g.play_turn(turn(2, 8, Action::Spawn)), Err(Rejection::WrongSpawnRow));
    assert_eq!(g.current_player(), Player::SecondPlayer);
    assert_eq!(g.play_turn(turn(2, 1, Action::Spawn)), Ok(()));
    assert_eq!(g.tile_at(2, 1), counter(Player::SecondPlayer, 0));
    assert_eq!(g.current_player(), Player::FirstPlayer);
}

#[test]
fn coordinates_off_the_grid_are_rejected() {
    let mut g = Game::new();
    assert_eq!(g.apply(turn(0, 8, Action::Spawn)), Err(Rejection::InvalidCoordinate));
    assert_eq!(g.apply(turn(7, 8, Action::Spawn)), Err(Rejection::InvalidCoordinate));
    assert_eq!(g.apply(turn(3, 9, Action::Up)), Err(Rejection::InvalidCoordinate));
    assert_eq!(g.apply(turn(3, 0, Action::Down)), Err(Rejection::InvalidCoordinate));
}

#[test]
fn move_up_into_empty_tile() {
    let mut g = Game::new();
    g.set_tile(3, 5, counter(Player::FirstPlayer, 3));
    assert_eq!(g.apply(turn(3, 5, Action::Up)), Ok(()));
    assert_eq!(g.tile_at(3, 5), Tile::empty());
    assert_eq!(g.tile_at(3, 4), counter(Player::FirstPlayer, 3));
}

#[test]
fn moves_in_each_direction() {
    let mut g = Game::new();
    g.set_tile(2, 5, counter(Player::FirstPlayer, 1));
    assert_eq!(g.apply(turn(2, 5, Action::Right)), Ok(()));
    assert_eq!(g.tile_at(3, 5), counter(Player::FirstPlayer, 1));
    assert_eq!(g.apply(turn(3, 5, Action::Down)), Ok(()));
    assert_eq!(g.tile_at(3, 6), counter(Player::FirstPlayer, 1));
    assert_eq!(g.apply(turn(3, 6, Action::Left)), Ok(()));
    assert_eq!(g.tile_at(2, 6), counter(Player::FirstPlayer, 1));
    assert_eq!(g.tile_at(3, 6), Tile::empty());
}

#[test]
fn attack_wins_and_leaves_remnant() {
    let mut g = Game::new();
    g.set_tile(2, 4, counter(Player::FirstPlayer, 3));
    g.set_tile(3, 4, counter(Player::SecondPlayer, 2));
    assert_eq!(g.apply(turn(2, 4, Action::Right)), Ok(()));
    assert_eq!(g.tile_at(2, 4), counter(Player::FirstPlayer, 1));
    assert_eq!(g.tile_at(3, 4), counter(Player::SecondPlayer, 0));
}

#[test]
fn attack_from_own_fortification_is_squared() {
    let mut g = Game::new();
    g.set_tile(2, 4, Tile {
        counter: Some(Counter { player: Player::FirstPlayer, value: 3 }),
        fortification: Some(Player::FirstPlayer),
    });
    g.set_tile(2, 3, counter(Player::SecondPlayer, 5));
    assert_eq!(g.apply(turn(2, 4, Action::Up)), Ok(()));
    assert_eq!(g.tile_at(2, 4), Tile {
        counter: Some(Counter { player: Player::FirstPlayer, value: 2 }),
        fortification: Some(Player::FirstPlayer),
    });
    assert_eq!(g.tile_at(2, 3), counter(Player::SecondPlayer, 0));
}

#[test]
fn attack_from_opposing_fortification_is_not_squared() {
    let mut g = Game::new();
    g.set_tile(2, 4, Tile {
        counter: Some(Counter { player: Player::FirstPlayer, value: 3 }),
        fortification: Some(Player::SecondPlayer),
    });
    g.set_tile(2, 3, counter(Player::SecondPlayer, 3));
    assert_eq!(g.apply(turn(2, 4, Action::Up)), Err(Rejection::InsufficientPower));
}

#[test]
fn attack_without_enough_power_is_rejected() {
    let mut g = Game::new();
    g.set_tile(2, 4, counter(Player::FirstPlayer, 2));
    g.set_tile(3, 4, counter(Player::SecondPlayer, 2));
    let before = snapshot(&g);
    assert_eq!(g.apply(turn(2, 4, Action::Right)), Err(Rejection::InsufficientPower));
    assert_eq!(snapshot(&g), before);
}

#[test]
fn move_onto_own_counter_is_rejected() {
    let mut g = Game::new();
    g.set_tile(2, 4, counter(Player::FirstPlayer, 2));
    g.set_tile(3, 4, counter(Player::FirstPlayer, 1));
    assert_eq!(g.apply(turn(2, 4, Action::Right)), Err(Rejection::FriendlyOccupied));
}

#[test]
fn move_off_the_board_is_rejected() {
    let mut g = Game::new();
    g.set_tile(1, 1, counter(Player::FirstPlayer, 2));
    assert_eq!(g.apply(turn(1, 1, Action::Up)), Err(Rejection::OutOfBounds));
    assert_eq!(g.apply(turn(1, 1, Action::Left)), Err(Rejection::OutOfBounds));
    g.set_tile(6, 8, counter(Player::FirstPlayer, 2));
    assert_eq!(g.apply(turn(6, 8, Action::Right)), Err(Rejection::OutOfBounds));
    assert_eq!(g.apply(turn(6, 8, Action::Down)), Err(Rejection::OutOfBounds));
}

#[test]
fn moving_without_own_counter_is_rejected() {
    let mut g = Game::new();
    assert_eq!(g.apply(turn(2, 4, Action::Up)), Err(Rejection::NoCounter));
    g.set_tile(2, 4, counter(Player::SecondPlayer, 2));
    assert_eq!(g.apply(turn(2, 4, Action::Up)), Err(Rejection::NotOwner));
}

#[test]
fn breach_with_zero_empties_the_fortification() {
    let mut g = Game::new();
    g.set_tile(4, 4, counter(Player::FirstPlayer, 0));
    assert_eq!(g.apply(turn(4, 4, Action::Up)), Ok(()));
    assert_eq!(g.tile_at(4, 3), Tile::empty());
    assert_eq!(g.tile_at(4, 4), Tile::empty());
    assert_eq!(g.score(), (0, 1));
    assert_eq!(g.fortification_counts(), (0, 1));
}

#[test]
fn breach_lowers_the_movers_count() {
    let mut g = Game::new();
    g.set_tile(2, 4, counter(Player::FirstPlayer, 4));
    assert_eq!(g.apply(turn(2, 4, Action::Square)), Ok(()));
    assert_eq!(g.fortification_counts(), (1, 1));
    g.set_tile(4, 4, counter(Player::FirstPlayer, 0));
    assert_eq!(g.apply(turn(4, 4, Action::Up)), Ok(()));
    assert_eq!(g.fortification_counts(), (0, 1));
    assert_eq!(g.score(), (0, 1));
    assert_eq!(fortified_tiles(&g), 1);
}

#[test]
fn entering_opposing_fortification_costs_one() {
    let mut g = Game::new();
    g.set_tile(4, 4, counter(Player::FirstPlayer, 3));
    assert_eq!(g.apply(turn(4, 4, Action::Up)), Ok(()));
    assert_eq!(g.tile_at(4, 4), Tile::empty());
    assert_eq!(g.tile_at(4, 3), Tile {
        counter: Some(Counter { player: Player::FirstPlayer, value: 2 }),
        fortification: Some(Player::SecondPlayer),
    });
    assert_eq!(g.score(), (0, 0));
    assert_eq!(g.fortification_counts(), (0, 1));
}

#[test]
fn entering_own_fortification_is_free() {
    let mut g = Game::new();
    g.set_tile(4, 4, counter(Player::SecondPlayer, 3));
    assert_eq!(g.play_turn(turn(1, 8, Action::Spawn)), Ok(()));
    assert_eq!(g.play_turn(turn(4, 4, Action::Up)), Ok(()));
    assert_eq!(g.tile_at(4, 3), Tile {
        counter: Some(Counter { player: Player::SecondPlayer, value: 3 }),
        fortification: Some(Player::SecondPlayer),
    });
}

#[test]
fn increase_inside_growth_zone() {
    let mut g = Game::new();
    g.set_tile(2, 3, counter(Player::FirstPlayer, 0));
    for expected in 1..=5u8 {
        assert_eq!(g.apply(turn(2, 3, Action::Increase)), Ok(()));
        assert_eq!(g.tile_at(2, 3), counter(Player::FirstPlayer, expected));
    }
    assert_eq!(g.apply(turn(2, 3, Action::Increase)), Err(Rejection::ValueAtMax));
    assert_eq!(g.tile_at(2, 3), counter(Player::FirstPlayer, 5));
}

#[test]
fn increase_outside_growth_zone_is_rejected() {
    let mut g = Game::new();
    g.set_tile(2, 2, counter(Player::FirstPlayer, 1));
    g.set_tile(2, 6, counter(Player::FirstPlayer, 1));
    assert_eq!(g.apply(turn(2, 2, Action::Increase)), Err(Rejection::OutOfGrowthZone));
    assert_eq!(g.apply(turn(2, 6, Action::Increase)), Err(Rejection::OutOfGrowthZone));
    g.set_tile(2, 5, counter(Player::FirstPlayer, 1));
    assert_eq!(g.apply(turn(2, 5, Action::Increase)), Ok(()));
}

#[test]
fn increase_needs_own_counter() {
    let mut g = Game::new();
    assert_eq!(g.apply(turn(2, 4, Action::Increase)), Err(Rejection::NoCounter));
    g.set_tile(2, 4, counter(Player::SecondPlayer, 1));
    assert_eq!(g.apply(turn(2, 4, Action::Increase)), Err(Rejection::NotOwner));
}

#[test]
fn square_makes_a_fortification() {
    let mut g = Game::new();
    g.set_tile(2, 4, counter(Player::FirstPlayer, 4));
    assert_eq!(g.apply(turn(2, 4, Action::Square)), Ok(()));
    assert_eq!(g.tile_at(2, 4), Tile { counter: None, fortification: Some(Player::FirstPlayer) });
    assert_eq!(g.fortification_counts(), (1, 1));
    let (a, b) = g.fortification_counts();
    assert_eq!(a as usize + b as usize, fortified_tiles(&g));
}

#[test]
fn square_needs_value_above_count() {
    let mut g = Game::new();
    g.set_tile(2, 4, counter(Player::FirstPlayer, 1));
    assert_eq!(g.apply(turn(2, 4, Action::Square)), Ok(()));
    g.set_tile(3, 4, counter(Player::FirstPlayer, 1));
    assert_eq!(g.apply(turn(3, 4, Action::Square)), Err(Rejection::InsufficientValue));
    assert_eq!(g.fortification_counts(), (1, 1));
}

#[test]
fn square_outside_growth_zone_or_without_counter_is_rejected() {
    let mut g = Game::new();
    g.set_tile(2, 2, counter(Player::FirstPlayer, 3));
    g.set_tile(2, 6, counter(Player::FirstPlayer, 3));
    assert_eq!(g.apply(turn(2, 2, Action::Square)), Err(Rejection::OutOfGrowthZone));
    assert_eq!(g.apply(turn(2, 6, Action::Square)), Err(Rejection::OutOfGrowthZone));
    assert_eq!(g.apply(turn(3, 4, Action::Square)), Err(Rejection::NoCounter));
    g.set_tile(3, 4, counter(Player::SecondPlayer, 3));
    assert_eq!(g.apply(turn(3, 4, Action::Square)), Err(Rejection::NotOwner));
}

#[test]
fn rejection_changes_nothing() {
    let mut g = Game::new();
    g.set_tile(2, 4, counter(Player::FirstPlayer, 5));
    let tiles = snapshot(&g);
    let turns = [
        turn(2, 4, Action::Increase),
        turn(0, 4, Action::Up),
        turn(3, 3, Action::Spawn),
        turn(5, 5, Action::Left),
    ];
    for t in turns.iter() {
        assert!(g.play_turn(*t).is_err());
        assert_eq!(snapshot(&g), tiles);
        assert_eq!(g.score(), (0, 0));
        assert_eq!(g.fortification_counts(), (0, 1));
        assert_eq!(g.current_player(), Player::FirstPlayer);
    }
}

#[test]
fn scores_rise_by_one_per_breach_and_match_ends_at_ten() {
    let mut g = Game::new();
    for n in 1..=10u8 {
        assert_eq!(g.winner(), None);
        g.set_tile(4, 3, Tile { counter: None, fortification: Some(Player::SecondPlayer) });
        g.set_tile(4, 4, counter(Player::FirstPlayer, 0));
        assert_eq!(g.apply(turn(4, 4, Action::Up)), Ok(()));
        assert_eq!(g.score(), (0, n));
    }
    assert_eq!(g.winner(), Some(Player::SecondPlayer));
}

#[test]
fn first_player_wins_at_ten() {
    let mut g = Game::new();
    g.set_tile(4, 3, Tile::empty());
    assert_eq!(g.play_turn(turn(1, 8, Action::Spawn)), Ok(()));
    for n in 1..=10u8 {
        g.set_tile(2, 3, Tile { counter: None, fortification: Some(Player::FirstPlayer) });
        g.set_tile(2, 4, counter(Player::SecondPlayer, 0));
        assert_eq!(g.apply(turn(2, 4, Action::Up)), Ok(()));
        assert_eq!(g.score(), (n, 0));
    }
    assert_eq!(g.winner(), Some(Player::FirstPlayer));
}
