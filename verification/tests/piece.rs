use rand::rngs::StdRng;
use rand::SeedableRng;
use tetris_grid::grid::BlockColor;
use tetris_grid::inputs::{InputMove, TetrinoMove};
use tetris_grid::tetrino::{color_from_index, fall_tetrino, spawn_from_index, spawn_tetrino};

const TILE: u32 = 32_000;
const ORIGIN_X: i64 = -160_000;
const ORIGIN_Y: i64 = -320_000;

#[test]
fn color_index_mapping_and_fallback() {
    assert_eq!(color_from_index(0), BlockColor::Blue);
    assert_eq!(color_from_index(1), BlockColor::Green);
    assert_eq!(color_from_index(2), BlockColor::Orange);
    assert_eq!(color_from_index(3), BlockColor::Pink);
    assert_eq!(color_from_index(4), BlockColor::Red);
    assert_eq!(color_from_index(5), BlockColor::Yellow);
    assert_eq!(color_from_index(6), BlockColor::Blue);
    assert_eq!(color_from_index(usize::MAX), BlockColor::Blue);
}

#[test]
fn spawn_stands_centered_one_tile_above_the_top_row() {
    let piece = spawn_from_index(2, ORIGIN_X, ORIGIN_Y, TILE);
    assert_eq!(piece.color, BlockColor::Orange);
    assert_eq!(piece.x_mpx, ORIGIN_X + 5 * TILE as i64);
    assert_eq!(piece.y_mpx, ORIGIN_Y + 20 * TILE as i64);
}

#[test]
fn spawns_are_deterministic_under_a_fixed_seed() {
    let mut first = StdRng::seed_from_u64(7);
    let mut second = StdRng::seed_from_u64(7);
    for _ in 0..32 {
        let a = spawn_tetrino(&mut first, ORIGIN_X, ORIGIN_Y, TILE);
        let b = spawn_tetrino(&mut second, ORIGIN_X, ORIGIN_Y, TILE);
        assert_eq!(a, b);
    }
}

#[test]
fn differently_seeded_sources_may_spawn_but_stay_in_the_color_set() {
    let mut rng = StdRng::seed_from_u64(12345);
    for _ in 0..64 {
        let piece = spawn_tetrino(&mut rng, ORIGIN_X, ORIGIN_Y, TILE);
        let all = [
            BlockColor::Blue,
            BlockColor::Green,
            BlockColor::Orange,
            BlockColor::Pink,
            BlockColor::Red,
            BlockColor::Yellow,
        ];
        assert!(all.contains(&piece.color));
        assert_eq!(piece.x_mpx, ORIGIN_X + 5 * TILE as i64);
        assert_eq!(piece.y_mpx, ORIGIN_Y + 20 * TILE as i64);
    }
}

#[test]
fn one_second_of_fall_is_a_fifth_of_a_tile() {
    let mut piece = spawn_from_index(4, 0, 0, TILE);
    let start_y: i64 = piece.y_mpx;
    fall_tetrino(&mut piece, TILE, 1000);
    // fall speed is 0.2 tile sizes per second: 0.2 * 32 px = 6.4 px = 6400 mpx
    assert_eq!(piece.y_mpx, start_y - 6400);
    assert_eq!(piece.x_mpx, 0 + 5 * TILE as i64);
    assert_eq!(piece.color, BlockColor::Red);
}

#[test]
fn fall_integrates_over_successive_frames() {
    let mut by_halves = spawn_from_index(0, 0, 0, TILE);
    let mut at_once = by_halves;
    fall_tetrino(&mut by_halves, TILE, 500);
    fall_tetrino(&mut by_halves, TILE, 500);
    fall_tetrino(&mut at_once, TILE, 1000);
    assert_eq!(by_halves, at_once);
    assert_eq!(by_halves.y_mpx, 20 * TILE as i64 - 6400);
}

#[test]
fn zero_elapsed_time_does_not_move_the_piece() {
    let mut piece = spawn_from_index(1, ORIGIN_X, ORIGIN_Y, TILE);
    let before = piece;
    fall_tetrino(&mut piece, TILE, 0);
    assert_eq!(piece, before);
}

#[test]
fn input_moves_are_plain_values() {
    let left = InputMove(TetrinoMove::Left);
    assert_eq!(left, InputMove(TetrinoMove::Left));
    assert_ne!(left, InputMove(TetrinoMove::Right));
    assert_ne!(
        InputMove(TetrinoMove::Clockwise),
        InputMove(TetrinoMove::CounterClockWise)
    );
}
