//! The active falling piece: spawned at a fixed position with a randomly
//! chosen color, and advanced downward every frame by continuous (fixed
//! point, millipixel) kinematics, independent of the logical grid.

use vstd::prelude::*;
use crate::grid::{BlockColor, GRID_HEIGHT, GRID_WIDTH};

verus! {

/// The active piece: its color and its continuous position in millipixels.
#[derive(Clone, Copy, PartialEq, Eq, Structural, Debug)]
pub struct Tetrino {
    pub color: BlockColor,
    pub x_mpx: i64,
    pub y_mpx: i64,
}

/// Relies on rand's StdRng being an opaque random source; this library only
/// passes it through to `random_color_index` and reads nothing of it.
#[verifier::external_type_specification]
#[verifier::external_body]
pub struct ExStdRng(rand::rngs::StdRng);

/// Relies on rand's Rng::gen_range: it returns a value within the given
/// non-empty range, here one of the six color indices.
#[verifier::external_body]
fn random_color_index(rng: &mut rand::rngs::StdRng) -> (i: usize)
    ensures
        i < 6,
{
    rand::Rng::gen_range(rng, 0usize..6usize)
}

/// The color drawn for index `i`. An index outside the six-color set (the
/// random source yielding nothing) falls back deterministically to the
/// first color.
pub open spec fn color_of_index(i: int) -> BlockColor {
    if i == 1 {
        BlockColor::Green
    } else if i == 2 {
        BlockColor::Orange
    } else if i == 3 {
        BlockColor::Pink
    } else if i == 4 {
        BlockColor::Red
    } else if i == 5 {
        BlockColor::Yellow
    } else {
        BlockColor::Blue
    }
}

/// The color at a given index of the closed color set, with the
/// deterministic first-color fallback for an out-of-range index.
pub fn color_from_index(i: usize) -> (col: BlockColor)
    ensures
        col == color_of_index(i as int),
{
    if i == 1 {
        BlockColor::Green
    } else if i == 2 {
        BlockColor::Orange
    } else if i == 3 {
        BlockColor::Pink
    } else if i == 4 {
        BlockColor::Red
    } else if i == 5 {
        BlockColor::Yellow
    } else {
        BlockColor::Blue
    }
}

/// The spawn column: the horizontal center of the board's coordinate space.
pub open spec fn spawn_x_mpx(origin_x_mpx: i64, tile_size_mpx: u32) -> int {
    origin_x_mpx + (GRID_WIDTH as int / 2) * tile_size_mpx
}

/// The spawn height: one tile size above the topmost row.
pub open spec fn spawn_y_mpx(origin_y_mpx: i64, tile_size_mpx: u32) -> int {
    origin_y_mpx + (GRID_HEIGHT as int) * tile_size_mpx
}

/// How far the piece falls, in millipixels, over `elapsed_ms` milliseconds:
/// the fall speed is one fifth of a tile size per second.
pub open spec fn fall_delta_mpx(tile_size_mpx: u32, elapsed_ms: u64) -> int {
    (tile_size_mpx * elapsed_ms) / 5000
}

/// Creates the active piece for a drawn color index: it spawns at the
/// horizontal center of the board, one tile size above the topmost row,
/// with the color the index calls for.
pub fn spawn_from_index(
    color_index: usize,
    origin_x_mpx: i64,
    origin_y_mpx: i64,
    tile_size_mpx: u32,
) -> (piece: Tetrino)
    requires
        -1_000_000_000_000_000 <= origin_x_mpx <= 1_000_000_000_000_000,
        -1_000_000_000_000_000 <= origin_y_mpx <= 1_000_000_000_000_000,
    ensures
        piece.color == color_of_index(color_index as int),
        piece.x_mpx == spawn_x_mpx(origin_x_mpx, tile_size_mpx),
        piece.y_mpx == spawn_y_mpx(origin_y_mpx, tile_size_mpx),
{
    let color = color_from_index(color_index);
    Tetrino {
        color,
        x_mpx: origin_x_mpx + 5 * (tile_size_mpx as i64),
        y_mpx: origin_y_mpx + 20 * (tile_size_mpx as i64),
    }
}

/// Spawns a new active piece with a color chosen uniformly at random from
/// the six-color set. Whatever the random source returns, the piece stands
/// at the fixed spawn position and wears a color of the closed set.
pub fn spawn_tetrino(
    rng: &mut rand::rngs::StdRng,
    origin_x_mpx: i64,
    origin_y_mpx: i64,
    tile_size_mpx: u32,
) -> (piece: Tetrino)
    requires
        -1_000_000_000_000_000 <= origin_x_mpx <= 1_000_000_000_000_000,
        -1_000_000_000_000_000 <= origin_y_mpx <= 1_000_000_000_000_000,
    ensures
        piece.x_mpx == spawn_x_mpx(origin_x_mpx, tile_size_mpx),
        piece.y_mpx == spawn_y_mpx(origin_y_mpx, tile_size_mpx),
        exists|i: int| 0 <= i < 6 && piece.color == color_of_index(i),
{
    let i: usize = random_color_index(rng);
    let piece = spawn_from_index(i, origin_x_mpx, origin_y_mpx, tile_size_mpx);
    assert((i as int) < 6 && piece.color == color_of_index(i as int));
    piece
}

/// Advances the active piece downward by `fall_delta_mpx` for the elapsed
/// frame time: continuous motion, decoupled from the grid; color and
/// horizontal position are untouched.
pub fn fall_tetrino(piece: &mut Tetrino, tile_size_mpx: u32, elapsed_ms: u64)
    requires
        elapsed_ms <= 1_000_000_000,
        old(piece).y_mpx - fall_delta_mpx(tile_size_mpx, elapsed_ms) >= i64::MIN,
    ensures
        final(piece).color == old(piece).color,
        final(piece).x_mpx == old(piece).x_mpx,
        final(piece).y_mpx == old(piece).y_mpx - fall_delta_mpx(tile_size_mpx, elapsed_ms),
{
    proof {
        assert(0 <= (tile_size_mpx as int) * (elapsed_ms as int) <= 0xffff_ffff
            * 1_000_000_000) by (nonlinear_arith)
            requires
                0 <= tile_size_mpx <= 0xffff_ffff,
                0 <= elapsed_ms <= 1_000_000_000,
        ;
    }
    let product: u64 = (tile_size_mpx as u64) * elapsed_ms;
    let delta: u64 = product / 5000;
    piece.y_mpx = piece.y_mpx - (delta as i64);
}

/// Fall kinematics over one full second: for a tile size divisible by five,
/// the fall distance is exactly one fifth of the tile size.
pub proof fn lemma_fall_one_second(tile_size_mpx: u32)
    requires
        tile_size_mpx % 5 == 0,
    ensures
        fall_delta_mpx(tile_size_mpx, 1000) * 5 == tile_size_mpx,
{
    assert(tile_size_mpx * 1000 == (tile_size_mpx / 5) * 5000) by (nonlinear_arith)
        requires
            tile_size_mpx % 5 == 0,
    ;
    assert((tile_size_mpx * 1000) / 5000 == tile_size_mpx / 5) by (nonlinear_arith)
        requires
            tile_size_mpx * 1000 == (tile_size_mpx / 5) * 5000,
    ;
}

} // verus!
