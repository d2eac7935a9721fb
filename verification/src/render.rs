//! The render tree and the redraw coordinator. The render tree is an ordered
//! sequence of exactly one visual placeholder per grid cell, created once;
//! its index order is the authoritative mapping to grid coordinates via
//! `index -> (x = index % GRID_WIDTH, y = index / GRID_WIDTH)`. The redraw
//! coordinator re-derives each affected placeholder's texture from the grid
//! and the texture registry in response to a redraw signal.

use vstd::prelude::*;
use vstd::arithmetic::div_mod::lemma_fundamental_div_mod;
use crate::grid::{Grid, GridObject, TileCoord, GRID_CELLS, GRID_HEIGHT, GRID_WIDTH};
use crate::textures::{BlockTextures, TextureId, object_texture};

verus! {

/// The column a render-tree index corresponds to.
pub open spec fn index_x(i: int) -> int {
    i % (GRID_WIDTH as int)
}

/// The row a render-tree index corresponds to.
pub open spec fn index_y(i: int) -> int {
    i / (GRID_WIDTH as int)
}

/// The grid coordinate a render-tree index stands for.
pub fn coord_of_index(index: usize) -> (c: TileCoord)
    requires
        index < GRID_CELLS,
    ensures
        c.x as int == index_x(index as int),
        c.y as int == index_y(index as int),
{
    proof {
        lemma_fundamental_div_mod(index as int, GRID_WIDTH as int);
    }
    TileCoord { x: (index % GRID_WIDTH) as u16, y: (index / GRID_WIDTH) as u16 }
}

/// One visual placeholder: the texture it currently displays and its fixed
/// position in millipixels. The position never changes after construction;
/// only the texture is mutated.
#[derive(Clone, Copy, PartialEq, Eq, Structural, Debug)]
pub struct Tile {
    pub texture: TextureId,
    pub x_mpx: i64,
    pub y_mpx: i64,
}

/// The render tree: the placeholders in their fixed index order.
pub struct GridRender {
    pub tiles: Vec<Tile>,
}

/// A redraw signal: `None` or an empty set means "redraw everything"; a
/// non-empty set restricts work to exactly those coordinates. Re-delivery
/// is harmless: application is idempotent.
pub struct RedrawGrid(pub Option<Vec<TileCoord>>);

impl RedrawGrid {
    /// The dirty-coordinate set the signal carries, as a spec value.
    pub open spec fn dirty(&self) -> Option<Seq<TileCoord>> {
        match self.0 {
            None => None,
            Some(v) => Some(v@),
        }
    }
}

impl Default for RedrawGrid {
    /// The full-redraw signal.
    fn default() -> (signal: RedrawGrid)
        ensures
            signal.dirty() is None,
    {
        RedrawGrid(None)
    }
}

/// Whether some coordinate of `targets` names the cell of render index `i`.
pub open spec fn coord_selects(targets: Seq<TileCoord>, i: int) -> bool {
    exists|k: int|
        0 <= k < targets.len() && targets[k].x as int == index_x(i) && targets[k].y as int
            == index_y(i)
}

/// Whether a signal with dirty set `dirty` redraws the placeholder at render
/// index `i`: always when the set is absent or empty, otherwise exactly when
/// the set names the placeholder's cell.
pub open spec fn selected(dirty: Option<Seq<TileCoord>>, i: int) -> bool {
    match dirty {
        None => true,
        Some(targets) => targets.len() == 0 || coord_selects(targets, i),
    }
}

/// The tile `t` displaying `id` instead of its current texture.
pub open spec fn with_texture(t: Tile, id: TextureId) -> Tile {
    Tile { texture: id, x_mpx: t.x_mpx, y_mpx: t.y_mpx }
}

/// The placeholders after one redraw signal is applied against grid contents
/// `cells` and registry `tex`: each selected placeholder displays the texture
/// its cell calls for, every other placeholder is untouched.
pub open spec fn apply_signal(
    dirty: Option<Seq<TileCoord>>,
    cells: Seq<GridObject>,
    tex: BlockTextures,
    tiles: Seq<Tile>,
) -> Seq<Tile> {
    Seq::new(
        tiles.len(),
        |i: int|
            if selected(dirty, i) {
                with_texture(tiles[i], object_texture(tex, cells[i]))
            } else {
                tiles[i]
            },
    )
}

impl GridRender {
    /// Well-formedness: exactly one placeholder per grid cell.
    pub open spec fn wf(&self) -> bool {
        self.tiles@.len() == GRID_CELLS
    }

    /// Builds the render tree: `GRID_CELLS` placeholders, all displaying the
    /// background texture, positioned on a regular grid anchored so that
    /// cell `(0, 0)` is at the given origin and successive cells step by
    /// `tile_size_mpx` along each axis, in the fixed index order
    /// `index -> (x = index % GRID_WIDTH, y = index / GRID_WIDTH)`.
    pub fn build(origin_x_mpx: i64, origin_y_mpx: i64, tile_size_mpx: u32, bg: TextureId) -> (r:
        GridRender)
        requires
            -1_000_000_000_000_000 <= origin_x_mpx <= 1_000_000_000_000_000,
            -1_000_000_000_000_000 <= origin_y_mpx <= 1_000_000_000_000_000,
        ensures
            r.wf(),
            forall|i: int|
                0 <= i < GRID_CELLS ==> {
                    &&& (#[trigger] r.tiles@[i]).texture == bg
                    &&& r.tiles@[i].x_mpx == origin_x_mpx + index_x(i) * tile_size_mpx
                    &&& r.tiles@[i].y_mpx == origin_y_mpx + index_y(i) * tile_size_mpx
                },
    {
        let mut tiles: Vec<Tile> = Vec::new();
        let mut i: usize = 0;
        while i < GRID_CELLS
            invariant
                -1_000_000_000_000_000 <= origin_x_mpx <= 1_000_000_000_000_000,
                -1_000_000_000_000_000 <= origin_y_mpx <= 1_000_000_000_000_000,
                i <= GRID_CELLS,
                tiles@.len() == i,
                forall|j: int|
                    0 <= j < i ==> {
                        &&& (#[trigger] tiles@[j]).texture == bg
                        &&& tiles@[j].x_mpx == origin_x_mpx + index_x(j) * tile_size_mpx
                        &&& tiles@[j].y_mpx == origin_y_mpx + index_y(j) * tile_size_mpx
                    },
            decreases GRID_CELLS - i,
        {
            let x: usize = i % GRID_WIDTH;
            let y: usize = i / GRID_WIDTH;
            assert(x < GRID_WIDTH && y < GRID_HEIGHT) by {
                lemma_fundamental_div_mod(i as int, GRID_WIDTH as int);
            }
            proof {
                assert(0 <= (x as int) * (tile_size_mpx as int) <= 9 * 0xffff_ffff && 0 <= (
                y as int) * (tile_size_mpx as int) <= 19 * 0xffff_ffff) by (nonlinear_arith)
                    requires
                        0 <= x <= 9,
                        0 <= y <= 19,
                        0 <= tile_size_mpx <= 0xffff_ffff,
                ;
            }
            let x_step: i64 = (x as i64) * (tile_size_mpx as i64);
            let y_step: i64 = (y as i64) * (tile_size_mpx as i64);
            tiles.push(
                Tile {
                    texture: bg,
                    x_mpx: origin_x_mpx + x_step,
                    y_mpx: origin_y_mpx + y_step,
                },
            );
            i = i + 1;
        }
        GridRender { tiles }
    }
}

/// Applies one redraw signal: for each placeholder the signal selects,
/// re-derives the texture its cell calls for from the grid and the registry
/// and applies it; every other placeholder is left untouched. A render tree
/// that is still empty (not yet built) makes this a no-op, and a dirty
/// coordinate outside the grid matches no placeholder and is silently inert.
pub fn on_update_grid(
    signal: &RedrawGrid,
    grid: &Grid,
    textures: &BlockTextures,
    render: &mut GridRender,
)
    requires
        grid.wf(),
        old(render).wf() || old(render).tiles@.len() == 0,
    ensures
        final(render).tiles@ == apply_signal(signal.dirty(), grid@, *textures, old(render).tiles@),
{
    let ghost target = apply_signal(signal.dirty(), grid@, *textures, old(render).tiles@);
    let n: usize = render.tiles.len();
    let mut idx: usize = 0;
    while idx < n
        invariant
            grid.wf(),
            n == old(render).tiles@.len(),
            n == 0 || n == GRID_CELLS,
            idx <= n,
            render.tiles@.len() == n,
            target == apply_signal(signal.dirty(), grid@, *textures, old(render).tiles@),
            forall|j: int| idx <= j < n ==> render.tiles@[j] == old(render).tiles@[j],
            forall|j: int| 0 <= j < idx ==> render.tiles@[j] == target[j],
        decreases n - idx,
    {
        let c = coord_of_index(idx);
        proof {
            lemma_fundamental_div_mod(idx as int, GRID_WIDTH as int);
        }
        let sel: bool = match &signal.0 {
            None => true,
            Some(targets) => targets.len() == 0 || contains_coord(targets, c.x, c.y),
        };
        assert(sel == selected(signal.dirty(), idx as int));
        if sel {
            let obj = grid.get(c.x as usize, c.y as usize);
            assert(obj == grid@[idx as int]);
            let id = textures.texture_for_obj(&obj);
            let t = render.tiles[idx];
            render.tiles[idx] = Tile { texture: id, x_mpx: t.x_mpx, y_mpx: t.y_mpx };
        }
        idx = idx + 1;
    }
    assert(render.tiles@ =~= target);
}

/// Idempotence law: re-applying a redraw signal against an unchanged grid
/// and registry leaves the placeholders exactly as after the first
/// application, so at-least-once delivery of a signal is safe.
pub proof fn lemma_redraw_idempotent(
    dirty: Option<Seq<TileCoord>>,
    cells: Seq<GridObject>,
    tex: BlockTextures,
    tiles: Seq<Tile>,
)
    ensures
        apply_signal(dirty, cells, tex, apply_signal(dirty, cells, tex, tiles)) == apply_signal(
            dirty,
            cells,
            tex,
            tiles,
        ),
{
    let once = apply_signal(dirty, cells, tex, tiles);
    let twice = apply_signal(dirty, cells, tex, once);
    assert forall|i: int| 0 <= i < tiles.len() implies twice[i] == once[i] by {}
    assert(twice =~= once);
}

/// The placeholders after a sequence of single-coordinate redraw signals is
/// applied, first coordinate first.
pub open spec fn apply_single_signals(
    coords: Seq<TileCoord>,
    cells: Seq<GridObject>,
    tex: BlockTextures,
    tiles: Seq<Tile>,
) -> Seq<Tile>
    decreases coords.len(),
{
    if coords.len() == 0 {
        tiles
    } else {
        apply_single_signals(
            coords.drop_first(),
            cells,
            tex,
            apply_signal(Some(seq![coords.first()]), cells, tex, tiles),
        )
    }
}

/// After a sequence of single-coordinate signals, a placeholder displays the
/// texture its cell calls for exactly when some coordinate of the sequence
/// named its cell, and is untouched otherwise.
proof fn lemma_apply_singles_pointwise(
    coords: Seq<TileCoord>,
    cells: Seq<GridObject>,
    tex: BlockTextures,
    tiles: Seq<Tile>,
)
    ensures
        apply_single_signals(coords, cells, tex, tiles).len() == tiles.len(),
        forall|i: int|
            0 <= i < tiles.len() ==> apply_single_signals(coords, cells, tex, tiles)[i] == (
            if coord_selects(coords, i) {
                with_texture(tiles[i], object_texture(tex, cells[i]))
            } else {
                tiles[i]
            }),
    decreases coords.len(),
{
    if coords.len() == 0 {
    } else {
        let single = seq![coords.first()];
        let rest = coords.drop_first();
        let mid = apply_signal(Some(single), cells, tex, tiles);
        lemma_apply_singles_pointwise(rest, cells, tex, mid);
        assert forall|i: int| 0 <= i < tiles.len() implies (coord_selects(coords, i) <==> (
        coord_selects(single, i) || coord_selects(rest, i))) by {
            if coord_selects(coords, i) {
                let k = choose|k: int|
                    0 <= k < coords.len() && coords[k].x as int == index_x(i) && coords[k].y as int
                        == index_y(i);
                if k == 0 {
                    assert(single[0] == coords[0]);
                    assert(coord_selects(single, i));
                } else {
                    assert(rest[k - 1] == coords[k]);
                    assert(coord_selects(rest, i));
                }
            }
            if coord_selects(single, i) {
                assert(coords[0] == single[0]);
                assert(coord_selects(coords, i));
            }
            if coord_selects(rest, i) {
                let k = choose|k: int|
                    0 <= k < rest.len() && rest[k].x as int == index_x(i) && rest[k].y as int
                        == index_y(i);
                assert(coords[k + 1] == rest[k]);
                assert(coord_selects(coords, i));
            }
        }
    }
}

/// Full-versus-partial equivalence law: applying single-coordinate redraw
/// signals that together name every cell of the grid, in whatever order and
/// with whatever duplicate or out-of-range coordinates among them, yields
/// the same placeholders as one full-redraw signal.
pub proof fn lemma_full_redraw_equals_singles(
    coords: Seq<TileCoord>,
    cells: Seq<GridObject>,
    tex: BlockTextures,
    tiles: Seq<Tile>,
)
    requires
        tiles.len() == GRID_CELLS,
        forall|c: TileCoord|
            c.x < GRID_WIDTH && c.y < GRID_HEIGHT ==> #[trigger] coords.contains(c),
    ensures
        apply_single_signals(coords, cells, tex, tiles) == apply_signal(None, cells, tex, tiles),
{
    lemma_apply_singles_pointwise(coords, cells, tex, tiles);
    let lhs = apply_single_signals(coords, cells, tex, tiles);
    let rhs = apply_signal(None, cells, tex, tiles);
    assert forall|i: int| 0 <= i < tiles.len() implies lhs[i] == rhs[i] by {
        assert(0 <= index_x(i) < GRID_WIDTH);
        assert(0 <= index_y(i) < GRID_HEIGHT) by (nonlinear_arith)
            requires
                0 <= i < GRID_CELLS,
        ;
        let c = TileCoord { x: index_x(i) as u16, y: index_y(i) as u16 };
        assert(coords.contains(c));
        let k = choose|k: int| 0 <= k < coords.len() && coords[k] == c;
        assert(coords[k].x as int == index_x(i) && coords[k].y as int == index_y(i));
        assert(coord_selects(coords, i));
    }
    assert(lhs =~= rhs);
}

/// Whether `targets` holds the coordinate `(x, y)`.
fn contains_coord(targets: &Vec<TileCoord>, x: u16, y: u16) -> (found: bool)
    ensures
        found == exists|k: int|
            0 <= k < targets@.len() && targets@[k].x == x && targets@[k].y == y,
{
    let n: usize = targets.len();
    let mut k: usize = 0;
    while k < n
        invariant
            n == targets@.len(),
            k <= n,
            forall|j: int| 0 <= j < k ==> !(targets@[j].x == x && targets@[j].y == y),
        decreases n - k,
    {
        let c = targets[k];
        if c.x == x && c.y == y {
            return true;
        }
        k = k + 1;
    }
    false
}

} // verus!
