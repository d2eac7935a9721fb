use tetris_grid::grid::{BlockColor, Grid, GridObject, GRID_HEIGHT, GRID_WIDTH};

#[test]
fn default_board_is_all_empty() {
    let board = Grid::default();
    for x in 0..GRID_WIDTH {
        for y in 0..GRID_HEIGHT {
            assert_eq!(board.get(x, y), GridObject::Empty);
        }
    }
}

#[test]
fn set_replaces_only_the_named_cell() {
    let mut board = Grid::default();
    board.set(2, 3, GridObject::Tetrino(BlockColor::Red));
    for x in 0..GRID_WIDTH {
        for y in 0..GRID_HEIGHT {
            if (x, y) == (2, 3) {
                assert_eq!(board.get(x, y), GridObject::Tetrino(BlockColor::Red));
            } else {
                assert_eq!(board.get(x, y), GridObject::Empty);
            }
        }
    }
}

#[test]
fn set_overwrites_unconditionally() {
    let mut board = Grid::default();
    board.set(9, 19, GridObject::Tetrino(BlockColor::Blue));
    board.set(9, 19, GridObject::Tetrino(BlockColor::Yellow));
    assert_eq!(board.get(9, 19), GridObject::Tetrino(BlockColor::Yellow));
    board.set(9, 19, GridObject::Empty);
    assert_eq!(board.get(9, 19), GridObject::Empty);
}
