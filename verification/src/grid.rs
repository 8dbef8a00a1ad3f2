//! The grid model of the default layout.
//!
//! The default layout splits the window into horizontal rows of equal height; each row is split
//! into columns of equal width, and the number of columns may differ from row to row. A player
//! occupies one cell of that grid.
use vstd::prelude::*;

verus! {

/// A player's cell in the grid: its row and column, the number of rows of the layout and the
/// number of columns of the player's row.
pub struct GridCell {
    pub row: int,
    pub col: int,
    pub rows: int,
    pub cols: int,
}

/// Number of rows that the default layout uses for `total_players` cameras.
/// Counts of zero and above twelve use the twelve-player grid.
pub open spec fn layout_rows(total_players: int) -> int {
    if total_players == 1 {
        1
    } else if 2 <= total_players <= 6 {
        2
    } else if total_players == 7 || total_players == 9 {
        3
    } else {
        4
    }
}

/// Number of columns of row `row` in the default layout for `total_players` cameras.
pub open spec fn row_columns(total_players: int, row: int) -> int {
    if total_players == 1 || total_players == 2 {
        1
    } else if total_players == 3 {
        if row == 0 { 1 } else { 2 }
    } else if total_players == 4 || total_players == 8 {
        2
    } else if total_players == 5 {
        if row == 0 { 2 } else { 3 }
    } else if total_players == 7 {
        if row < 2 { 2 } else { 3 }
    } else if total_players == 10 {
        if row == 0 || row == 2 { 2 } else { 3 }
    } else if total_players == 11 {
        if row == 0 { 2 } else { 3 }
    } else {
        3
    }
}

/// Index of the first player of row `row`: the players fill the grid row by row, left to right.
pub open spec fn row_start(total_players: int, row: int) -> int
    decreases row,
{
    if row <= 0 {
        0
    } else {
        row_start(total_players, row - 1) + row_columns(total_players, row - 1)
    }
}

/// The row of `player_index` in the default layout for `total_players` cameras.
pub open spec fn player_row(player_index: int, total_players: int) -> int {
    if total_players == 1 {
        0
    } else if total_players == 2 {
        player_index
    } else if total_players == 3 {
        if player_index == 0 { 0 } else { 1 }
    } else if total_players == 4 || total_players == 8 {
        player_index / 2
    } else if total_players == 5 {
        if player_index < 2 { 0 } else { 1 }
    } else if total_players == 6 || total_players == 9 {
        player_index / 3
    } else if total_players == 7 {
        if player_index < 2 { 0 } else if player_index < 4 { 1 } else { 2 }
    } else if total_players == 10 {
        if player_index < 2 { 0 } else if player_index < 5 { 1 } else if player_index < 7 { 2 } else { 3 }
    } else if total_players == 11 {
        if player_index < 2 { 0 } else if player_index < 5 { 1 } else if player_index < 8 { 2 } else { 3 }
    } else {
        player_index / 3
    }
}

/// The cell of `player_index` in the default layout for `total_players` cameras. A single
/// camera takes the whole window whatever its index.
pub open spec fn grid_cell(player_index: int, total_players: int) -> GridCell {
    let row = player_row(player_index, total_players);
    GridCell {
        row,
        col: if total_players == 1 { 0 } else { player_index - row_start(total_players, row) },
        rows: layout_rows(total_players),
        cols: row_columns(total_players, row),
    }
}

/// The rectangle of a grid cell in a window of `width` by `height` pixels, as
/// `(x, y, width, height)`: the window is cut into `rows` rows of height `height / rows`, and the
/// cell's row into `cols` columns of width `width / cols` (integer division).
pub open spec fn cell_rect(cell: GridCell, width: int, height: int) -> (int, int, int, int) {
    let cell_width = width / cell.cols;
    let cell_height = height / cell.rows;
    (cell.col * cell_width, cell.row * cell_height, cell_width, cell_height)
}

/// The rectangle, `(x, y, width, height)`, that the default layout gives `player_index` among
/// `total_players` cameras in a window of `width` by `height` pixels.
pub open spec fn default_rect(player_index: int, total_players: int, width: int, height: int) -> (
    int,
    int,
    int,
    int,
) {
    cell_rect(grid_cell(player_index, total_players), width, height)
}

/// Rows whose column count is the same throughout the layout start at a multiple of it.
pub proof fn lemma_row_start_uniform(total_players: int, row: int)
    requires
        row >= 0,
        total_players != 3 && total_players != 5 && total_players != 7 && total_players != 10
            && total_players != 11,
    ensures
        row_start(total_players, row) == row_columns(total_players, 0) * row,
    decreases row,
{
    if row > 0 {
        lemma_row_start_uniform(total_players, row - 1);
        let c = row_columns(total_players, 0);
        assert(row_columns(total_players, row - 1) == c);
        assert(c * (row - 1) + c == c * row) by (nonlinear_arith);
    }
}

/// Whether pixel `(x, y)` lies in the rectangle `r`.
pub open spec fn rect_contains(r: (int, int, int, int), x: int, y: int) -> bool {
    r.0 <= x < r.0 + r.2 && r.1 <= y < r.1 + r.3
}

/// Whether two rectangles share no pixel.
pub open spec fn rects_disjoint(a: (int, int, int, int), b: (int, int, int, int)) -> bool {
    a.0 + a.2 <= b.0 || b.0 + b.2 <= a.0 || a.1 + a.3 <= b.1 || b.1 + b.3 <= a.1
}

} // verus!
