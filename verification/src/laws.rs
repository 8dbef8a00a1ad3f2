//! Properties of the default layout that span inputs and calls.
use vstd::prelude::*;

use crate::grid::{
    default_rect, grid_cell, layout_rows, lemma_row_start_uniform, player_row, rect_contains,
    rects_disjoint, row_columns, row_start,
};
use crate::viewport_assign::{lemma_seq_max_is_max, seq_max};
use crate::layout::{
    default_layout_fits, default_layout_viewport, DefaultSplitScreenLayout, PixelVec2,
    SplitScreenLayout, SplitScreenViewport,
};

verus! {

/// The shape of a player's grid cell: at least one row and one column, the cell's column is
/// nonnegative, and a player below the camera count lies inside the grid.
pub proof fn lemma_grid_cell_shape(player_index: int, total_players: int)
    requires
        player_index >= 0,
    ensures
        grid_cell(player_index, total_players).rows >= 1,
        grid_cell(player_index, total_players).cols >= 1,
        grid_cell(player_index, total_players).row >= 0,
        grid_cell(player_index, total_players).col >= 0,
        1 <= total_players <= 12 && player_index < total_players ==> {
            &&& grid_cell(player_index, total_players).row < grid_cell(
                player_index,
                total_players,
            ).rows
            &&& grid_cell(player_index, total_players).col < grid_cell(
                player_index,
                total_players,
            ).cols
        },
{
    let t = total_players;
    let row = player_row(player_index, t);
    reveal_with_fuel(row_start, 4);
    if t != 3 && t != 5 && t != 7 && t != 10 && t != 11 {
        lemma_row_start_uniform(t, row);
    }
}

/// Column `col` of a span of `total` pixels cut into `n` equal parts (integer division) starts
/// at a nonnegative offset and ends within the span.
proof fn lemma_part_within(col: int, n: int, total: int)
    requires
        0 <= col < n,
        total >= 0,
    ensures
        0 <= col * (total / n),
        col * (total / n) + total / n <= n * (total / n),
        n * (total / n) <= total,
        total - n < n * (total / n),
{
    vstd::arithmetic::div_mod::lemma_fundamental_div_mod(total, n);
    vstd::arithmetic::div_mod::lemma_mod_bound(total, n);
    let q = total / n;
    assert(q >= 0) by (nonlinear_arith)
        requires
            total >= 0,
            n >= 1,
            q == total / n,
    ;
    assert(0 <= col * q && col * q + q <= n * q) by (nonlinear_arith)
        requires
            0 <= col < n,
            q >= 0,
    ;
}

/// Part `a` of a span cut into equal parts ends where a later part `b` starts, or before.
proof fn lemma_parts_ordered(a: int, b: int, q: int)
    requires
        a < b,
        q >= 0,
    ensures
        a * q + q <= b * q,
{
    assert(a * q + q <= b * q) by (nonlinear_arith)
        requires
            a < b,
            q >= 0,
    ;
}

/// Where the default layout's arithmetic stays in range, its viewport is the rectangle of the
/// player's grid cell.
pub proof fn lemma_default_viewport_is_cell_rect(
    player_index: u32,
    total_players: u32,
    window_size: PixelVec2,
)
    requires
        default_layout_fits(player_index, total_players, window_size),
    ensures
        default_layout_viewport(player_index, total_players, window_size).rect() == default_rect(
            player_index as int,
            total_players as int,
            window_size.x as int,
            window_size.y as int,
        ),
{
    let cell = grid_cell(player_index as int, total_players as int);
    lemma_grid_cell_shape(player_index as int, total_players as int);
    let w = window_size.x as int;
    let h = window_size.y as int;
    assert(0 <= w / cell.cols <= w) by (nonlinear_arith)
        requires
            w >= 0,
            cell.cols >= 1,
    ;
    assert(0 <= h / cell.rows <= h) by (nonlinear_arith)
        requires
            h >= 0,
            cell.rows >= 1,
    ;
    assert(0 <= cell.col * (w / cell.cols)) by (nonlinear_arith)
        requires
            cell.col >= 0,
            w / cell.cols >= 0,
    ;
    assert(0 <= cell.row * (h / cell.rows)) by (nonlinear_arith)
        requires
            cell.row >= 0,
            h / cell.rows >= 0,
    ;
}

/// Every camera's viewport lies within the window: for one to twelve cameras and a player
/// index below the camera count, the layout is defined and the viewport's right and bottom
/// edges do not pass the window's.
pub proof fn lemma_viewport_within_window(
    player_index: u32,
    total_players: u32,
    window_size: PixelVec2,
)
    requires
        1 <= total_players <= 12,
        player_index < total_players,
    ensures
        DefaultSplitScreenLayout::layout_defined(player_index, total_players, window_size),
        ({
            let v = DefaultSplitScreenLayout::layout_viewport(
                player_index,
                total_players,
                window_size,
            );
            &&& v.position.x + v.size.x <= window_size.x
            &&& v.position.y + v.size.y <= window_size.y
        }),
{
    let cell = grid_cell(player_index as int, total_players as int);
    let w = window_size.x as int;
    let h = window_size.y as int;
    lemma_grid_cell_shape(player_index as int, total_players as int);
    lemma_part_within(cell.col, cell.cols, w);
    lemma_part_within(cell.row, cell.rows, h);
    lemma_default_viewport_is_cell_rect(player_index, total_players, window_size);
}

/// Two different players never share a pixel: for any positive camera count, the viewports of
/// two distinct player indices below the count are disjoint. Up to twelve cameras both layouts
/// are always defined; above twelve the law holds wherever they are.
pub proof fn lemma_viewports_disjoint(
    first_index: u32,
    second_index: u32,
    total_players: u32,
    window_size: PixelVec2,
)
    requires
        total_players >= 1,
        first_index < total_players,
        second_index < total_players,
        first_index != second_index,
        total_players > 12 ==> DefaultSplitScreenLayout::layout_defined(
            first_index,
            total_players,
            window_size,
        ) && DefaultSplitScreenLayout::layout_defined(second_index, total_players, window_size),
    ensures
        rects_disjoint(
            DefaultSplitScreenLayout::layout_viewport(
                first_index,
                total_players,
                window_size,
            ).rect(),
            DefaultSplitScreenLayout::layout_viewport(
                second_index,
                total_players,
                window_size,
            ).rect(),
        ),
{
    let t = total_players as int;
    let a = grid_cell(first_index as int, t);
    let b = grid_cell(second_index as int, t);
    let w = window_size.x as int;
    let h = window_size.y as int;
    if total_players <= 12 {
        lemma_viewport_within_window(first_index, total_players, window_size);
        lemma_viewport_within_window(second_index, total_players, window_size);
    }
    lemma_default_viewport_is_cell_rect(first_index, total_players, window_size);
    lemma_default_viewport_is_cell_rect(second_index, total_players, window_size);
    lemma_grid_cell_shape(first_index as int, t);
    lemma_grid_cell_shape(second_index as int, t);
    assert(h / a.rows >= 0 && w / a.cols >= 0) by (nonlinear_arith)
        requires
            h >= 0,
            w >= 0,
            a.rows >= 1,
            a.cols >= 1,
    ;
    if a.row < b.row {
        lemma_parts_ordered(a.row, b.row, h / a.rows);
    } else if b.row < a.row {
        lemma_parts_ordered(b.row, a.row, h / a.rows);
    } else if a.col < b.col {
        lemma_parts_ordered(a.col, b.col, w / a.cols);
    } else {
        lemma_parts_ordered(b.col, a.col, w / a.cols);
    }
}

/// Every cell of the grid is taken: for one to twelve cameras, the player whose index is the
/// start of row `row` plus `col` is a camera below the count, and its cell is that row and column.
pub proof fn lemma_cell_player(total_players: int, row: int, col: int)
    requires
        1 <= total_players <= 12,
        0 <= row < layout_rows(total_players),
        0 <= col < row_columns(total_players, row),
    ensures
        0 <= row_start(total_players, row) + col < total_players,
        grid_cell(row_start(total_players, row) + col, total_players).row == row,
        grid_cell(row_start(total_players, row) + col, total_players).col == col,
{
    reveal_with_fuel(row_start, 4);
}

/// The viewports tile the window up to the pixels that integer division leaves over: for one to
/// twelve cameras, every pixel above the grid's bottom edge (`rows * (height / rows)`) and left of
/// its row's right edge (`cols * (width / cols)`) lies in the viewport of some camera below the
/// count, which is returned.
pub proof fn lemma_viewports_cover_grid(
    total_players: u32,
    window_size: PixelVec2,
    x: int,
    y: int,
) -> (player_index: u32)
    requires
        1 <= total_players <= 12,
        0 <= y < layout_rows(total_players as int) * (window_size.y as int / layout_rows(
            total_players as int,
        )),
        0 <= x < row_columns(
            total_players as int,
            y / (window_size.y as int / layout_rows(total_players as int)),
        ) * (window_size.x as int / row_columns(
            total_players as int,
            y / (window_size.y as int / layout_rows(total_players as int)),
        )),
    ensures
        player_index < total_players,
        rect_contains(
            DefaultSplitScreenLayout::layout_viewport(
                player_index,
                total_players,
                window_size,
            ).rect(),
            x,
            y,
        ),
{
    let t = total_players as int;
    let w = window_size.x as int;
    let h = window_size.y as int;
    let rows = layout_rows(t);
    let row_height = h / rows;
    assert(row_height > 0) by (nonlinear_arith)
        requires
            0 <= y < rows * row_height,
            rows >= 1,
    ;
    let row = y / row_height;
    vstd::arithmetic::div_mod::lemma_fundamental_div_mod(y, row_height);
    vstd::arithmetic::div_mod::lemma_mod_bound(y, row_height);
    assert(0 <= row < rows) by (nonlinear_arith)
        requires
            y == row_height * row + y % row_height,
            0 <= y % row_height < row_height,
            0 <= y < rows * row_height,
            row_height > 0,
    ;
    let cols = row_columns(t, row);
    let col_width = w / cols;
    assert(col_width > 0) by (nonlinear_arith)
        requires
            0 <= x < cols * col_width,
            cols >= 1,
    ;
    let col = x / col_width;
    vstd::arithmetic::div_mod::lemma_fundamental_div_mod(x, col_width);
    vstd::arithmetic::div_mod::lemma_mod_bound(x, col_width);
    assert(0 <= col < cols) by (nonlinear_arith)
        requires
            x == col_width * col + x % col_width,
            0 <= x % col_width < col_width,
            0 <= x < cols * col_width,
            col_width > 0,
    ;
    lemma_cell_player(t, row, col);
    let i = row_start(t, row) + col;
    let player_index = i as u32;
    lemma_viewport_within_window(player_index, total_players, window_size);
    lemma_default_viewport_is_cell_rect(player_index, total_players, window_size);
    assert(col * col_width <= x < col * col_width + col_width) by (nonlinear_arith)
        requires
            x == col_width * col + x % col_width,
            0 <= x % col_width < col_width,
    ;
    assert(row * row_height <= y < row * row_height + row_height) by (nonlinear_arith)
        requires
            y == row_height * row + y % row_height,
            0 <= y % row_height < row_height,
    ;
    player_index
}

/// What integer division leaves uncovered is thin: the grid's bottom edge is less than `rows`
/// pixels above the window's, and each row's right edge less than its column count left of the
/// window's.
pub proof fn lemma_grid_remainder_thin(total_players: u32, window_size: PixelVec2, row: int)
    ensures
        window_size.y as int - layout_rows(total_players as int) < layout_rows(
            total_players as int,
        ) * (window_size.y as int / layout_rows(total_players as int)) <= window_size.y,
        window_size.x as int - row_columns(total_players as int, row) < row_columns(
            total_players as int,
            row,
        ) * (window_size.x as int / row_columns(total_players as int, row)) <= window_size.x,
{
    lemma_part_within(0, layout_rows(total_players as int), window_size.y as int);
    lemma_part_within(0, row_columns(total_players as int, row), window_size.x as int);
}

/// More than twelve cameras, or none, fall back to the twelve-camera grid of three columns and
/// four rows.
pub proof fn lemma_fallback_is_twelve_grid(
    player_index: u32,
    total_players: u32,
    window_size: PixelVec2,
)
    requires
        total_players == 0 || total_players > 12,
    ensures
        DefaultSplitScreenLayout::layout_viewport(player_index, total_players, window_size)
            == DefaultSplitScreenLayout::layout_viewport(player_index, 12, window_size),
        DefaultSplitScreenLayout::layout_defined(player_index, total_players, window_size)
            == DefaultSplitScreenLayout::layout_defined(player_index, 12, window_size),
{
    let i = player_index as int;
    lemma_row_start_uniform(total_players as int, i / 3);
    lemma_row_start_uniform(12, i / 3);
}

/// A single camera takes the whole window, whatever its index.
pub proof fn lemma_single_camera_fills_window(player_index: u32, window_size: PixelVec2)
    ensures
        DefaultSplitScreenLayout::layout_defined(player_index, 1, window_size),
        DefaultSplitScreenLayout::layout_viewport(player_index, 1, window_size) == (
        SplitScreenViewport { position: PixelVec2 { x: 0, y: 0 }, size: window_size }),
{
    let w = window_size.x as int;
    let h = window_size.y as int;
    assert(w / 1 == w && h / 1 == h);
    assert(0 * w == 0 && 0 * h == 0);
}

/// A window whose cameras all have player indices below twelve meets what assigning default
/// viewports asks: the camera count does not overflow and every camera's layout is defined.
pub proof fn lemma_default_assignment_defined(player_indices: Seq<u32>, window_size: PixelVec2)
    requires
        forall|k: int| 0 <= k < player_indices.len() ==> player_indices[k] < 12,
    ensures
        player_indices.len() > 0 ==> seq_max(player_indices) < u32::MAX,
        forall|k: int|
            0 <= k < player_indices.len() ==> DefaultSplitScreenLayout::layout_defined(
                #[trigger] player_indices[k],
                (seq_max(player_indices) + 1) as u32,
                window_size,
            ),
{
    lemma_seq_max_is_max(player_indices);
    if player_indices.len() > 0 {
        let k = choose|k: int| 0 <= k < player_indices.len() && player_indices[k] == seq_max(player_indices);
        assert(player_indices[k] < 12);
    }
    assert forall|k: int| 0 <= k < player_indices.len() implies DefaultSplitScreenLayout::layout_defined(
        #[trigger] player_indices[k],
        (seq_max(player_indices) + 1) as u32,
        window_size,
    ) by {
        lemma_viewport_within_window(player_indices[k], (seq_max(player_indices) + 1) as u32, window_size);
    }
}

/// The grid cell of the next player is the next column of the same row, or the first column of
/// the next row.
proof fn lemma_next_cell(player_index: int, total_players: int)
    requires
        1 <= total_players <= 12,
        0 <= player_index,
        player_index + 1 < total_players,
    ensures
        ({
            let a = grid_cell(player_index, total_players);
            let b = grid_cell(player_index + 1, total_players);
            ||| b.row == a.row && b.col == a.col + 1 && b.cols == a.cols
            ||| b.row == a.row + 1 && b.col == 0
        }),
{
    let t = total_players;
    reveal_with_fuel(row_start, 4);
    if t != 3 && t != 5 && t != 7 && t != 10 && t != 11 {
        lemma_row_start_uniform(t, player_row(player_index, t));
        lemma_row_start_uniform(t, player_row(player_index + 1, t));
    }
}

/// Player 0 is in the top left corner: for one to twelve cameras its viewport starts at the
/// window's origin.
pub proof fn lemma_first_player_at_origin(total_players: u32, window_size: PixelVec2)
    requires
        1 <= total_players <= 12,
    ensures
        DefaultSplitScreenLayout::layout_viewport(0, total_players, window_size).position == (
        PixelVec2 { x: 0, y: 0 }),
{
    lemma_viewport_within_window(0, total_players, window_size);
    lemma_default_viewport_is_cell_rect(0, total_players, window_size);
    let cell = grid_cell(0, total_players as int);
    assert(cell.row == 0 && cell.col == 0);
    assert(0 * (window_size.x as int / cell.cols) == 0);
    assert(0 * (window_size.y as int / cell.rows) == 0);
}

/// Players fill the grid row by row from the top, left to right: for one to twelve cameras, the
/// viewport of player `player_index + 1` either starts where that of `player_index` ends, on the
/// same row, or starts at the left edge of the window just below it.
pub proof fn lemma_players_fill_rows_in_order(
    player_index: u32,
    total_players: u32,
    window_size: PixelVec2,
)
    requires
        1 <= total_players <= 12,
        player_index + 1 < total_players,
    ensures
        ({
            let a = DefaultSplitScreenLayout::layout_viewport(
                player_index,
                total_players,
                window_size,
            );
            let b = DefaultSplitScreenLayout::layout_viewport(
                (player_index + 1) as u32,
                total_players,
                window_size,
            );
            ||| b.position.y == a.position.y && b.position.x == a.position.x + a.size.x
            ||| b.position.x == 0 && b.position.y == a.position.y + a.size.y
        }),
{
    let i = player_index as int;
    let t = total_players as int;
    let next = (player_index + 1) as u32;
    lemma_viewport_within_window(player_index, total_players, window_size);
    lemma_viewport_within_window(next, total_players, window_size);
    lemma_default_viewport_is_cell_rect(player_index, total_players, window_size);
    lemma_default_viewport_is_cell_rect(next, total_players, window_size);
    lemma_next_cell(i, t);
    let a = grid_cell(i, t);
    let b = grid_cell(i + 1, t);
    let cw = window_size.x as int / a.cols;
    let rh = window_size.y as int / a.rows;
    assert(b.rows == a.rows);
    if b.row == a.row && b.col == a.col + 1 && b.cols == a.cols {
        assert(b.col * cw == a.col * cw + cw) by (nonlinear_arith)
            requires
                b.col == a.col + 1,
        ;
    } else {
        assert(b.row * rh == a.row * rh + rh) by (nonlinear_arith)
            requires
                b.row == a.row + 1,
        ;
        assert(b.col * (window_size.x as int / b.cols) == 0) by (nonlinear_arith)
            requires
                b.col == 0,
        ;
    }
}

/// The shape of the default grid, row by row: one camera fills the window; two stack; three put
/// one wide viewport over two; four are quadrants; five put two over three; six are three by two;
/// seven are rows of 2, 2, 3; eight are two by four; nine three by three; ten are rows of 2, 3, 2,
/// 3; eleven rows of 2, 3, 3, 3; twelve three by four. Each viewport is as wide as the window
/// divided by the number of viewports in its row, and as high as the window divided by the
/// number of rows.
pub proof fn lemma_grid_shape(player_index: u32, total_players: u32, window_size: PixelVec2)
    requires
        1 <= total_players <= 12,
        player_index < total_players,
    ensures
        ({
            let t = total_players;
            let i = player_index;
            let rows: int = if t == 1 {
                1
            } else if t <= 6 {
                2
            } else if t == 7 || t == 9 {
                3
            } else {
                4
            };
            let in_row: int = if t <= 2 {
                1
            } else if t == 3 {
                if i == 0 { 1 } else { 2 }
            } else if t == 4 || t == 8 {
                2
            } else if t == 5 {
                if i < 2 { 2 } else { 3 }
            } else if t == 7 {
                if i < 4 { 2 } else { 3 }
            } else if t == 10 {
                if i < 2 || (5 <= i && i < 7) { 2 } else { 3 }
            } else if t == 11 {
                if i < 2 { 2 } else { 3 }
            } else {
                3
            };
            let v = DefaultSplitScreenLayout::layout_viewport(i, t, window_size);
            &&& v.size.x == window_size.x as int / in_row
            &&& v.size.y == window_size.y as int / rows
        }),
{
    lemma_viewport_within_window(player_index, total_players, window_size);
    lemma_default_viewport_is_cell_rect(player_index, total_players, window_size);
}

} // verus!
