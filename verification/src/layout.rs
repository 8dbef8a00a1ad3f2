//! Viewport rectangles and the layouts that compute them.
use vstd::prelude::*;

use crate::grid::{default_rect, grid_cell, lemma_row_start_uniform, row_start};

verus! {

/// Two unsigned components in physical pixels: a size (`x` wide, `y` high) or a position
/// (`x` from the left edge, `y` from the top edge).
#[derive(Clone, Copy, Debug, PartialEq, Eq, Structural)]
pub struct PixelVec2 {
    pub x: u32,
    pub y: u32,
}

impl PixelVec2 {
    /// The vector with the given components.
    pub fn new(x: u32, y: u32) -> (v: PixelVec2)
        ensures
            v.x == x,
            v.y == y,
    {
        PixelVec2 { x, y }
    }
}

/// A viewport's position and size, in physical pixels.
#[derive(Clone, Copy, Debug, PartialEq, Eq, Structural)]
pub struct SplitScreenViewport {
    pub position: PixelVec2,
    pub size: PixelVec2,
}

impl SplitScreenViewport {
    /// The viewport as a rectangle `(x, y, width, height)` of integers.
    pub open spec fn rect(self) -> (int, int, int, int) {
        (
            self.position.x as int,
            self.position.y as int,
            self.size.x as int,
            self.size.y as int,
        )
    }
}

/// Computes viewport rectangles for split screen cameras.
pub trait SplitScreenLayout {
    /// The largest camera count this layout knows how to arrange.
    const MAX_SPLIT_SCREEN_COUNT: u32;

    /// The inputs on which the layout computes a viewport (its arithmetic stays in range).
    spec fn layout_defined(player_index: u32, total_players: u32, window_size: PixelVec2) -> bool;

    /// The viewport that the layout gives `player_index` among `total_players` cameras.
    spec fn layout_viewport(
        player_index: u32,
        total_players: u32,
        window_size: PixelVec2,
    ) -> SplitScreenViewport;

    /// Tells whether the layout computes a viewport for these inputs.
    fn is_layout_defined(player_index: u32, total_players: u32, window_size: PixelVec2) -> (b:
        bool)
        ensures
            b == Self::layout_defined(player_index, total_players, window_size),
    ;

    /// Returns `player_index`'s viewport within `window_size` given `total_players` active
    /// cameras.
    fn calculate_split_screen_layout(
        player_index: u32,
        total_players: u32,
        window_size: PixelVec2,
    ) -> (v: SplitScreenViewport)
        requires
            Self::layout_defined(player_index, total_players, window_size),
        ensures
            v == Self::layout_viewport(player_index, total_players, window_size),
    ;
}

/// Grid layout supporting up to 12 players
pub struct DefaultSplitScreenLayout;

/// Whether the default layout's rectangle for these inputs has a position that fits in `u32`
/// (its size always does).
pub open spec fn default_layout_fits(
    player_index: u32,
    total_players: u32,
    window_size: PixelVec2,
) -> bool {
    let r = default_rect(
        player_index as int,
        total_players as int,
        window_size.x as int,
        window_size.y as int,
    );
    r.0 <= u32::MAX && r.1 <= u32::MAX
}

/// The viewport of the default layout: the rectangle of the player's grid cell.
pub open spec fn default_layout_viewport(
    player_index: u32,
    total_players: u32,
    window_size: PixelVec2,
) -> SplitScreenViewport {
    let r = default_rect(
        player_index as int,
        total_players as int,
        window_size.x as int,
        window_size.y as int,
    );
    SplitScreenViewport {
        position: PixelVec2 { x: r.0 as u32, y: r.1 as u32 },
        size: PixelVec2 { x: r.2 as u32, y: r.3 as u32 },
    }
}

/// The cell of `player_index` among `total_players` cameras, as `(row, col, rows, cols)`.
fn grid_cell_of(player_index: u32, total_players: u32) -> (c: (u32, u32, u32, u32))
    ensures
        c.0 as int == grid_cell(player_index as int, total_players as int).row,
        c.1 as int == grid_cell(player_index as int, total_players as int).col,
        c.2 as int == grid_cell(player_index as int, total_players as int).rows,
        c.3 as int == grid_cell(player_index as int, total_players as int).cols,
        c.2 >= 1,
        c.3 >= 1,
{
    let i = player_index;
    let t = total_players;
    proof {
        let row = grid_cell(i as int, t as int).row;
        if row >= 0 && t != 3 && t != 5 && t != 7 && t != 10 && t != 11 {
            lemma_row_start_uniform(t as int, row);
        }
        reveal_with_fuel(row_start, 5);
    }
    if t == 1 {
        (0, 0, 1, 1)
    } else if t == 2 {
        (i, 0, 2, 1)
    } else if t == 3 {
        if i == 0 { (0, 0, 2, 1) } else { (1, i - 1, 2, 2) }
    } else if t == 4 {
        (i / 2, i % 2, 2, 2)
    } else if t == 5 {
        if i < 2 { (0, i, 2, 2) } else { (1, i - 2, 2, 3) }
    } else if t == 6 {
        (i / 3, i % 3, 2, 3)
    } else if t == 7 {
        if i < 2 { (0, i, 3, 2) } else if i < 4 { (1, i - 2, 3, 2) } else { (2, i - 4, 3, 3) }
    } else if t == 8 {
        (i / 2, i % 2, 4, 2)
    } else if t == 9 {
        (i / 3, i % 3, 3, 3)
    } else if t == 10 {
        if i < 2 {
            (0, i, 4, 2)
        } else if i < 5 {
            (1, i - 2, 4, 3)
        } else if i < 7 {
            (2, i - 5, 4, 2)
        } else {
            (3, i - 7, 4, 3)
        }
    } else if t == 11 {
        if i < 2 {
            (0, i, 4, 2)
        } else if i < 5 {
            (1, i - 2, 4, 3)
        } else if i < 8 {
            (2, i - 5, 4, 3)
        } else {
            (3, i - 8, 4, 3)
        }
    } else {
        (i / 3, i % 3, 4, 3)
    }
}

impl SplitScreenLayout for DefaultSplitScreenLayout {
    const MAX_SPLIT_SCREEN_COUNT: u32 = 12;

    open spec fn layout_defined(
        player_index: u32,
        total_players: u32,
        window_size: PixelVec2,
    ) -> bool {
        default_layout_fits(player_index, total_players, window_size)
    }

    open spec fn layout_viewport(
        player_index: u32,
        total_players: u32,
        window_size: PixelVec2,
    ) -> SplitScreenViewport {
        default_layout_viewport(player_index, total_players, window_size)
    }

    fn is_layout_defined(player_index: u32, total_players: u32, window_size: PixelVec2) -> (b:
        bool) {
        let (row, col, rows, cols) = grid_cell_of(player_index, total_players);
        let cell_width: u32 = window_size.x / cols;
        let cell_height: u32 = window_size.y / rows;
        proof {
            lemma_product_fits_u64(col, cell_width);
            lemma_product_fits_u64(row, cell_height);
        }
        let x: u64 = col as u64 * cell_width as u64;
        let y: u64 = row as u64 * cell_height as u64;
        x <= u32::MAX as u64 && y <= u32::MAX as u64
    }

    fn calculate_split_screen_layout(
        player_index: u32,
        total_players: u32,
        window_size: PixelVec2,
    ) -> (v: SplitScreenViewport) {
        let ghost cell = grid_cell(player_index as int, total_players as int);
        proof {
            let t = total_players;
            if cell.row >= 0 && t != 3 && t != 5 && t != 7 && t != 10 && t != 11 {
                lemma_row_start_uniform(t as int, cell.row);
            }
            reveal_with_fuel(row_start, 5);
            assert((window_size.x as int) / 1 == window_size.x);
            assert((window_size.y as int) / 1 == window_size.y);
        }
        let (position, size): (PixelVec2, PixelVec2) = match total_players {
            1 => {
                let pos = PixelVec2::new(0, 0);
                let size = window_size;
                proof {
                    lemma_mul_small(cell.col, size.x as int);
                    lemma_mul_small(cell.row, size.y as int);
                    lemma_rect_of_cell(player_index, total_players, window_size, pos, size);
                }
                (pos, size)
            },
            2 => {
                let size = PixelVec2::new(window_size.x, window_size.y / 2);
                let pos = PixelVec2::new(0, player_index * size.y);
                proof {
                    lemma_mul_small(cell.col, size.x as int);
                    lemma_rect_of_cell(player_index, total_players, window_size, pos, size);
                }
                (pos, size)
            },
            3 => {
                if player_index == 0 {
                    let pos = PixelVec2::new(0, 0);
                    let size = PixelVec2::new(window_size.x, window_size.y / 2);
                    proof {
                        lemma_mul_small(cell.col, size.x as int);
                        lemma_mul_small(cell.row, size.y as int);
                        lemma_rect_of_cell(player_index, total_players, window_size, pos, size);
                    }
                    (pos, size)
                } else {
                    let size = PixelVec2::new(window_size.x / 2, window_size.y / 2);
                    let pos = PixelVec2::new((player_index - 1) * size.x, window_size.y / 2);
                    proof {
                        lemma_mul_small(cell.row, size.y as int);
                        lemma_rect_of_cell(player_index, total_players, window_size, pos, size);
                    }
                    (pos, size)
                }
            },
            4 => {
                let size = PixelVec2::new(window_size.x / 2, window_size.y / 2);
                let pos = PixelVec2::new((player_index % 2) * size.x, (player_index / 2) * size.y);
                proof {
                    lemma_rect_of_cell(player_index, total_players, window_size, pos, size);
                }
                (pos, size)
            },
            5 => {
                if player_index < 2 {
                    let size = PixelVec2::new(window_size.x / 2, window_size.y / 2);
                    let pos = PixelVec2::new(player_index * size.x, 0);
                    proof {
                        lemma_mul_small(cell.row, size.y as int);
                        lemma_rect_of_cell(player_index, total_players, window_size, pos, size);
                    }
                    (pos, size)
                } else {
                    let size = PixelVec2::new(window_size.x / 3, window_size.y / 2);
                    let pos = PixelVec2::new((player_index - 2) * size.x, window_size.y / 2);
                    proof {
                        lemma_mul_small(cell.row, size.y as int);
                        lemma_rect_of_cell(player_index, total_players, window_size, pos, size);
                    }
                    (pos, size)
                }
            },
            6 => {
                let size = PixelVec2::new(window_size.x / 3, window_size.y / 2);
                let pos = PixelVec2::new((player_index % 3) * size.x, (player_index / 3) * size.y);
                proof {
                    lemma_rect_of_cell(player_index, total_players, window_size, pos, size);
                }
                (pos, size)
            },
            7 => {
                let row: u32 = if player_index < 2 {
                    0
                } else if player_index < 4 {
                    1
                } else {
                    2
                };
                let col_in_row: u32 = if player_index < 2 {
                    player_index
                } else if player_index < 4 {
                    player_index - 2
                } else {
                    player_index - 4
                };
                let cols_in_row: u32 = if row == 2 {
                    3
                } else {
                    2
                };
                let size = PixelVec2::new(window_size.x / cols_in_row, window_size.y / 3);
                let pos = PixelVec2::new(col_in_row * size.x, row * size.y);
                proof {
                    lemma_rect_of_cell(player_index, total_players, window_size, pos, size);
                }
                (pos, size)
            },
            8 => {
                let size = PixelVec2::new(window_size.x / 2, window_size.y / 4);
                let pos = PixelVec2::new((player_index % 2) * size.x, (player_index / 2) * size.y);
                proof {
                    lemma_rect_of_cell(player_index, total_players, window_size, pos, size);
                }
                (pos, size)
            },
            9 => {
                let size = PixelVec2::new(window_size.x / 3, window_size.y / 3);
                let pos = PixelVec2::new((player_index % 3) * size.x, (player_index / 3) * size.y);
                proof {
                    lemma_rect_of_cell(player_index, total_players, window_size, pos, size);
                }
                (pos, size)
            },
            10 => {
                // 4 rows: 2, 3, 2, 3
                let (row, col_in_row, cols_in_row): (u32, u32, u32) = if player_index < 2 {
                    (0, player_index, 2)
                } else if player_index < 5 {
                    (1, player_index - 2, 3)
                } else if player_index < 7 {
                    (2, player_index - 5, 2)
                } else {
                    (3, player_index - 7, 3)
                };
                let size = PixelVec2::new(window_size.x / cols_in_row, window_size.y / 4);
                let pos = PixelVec2::new(col_in_row * size.x, row * size.y);
                proof {
                    lemma_rect_of_cell(player_index, total_players, window_size, pos, size);
                }
                (pos, size)
            },
            11 => {
                // 4 rows: 2, 3, 3, 3
                let (row, col_in_row, cols_in_row): (u32, u32, u32) = if player_index < 2 {
                    (0, player_index, 2)
                } else if player_index < 5 {
                    (1, player_index - 2, 3)
                } else if player_index < 8 {
                    (2, player_index - 5, 3)
                } else {
                    (3, player_index - 8, 3)
                };
                let size = PixelVec2::new(window_size.x / cols_in_row, window_size.y / 4);
                let pos = PixelVec2::new(col_in_row * size.x, row * size.y);
                proof {
                    lemma_rect_of_cell(player_index, total_players, window_size, pos, size);
                }
                (pos, size)
            },
            12 => {
                // 4 rows of 3
                let size = PixelVec2::new(window_size.x / 3, window_size.y / 4);
                let pos = PixelVec2::new((player_index % 3) * size.x, (player_index / 3) * size.y);
                proof {
                    lemma_rect_of_cell(player_index, total_players, window_size, pos, size);
                }
                (pos, size)
            },
            _ => {
                // No camera count or more than 12: the 3 by 4 grid
                let size = PixelVec2::new(window_size.x / 3, window_size.y / 4);
                let pos = PixelVec2::new((player_index % 3) * size.x, (player_index / 3) * size.y);
                proof {
                    lemma_rect_of_cell(player_index, total_players, window_size, pos, size);
                }
                (pos, size)
            },
        };
        SplitScreenViewport { position, size }
    }
}

/// A position and size computed as the column and row of the player's cell times the cell's
/// width and height are the player's rectangle.
proof fn lemma_rect_of_cell(
    player_index: u32,
    total_players: u32,
    window_size: PixelVec2,
    pos: PixelVec2,
    size: PixelVec2,
)
    requires
        ({
            let cell = grid_cell(player_index as int, total_players as int);
            &&& size.x as int == window_size.x as int / cell.cols
            &&& size.y as int == window_size.y as int / cell.rows
            &&& pos.x as int == cell.col * size.x
            &&& pos.y as int == cell.row * size.y
        }),
    ensures
        default_rect(
            player_index as int,
            total_players as int,
            window_size.x as int,
            window_size.y as int,
        ) == (pos.x as int, pos.y as int, size.x as int, size.y as int),
{
}

/// Multiplying by zero gives zero and by one gives the other factor.
proof fn lemma_mul_small(a: int, b: int)
    ensures
        a == 0 ==> a * b == 0,
        a == 1 ==> a * b == b,
{
    assert(a == 0 ==> a * b == 0) by (nonlinear_arith);
    assert(a == 1 ==> a * b == b) by (nonlinear_arith);
}

/// The product of two `u32` values fits in a `u64`.
proof fn lemma_product_fits_u64(a: u32, b: u32)
    ensures
        (a as int) * (b as int) <= u64::MAX,
{
    assert((a as int) * (b as int) <= (u32::MAX as int) * (u32::MAX as int)) by (nonlinear_arith)
        requires
            0 <= a <= u32::MAX,
            0 <= b <= u32::MAX,
    ;
}

} // verus!
