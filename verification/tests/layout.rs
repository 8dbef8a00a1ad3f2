use bevy_split_screen::{
    max_player_index, viewports_for_window, DefaultSplitScreenLayout, PixelVec2,
    SplitScreenCamera, SplitScreenLayout, SplitScreenViewport,
};

fn vp(px: u32, py: u32, sx: u32, sy: u32) -> SplitScreenViewport {
    SplitScreenViewport { position: PixelVec2::new(px, py), size: PixelVec2::new(sx, sy) }
}

fn layout(index: u32, total: u32, w: u32, h: u32) -> SplitScreenViewport {
    let window = PixelVec2::new(w, h);
    assert!(DefaultSplitScreenLayout::is_layout_defined(index, total, window));
    DefaultSplitScreenLayout::calculate_split_screen_layout(index, total, window)
}

#[test]
fn max_split_screen_count_is_twelve() {
    assert_eq!(DefaultSplitScreenLayout::MAX_SPLIT_SCREEN_COUNT, 12);
}

#[test]
fn camera_marker_keeps_index() {
    assert_eq!(SplitScreenCamera::new(7).player_index, 7);
}

#[test]
fn one_player_fills_window() {
    assert_eq!(layout(0, 1, 1920, 1080), vp(0, 0, 1920, 1080));
    // the index is ignored for a single camera
    assert_eq!(layout(5, 1, 1920, 1080), vp(0, 0, 1920, 1080));
}

#[test]
fn two_players_stack_vertically() {
    assert_eq!(layout(0, 2, 1920, 1080), vp(0, 0, 1920, 540));
    assert_eq!(layout(1, 2, 1920, 1080), vp(0, 540, 1920, 540));
}

#[test]
fn three_players_one_wide_on_top() {
    assert_eq!(layout(0, 3, 1920, 1080), vp(0, 0, 1920, 540));
    assert_eq!(layout(1, 3, 1920, 1080), vp(0, 540, 960, 540));
    assert_eq!(layout(2, 3, 1920, 1080), vp(960, 540, 960, 540));
}

#[test]
fn four_players_quadrants() {
    assert_eq!(layout(0, 4, 1920, 1080), vp(0, 0, 960, 540));
    assert_eq!(layout(1, 4, 1920, 1080), vp(960, 0, 960, 540));
    assert_eq!(layout(2, 4, 1920, 1080), vp(0, 540, 960, 540));
    assert_eq!(layout(3, 4, 1920, 1080), vp(960, 540, 960, 540));
}

#[test]
fn five_players_two_then_three() {
    assert_eq!(layout(1, 5, 1920, 1080), vp(960, 0, 960, 540));
    assert_eq!(layout(2, 5, 1920, 1080), vp(0, 540, 640, 540));
    assert_eq!(layout(4, 5, 1920, 1080), vp(1280, 540, 640, 540));
}

#[test]
fn six_players_three_by_two() {
    assert_eq!(layout(4, 6, 1920, 1080), vp(640, 540, 640, 540));
}

#[test]
fn seven_players_rows_of_two_two_three() {
    assert_eq!(layout(1, 7, 1920, 1080), vp(960, 0, 960, 360));
    assert_eq!(layout(3, 7, 1920, 1080), vp(960, 360, 960, 360));
    assert_eq!(layout(6, 7, 1920, 1080), vp(1280, 720, 640, 360));
}

#[test]
fn eight_and_nine_players() {
    assert_eq!(layout(7, 8, 1920, 1080), vp(960, 810, 960, 270));
    assert_eq!(layout(8, 9, 1920, 1080), vp(1280, 720, 640, 360));
}

#[test]
fn ten_players_rows_of_two_three_two_three() {
    assert_eq!(layout(4, 10, 1920, 1080), vp(1280, 270, 640, 270));
    assert_eq!(layout(6, 10, 1920, 1080), vp(960, 540, 960, 270));
    assert_eq!(layout(9, 10, 1920, 1080), vp(1280, 810, 640, 270));
}

#[test]
fn eleven_and_twelve_players() {
    assert_eq!(layout(7, 11, 1920, 1080), vp(1280, 540, 640, 270));
    assert_eq!(layout(8, 11, 1920, 1080), vp(0, 810, 640, 270));
    assert_eq!(layout(11, 12, 1920, 1080), vp(1280, 810, 640, 270));
}

#[test]
fn odd_window_rounds_down() {
    assert_eq!(layout(2, 3, 1001, 701), vp(500, 350, 500, 350));
    assert_eq!(layout(8, 9, 1000, 700), vp(666, 466, 333, 233));
}

#[test]
fn more_than_twelve_or_none_falls_back_to_twelve_grid() {
    for total in [0u32, 13, 20, 1000] {
        for index in 0..12u32 {
            assert_eq!(layout(index, total, 1920, 1080), layout(index, 12, 1920, 1080));
        }
    }
    assert_eq!(layout(14, 20, 1920, 1080), vp(1280, 1080, 640, 270));
}

#[test]
fn index_beyond_count_still_computed() {
    assert_eq!(layout(3, 2, 100, 100), vp(0, 150, 100, 50));
}

#[test]
fn position_overflow_is_reported() {
    let window = PixelVec2::new(4000, 4000);
    assert!(!DefaultSplitScreenLayout::is_layout_defined(u32::MAX, 20, window));
    assert!(!DefaultSplitScreenLayout::is_layout_defined(u32::MAX, 2, window));
    assert!(DefaultSplitScreenLayout::is_layout_defined(u32::MAX, 2, PixelVec2::new(4000, 1)));
    assert!(DefaultSplitScreenLayout::is_layout_defined(u32::MAX, 1, window));
}

fn within(v: SplitScreenViewport, w: u32, h: u32) -> bool {
    v.position.x as u64 + v.size.x as u64 <= w as u64 && v.position.y as u64 + v.size.y as u64 <= h as u64
}

fn disjoint(a: SplitScreenViewport, b: SplitScreenViewport) -> bool {
    let (ax, ay, aw, ah) = (a.position.x as u64, a.position.y as u64, a.size.x as u64, a.size.y as u64);
    let (bx, by, bw, bh) = (b.position.x as u64, b.position.y as u64, b.size.x as u64, b.size.y as u64);
    ax + aw <= bx || bx + bw <= ax || ay + ah <= by || by + bh <= ay
}

#[test]
fn viewports_within_window_and_disjoint() {
    for (w, h) in [(1920u32, 1080u32), (1001, 701), (7, 5), (1, 1), (0, 0), (u32::MAX, u32::MAX)] {
        for total in 1..=12u32 {
            let all: Vec<SplitScreenViewport> = (0..total).map(|i| layout(i, total, w, h)).collect();
            for i in 0..all.len() {
                assert!(within(all[i], w, h));
                for j in 0..all.len() {
                    if i != j {
                        assert!(disjoint(all[i], all[j]));
                    }
                }
            }
        }
    }
}

#[test]
fn viewports_cover_window_up_to_rounding() {
    let (w, h) = (37u32, 29u32);
    for total in 1..=12u32 {
        let all: Vec<SplitScreenViewport> = (0..total).map(|i| layout(i, total, w, h)).collect();
        let mut covered = 0u64;
        for v in &all {
            covered += v.size.x as u64 * v.size.y as u64;
        }
        // at most `cols - 1` columns and `rows - 1` rows of pixels are left over
        assert!(covered <= w as u64 * h as u64);
        assert!(w as u64 * h as u64 - covered <= 3 * h as u64 + 4 * w as u64);
        for y in 0..h {
            for x in 0..w {
                let n = all.iter().filter(|v| {
                    x >= v.position.x && x < v.position.x + v.size.x && y >= v.position.y && y < v.position.y + v.size.y
                }).count();
                assert!(n <= 1);
            }
        }
    }
}

#[test]
fn largest_index() {
    assert_eq!(max_player_index(&vec![]), None);
    assert_eq!(max_player_index(&vec![4]), Some(4));
    assert_eq!(max_player_index(&vec![2, 9, 0, 3]), Some(9));
}

#[test]
fn viewports_for_cameras_of_window() {
    let window = PixelVec2::new(1920, 1080);
    assert!(viewports_for_window::<DefaultSplitScreenLayout>(&vec![], window).is_empty());
    let v = viewports_for_window::<DefaultSplitScreenLayout>(&vec![1, 0], window);
    assert_eq!(v, vec![vp(0, 540, 1920, 540), vp(0, 0, 1920, 540)]);
    // the camera count is one more than the largest index, even with gaps
    let v = viewports_for_window::<DefaultSplitScreenLayout>(&vec![3], window);
    assert_eq!(v, vec![layout(3, 4, 1920, 1080)]);
}

#[test]
fn every_pixel_of_the_grid_is_shown_once() {
    // columns of each row, for one to twelve cameras
    let rows: [&[u32]; 12] = [
        &[1],
        &[1, 1],
        &[1, 2],
        &[2, 2],
        &[2, 3],
        &[3, 3],
        &[2, 2, 3],
        &[2, 2, 2, 2],
        &[3, 3, 3],
        &[2, 3, 2, 3],
        &[2, 3, 3, 3],
        &[3, 3, 3, 3],
    ];
    for (w, h) in [(37u32, 29u32), (12, 12), (5, 3)] {
        for total in 1..=12u32 {
            let cols = rows[total as usize - 1];
            let n_rows = cols.len() as u32;
            let row_height = h / n_rows;
            let all: Vec<SplitScreenViewport> =
                (0..total).map(|i| layout(i, total, w, h)).collect();
            for y in 0..h {
                for x in 0..w {
                    let shown = all
                        .iter()
                        .filter(|v| {
                            x >= v.position.x
                                && x < v.position.x + v.size.x
                                && y >= v.position.y
                                && y < v.position.y + v.size.y
                        })
                        .count();
                    let in_grid = row_height > 0 && y < n_rows * row_height && {
                        let c = cols[(y / row_height) as usize];
                        x < c * (w / c)
                    };
                    assert_eq!(shown, if in_grid { 1 } else { 0 }, "total {total} pixel {x},{y}");
                }
            }
        }
    }
}

#[test]
fn fallback_viewports_disjoint() {
    for total in 13..=20u32 {
        let all: Vec<SplitScreenViewport> = (0..total).map(|i| layout(i, total, 1920, 1080)).collect();
        for i in 0..all.len() {
            for j in 0..all.len() {
                if i != j {
                    assert!(disjoint(all[i], all[j]));
                }
            }
        }
        // players from the thirteenth on are placed below the window
        assert!(!within(all[12], 1920, 1080));
    }
}
