# bevy_split_screen

Split screen camera viewports for local multiplayer games, verified with Verus.

Each split screen camera carries a player index. A `SplitScreenLayout` computes the rectangle of
the window (in physical pixels) that a camera renders to, from its index, the number of active
cameras (one more than the largest index) and the window size. `DefaultSplitScreenLayout`
arranges up to twelve cameras in rows of equal height, each row cut into columns of equal width.

Layout of the crate:

- `src/` is the verified library.
  - `grid.rs` states the grid model: rows, columns per row, the cell of each player and the
    rectangle of a cell.
  - `layout.rs` holds the viewport types, the `SplitScreenLayout` trait and the default layout,
    proved equal to the grid model.
  - `viewport_assign.rs` computes the viewports of all cameras of a window.
  - `components.rs` holds the camera marker.
  - `laws.rs` proves properties of the default layout: each viewport lies within the window, two
    players never overlap, the viewports tile the window up to the pixels that integer division
    leaves over, and camera counts outside one to twelve use the twelve-camera grid.
- `tests/` runs the library on concrete windows.
- `app/` connects the library to Bevy: the plugins, the system set and the system that updates
  camera viewports when a window resizes or a camera is added.
