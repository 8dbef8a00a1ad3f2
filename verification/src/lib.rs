//! Split screen viewports for local multiplayer.
//!
//! Each split screen camera is assigned a player index. A `SplitScreenLayout` computes, from the
//! player index, the number of active cameras and the window size, the rectangle of the window
//! (in physical pixels) that the camera renders to. `DefaultSplitScreenLayout` arranges up to
//! twelve cameras in a grid of rows.

pub mod components;
pub mod grid;
pub mod laws;
pub mod layout;
pub mod viewport_assign;

pub use components::SplitScreenCamera;
pub use layout::{DefaultSplitScreenLayout, PixelVec2, SplitScreenLayout, SplitScreenViewport};

pub use viewport_assign::{max_player_index, viewports_for_window};
