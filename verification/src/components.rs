//! The component that marks a camera as one of the split screen viewports.
use vstd::prelude::*;

verus! {

/// Marks a camera for occupying one of the split screen viewports, ordered by `player_index`.
#[derive(Clone, Copy, Debug, PartialEq, Eq, Structural)]
pub struct SplitScreenCamera {
    pub player_index: u32,
}

impl SplitScreenCamera {
    /// The marker for the camera of player `player_index`.
    pub fn new(player_index: u32) -> (c: Self)
        ensures
            c.player_index == player_index,
    {
        Self { player_index }
    }
}

} // verus!
