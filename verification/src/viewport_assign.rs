//! Assigning a viewport to every split screen camera of a window.
//!
//! The number of active cameras is one more than the largest player index among them, and each
//! camera gets the viewport that the layout computes for its own index and that count.
use vstd::prelude::*;

use crate::layout::{PixelVec2, SplitScreenLayout, SplitScreenViewport};

verus! {

/// The largest element of `s`, or zero for an empty sequence.
pub open spec fn seq_max(s: Seq<u32>) -> u32
    decreases s.len(),
{
    if s.len() == 0 {
        0
    } else {
        let m = seq_max(s.drop_last());
        if s.last() > m {
            s.last()
        } else {
            m
        }
    }
}

/// `seq_max` is an element of a nonempty sequence and no element exceeds it.
pub proof fn lemma_seq_max_is_max(s: Seq<u32>)
    ensures
        forall|k: int| 0 <= k < s.len() ==> s[k] <= seq_max(s),
        s.len() > 0 ==> exists|k: int| 0 <= k < s.len() && s[k] == seq_max(s),
    decreases s.len(),
{
    if s.len() > 0 {
        let p = s.drop_last();
        lemma_seq_max_is_max(p);
        assert forall|k: int| 0 <= k < s.len() implies s[k] <= seq_max(s) by {
            if k < s.len() - 1 {
                assert(s[k] == p[k]);
            }
        }
        if s.last() > seq_max(p) {
            assert(s[s.len() - 1] == seq_max(s));
        } else if p.len() > 0 {
            let k = choose|k: int| 0 <= k < p.len() && p[k] == seq_max(p);
            assert(s[k] == seq_max(s));
        } else {
            assert(s[0] == seq_max(s));
        }
    }
}

/// The camera count of a window: one more than the largest player index among its cameras.
pub open spec fn camera_count(player_indices: Seq<u32>) -> int {
    seq_max(player_indices) + 1
}

/// Whether `m` is the largest of the player indices `s`: one of them, and exceeded by none.
pub open spec fn is_largest_index(s: Seq<u32>, m: u32) -> bool {
    &&& exists|j: int| 0 <= j < s.len() && s[j] == m
    &&& forall|j: int| 0 <= j < s.len() ==> s[j] <= m
}

/// The camera count is one more than the largest player index.
pub proof fn lemma_camera_count_is_max_plus_one(player_indices: Seq<u32>)
    ensures
        camera_count(player_indices) == seq_max(player_indices) + 1,
        player_indices.len() > 0 ==> exists|k: int|
            0 <= k < player_indices.len() && camera_count(player_indices) == player_indices[k]
                + 1,
        forall|k: int|
            0 <= k < player_indices.len() ==> player_indices[k] < camera_count(player_indices),
{
    lemma_seq_max_is_max(player_indices);
}

/// The largest player index among the cameras, or `None` when there is no camera.
pub fn max_player_index(player_indices: &Vec<u32>) -> (m: Option<u32>)
    ensures
        player_indices.len() == 0 ==> m is None,
        player_indices.len() > 0 ==> m == Some(seq_max(player_indices@)),
        m matches Some(v) ==> {
            &&& forall|k: int| 0 <= k < player_indices.len() ==> player_indices@[k] <= v
            &&& exists|k: int| 0 <= k < player_indices.len() && player_indices@[k] == v
        },
{
    if player_indices.len() == 0 {
        return None;
    }
    let mut m: u32 = player_indices[0];
    let mut k: usize = 1;
    proof {
        let s1 = player_indices@.subrange(0, 1);
        assert(s1.drop_last() =~= Seq::<u32>::empty());
        assert(seq_max(s1.drop_last()) == 0);
        assert(s1.last() == m);
    }
    while k < player_indices.len()
        invariant
            1 <= k <= player_indices.len(),
            m == seq_max(player_indices@.subrange(0, k as int)),
        decreases player_indices.len() - k,
    {
        proof {
            let s = player_indices@.subrange(0, k as int + 1);
            assert(s.drop_last() =~= player_indices@.subrange(0, k as int));
        }
        if player_indices[k] > m {
            m = player_indices[k];
        }
        k = k + 1;
    }
    proof {
        assert(player_indices@.subrange(0, k as int) =~= player_indices@);
        lemma_seq_max_is_max(player_indices@);
    }
    Some(m)
}

/// The viewports of the cameras of one window, one per player index and in the same order:
/// each is the layout's viewport for that index among as many cameras as the largest index
/// plus one (the largest index is an index of the list that no other exceeds, see
/// `lemma_seq_max_is_max`). With no camera there is nothing to assign.
pub fn viewports_for_window<L: SplitScreenLayout>(
    player_indices: &Vec<u32>,
    window_size: PixelVec2,
) -> (viewports: Vec<SplitScreenViewport>)
    requires
        player_indices.len() > 0 ==> seq_max(player_indices@) < u32::MAX,
        forall|k: int|
            0 <= k < player_indices.len() ==> L::layout_defined(
                #[trigger] player_indices@[k],
                (seq_max(player_indices@) + 1) as u32,
                window_size,
            ),
    ensures
        viewports.len() == player_indices.len(),
        forall|k: int|
            0 <= k < player_indices.len() ==> viewports@[k] == L::layout_viewport(
                #[trigger] player_indices@[k],
                (seq_max(player_indices@) + 1) as u32,
                window_size,
            ),
        player_indices.len() > 0 ==> exists|largest: u32|
            {
                &&& #[trigger] is_largest_index(player_indices@, largest)
                &&& forall|k: int|
                    0 <= k < player_indices.len() ==> viewports@[k] == L::layout_viewport(
                        #[trigger] player_indices@[k],
                        (largest + 1) as u32,
                        window_size,
                    )
            },
{
    let mut viewports: Vec<SplitScreenViewport> = Vec::new();
    let max_index = match max_player_index(player_indices) {
        Some(m) => m,
        None => {
            return viewports;
        },
    };
    let total_players = max_index + 1;
    let mut k: usize = 0;
    while k < player_indices.len()
        invariant
            k <= player_indices.len(),
            total_players as int == seq_max(player_indices@) + 1,
            viewports.len() == k,
            forall|j: int|
                0 <= j < player_indices.len() ==> L::layout_defined(
                    #[trigger] player_indices@[j],
                    total_players,
                    window_size,
                ),
            forall|j: int|
                0 <= j < k ==> viewports@[j] == L::layout_viewport(
                    #[trigger] player_indices@[j],
                    total_players,
                    window_size,
                ),
        decreases player_indices.len() - k,
    {
        let viewport = L::calculate_split_screen_layout(
            player_indices[k],
            total_players,
            window_size,
        );
        viewports.push(viewport);
        k = k + 1;
    }
    proof {
        lemma_seq_max_is_max(player_indices@);
        assert(max_index == seq_max(player_indices@));
        assert(is_largest_index(player_indices@, max_index));
    }
    viewports
}

} // verus!
