//! Keypoint colors of a colormap whose keypoints are spread evenly over
//! `[0, 1]`.
use vstd::prelude::*;

use crate::color::{transparent, Color32};

verus! {

/// The keypoint colors a uniform colormap uses for the given colors: two
/// transparent keypoints for none, the single color at both ends for one,
/// else the colors as given.
pub open spec fn uniform_keypoints(colors: Seq<Color32>) -> Seq<Color32> {
    if colors.len() == 0 {
        seq![transparent(), transparent()]
    } else if colors.len() == 1 {
        seq![colors[0], colors[0]]
    } else {
        colors
    }
}

/// Normalizes the colors of a uniform colormap so that there are at least
/// two keypoints.
pub fn uniform_keypoint_colors(colors: Vec<Color32>) -> (r: Vec<Color32>)
    ensures
        r@ == uniform_keypoints(colors@),
        r@.len() >= 2,
{
    if colors.len() == 0 {
        return vec![Color32::transparent(), Color32::transparent()];
    }
    if colors.len() == 1 {
        let single = colors[0];
        return vec![single, single];
    }
    colors
}

} // verus!
