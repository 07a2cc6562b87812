//! Discrete core of an interactive 2D plotting surface: axis and legend
//! placement, marker catalogues, legend bookkeeping, item identity, heatmap
//! layout, colormap keypoints, link groups, pin hotkeys, name truncation and
//! the repair policy for degenerate plot bounds.

pub mod aesthetics;
pub mod axis;
pub mod color;
pub mod colormap;
pub mod grid;
pub mod heatmap;
pub mod hit;
pub mod items;
pub mod legend;
pub mod link;
pub mod pins;
pub mod placement;
pub mod sanitize;
pub mod truncate;
