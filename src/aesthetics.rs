//! Orientation of plot elements and the catalogue of point markers.
use vstd::prelude::*;

verus! {

/// Determines whether a plot element is vertically or horizontally oriented.
#[derive(Copy, Clone, Debug, PartialEq, Eq, Structural)]
pub enum Orientation {
    Horizontal,
    Vertical,
}

impl Default for Orientation {
    fn default() -> (r: Self)
        ensures
            r == Orientation::Vertical,
    {
        Orientation::Vertical
    }
}

/// Circle, Diamond, Square, Cross, ...
#[derive(Debug, PartialEq, Eq, Clone, Copy, Structural)]
pub enum MarkerShape {
    Circle,
    Diamond,
    Square,
    Cross,
    Plus,
    Up,
    Down,
    Left,
    Right,
    Asterisk,
}

/// Every marker shape, in declaration order.
pub open spec fn all_marker_shapes() -> Seq<MarkerShape> {
    seq![
        MarkerShape::Circle,
        MarkerShape::Diamond,
        MarkerShape::Square,
        MarkerShape::Cross,
        MarkerShape::Plus,
        MarkerShape::Up,
        MarkerShape::Down,
        MarkerShape::Left,
        MarkerShape::Right,
        MarkerShape::Asterisk,
    ]
}

impl MarkerShape {
    /// All marker shapes, each once, in declaration order.
    pub fn all() -> (r: Vec<MarkerShape>)
        ensures
            r@ == all_marker_shapes(),
    {
        vec![
            MarkerShape::Circle,
            MarkerShape::Diamond,
            MarkerShape::Square,
            MarkerShape::Cross,
            MarkerShape::Plus,
            MarkerShape::Up,
            MarkerShape::Down,
            MarkerShape::Left,
            MarkerShape::Right,
            MarkerShape::Asterisk,
        ]
    }
}

/// The catalogue of marker shapes lists every shape exactly once.
pub proof fn lemma_marker_shapes_complete(m: MarkerShape)
    ensures
        all_marker_shapes().contains(m),
        all_marker_shapes().no_duplicates(),
        all_marker_shapes().len() == 10,
{
    let s = all_marker_shapes();
    match m {
        MarkerShape::Circle => assert(s[0] == m),
        MarkerShape::Diamond => assert(s[1] == m),
        MarkerShape::Square => assert(s[2] == m),
        MarkerShape::Cross => assert(s[3] == m),
        MarkerShape::Plus => assert(s[4] == m),
        MarkerShape::Up => assert(s[5] == m),
        MarkerShape::Down => assert(s[6] == m),
        MarkerShape::Left => assert(s[7] == m),
        MarkerShape::Right => assert(s[8] == m),
        MarkerShape::Asterisk => assert(s[9] == m),
    }
}

} // verus!
