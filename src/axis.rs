//! The two axes of a plot and the data-space dimension each one indexes.
use vstd::prelude::*;

verus! {

/// X or Y axis.
#[derive(Debug, Clone, Copy, PartialEq, Eq, Structural)]
pub enum Axis {
    /// Horizontal X-Axis
    X,
    /// Vertical Y-axis
    Y,
}

/// The index of an axis's coordinate in a two-element `[x, y]` array.
pub open spec fn axis_index(a: Axis) -> usize {
    match a {
        Axis::X => 0,
        Axis::Y => 1,
    }
}

impl From<Axis> for usize {
    fn from(value: Axis) -> (r: Self)
        ensures
            r == axis_index(value),
    {
        match value {
            Axis::X => 0,
            Axis::Y => 1,
        }
    }
}

impl vstd::std_specs::convert::FromSpecImpl<Axis> for usize {
    open spec fn obeys_from_spec() -> bool {
        true
    }

    open spec fn from_spec(v: Axis) -> usize {
        axis_index(v)
    }
}

} // verus!
