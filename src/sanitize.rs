//! The policy by which a plot transform repairs degenerate bounds, one axis
//! at a time, before it maps between data space and the screen.
use vstd::prelude::*;

verus! {

/// Half the extent of the window `[-1, 1]` that replaces an axis that is
/// not finite.
pub const RESET_HALF_EXTENT: u8 = 1;

/// The extent given to a thin axis when the other axis has none to lend.
pub const FALLBACK_EXTENT: u8 = 1;

/// How one axis of the bounds is repaired.
#[derive(Debug, Clone, Copy, PartialEq, Eq, Structural)]
pub enum AxisRepair {
    /// Finite with positive extent: kept as it is.
    Keep,
    /// Not finite: replaced by the window `[-RESET_HALF_EXTENT, RESET_HALF_EXTENT]`.
    ResetSymmetric,
    /// Finite but thin: centered on its midpoint, with the extent of the
    /// other axis.
    CenterWithOtherExtent,
    /// Finite but thin, while the other axis is not valid either: centered on
    /// its midpoint with extent `FALLBACK_EXTENT`.
    CenterWithUnitExtent,
}

/// The repair of an axis from what is known of it: whether both its ends
/// are finite, whether its extent is positive, and whether the other axis
/// is valid (finite with positive extent).
pub open spec fn repair_of(finite: bool, positive_extent: bool, other_valid: bool) -> AxisRepair {
    if !finite {
        AxisRepair::ResetSymmetric
    } else if positive_extent {
        AxisRepair::Keep
    } else if other_valid {
        AxisRepair::CenterWithOtherExtent
    } else {
        AxisRepair::CenterWithUnitExtent
    }
}

/// Decides how to repair one axis of the bounds.
pub fn axis_repair(finite: bool, positive_extent: bool, other_valid: bool) -> (r: AxisRepair)
    ensures
        r == repair_of(finite, positive_extent, other_valid),
{
    if !finite {
        AxisRepair::ResetSymmetric
    } else if positive_extent {
        AxisRepair::Keep
    } else if other_valid {
        AxisRepair::CenterWithOtherExtent
    } else {
        AxisRepair::CenterWithUnitExtent
    }
}

/// A valid axis is kept, and an axis that is not finite is reset to the
/// symmetric window whatever the other axis is; so bounds with neither axis
/// finite have both axes reset to `[-1, 1]`.
pub proof fn lemma_degenerate_axes_reset(positive_extent: bool, other_valid: bool)
    ensures
        repair_of(false, positive_extent, other_valid) == AxisRepair::ResetSymmetric,
        repair_of(true, true, other_valid) == AxisRepair::Keep,
        RESET_HALF_EXTENT == 1,
{
}

} // verus!
