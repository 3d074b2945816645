//! Scalar settings of WRF's specified lateral-boundary zone shared by the
//! boundary stages.

use vstd::prelude::*;

verus! {

/// Width of the specified boundary zone and of its innermost specified rows
/// (WRF `spec_bdy_width` and `spec_zone`).
#[derive(Clone, Copy, Debug, PartialEq, Eq, Structural)]
pub struct SpecifiedBoundaryTendencyParameters {
    pub specified_boundary_width: usize,
    pub specified_zone: usize,
}

impl SpecifiedBoundaryTendencyParameters {
    /// Groups the boundary-zone width and the specified-zone width.
    pub fn new(specified_boundary_width: usize, specified_zone: usize) -> (r: Self)
        ensures
            r.specified_boundary_width == specified_boundary_width,
            r.specified_zone == specified_zone,
    {
        Self { specified_boundary_width, specified_zone }
    }
}

/// Whether the west-east axis wraps around instead of having specified
/// west and east boundaries.
#[derive(Clone, Copy, Debug, PartialEq, Eq, Structural)]
pub enum SpecifiedBoundaryWestEastPeriodicity {
    /// West and east boundaries are specified.
    Nonperiodic,
    /// The west-east axis is periodic.
    Periodic,
}

} // verus!
