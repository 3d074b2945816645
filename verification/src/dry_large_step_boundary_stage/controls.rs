use vstd::prelude::*;

use crate::specified_boundary::{SpecifiedBoundaryTendencyParameters, SpecifiedBoundaryWestEastPeriodicity};

verus! {

/// Scalar controls shared by relaxation and boundary assignment.
///
/// The Runge–Kutta substep is not a control here: it is carried by the stage
/// mode so relaxation activity and assembly accumulation cannot diverge.
#[derive(Clone, Copy, Debug, PartialEq, Eq, Structural)]
pub struct DryLargeStepBoundaryStageControls {
    pub boundary_parameters: SpecifiedBoundaryTendencyParameters,
    pub west_east_periodicity: SpecifiedBoundaryWestEastPeriodicity,
}

impl DryLargeStepBoundaryStageControls {
    /// Creates controls for one large-timestep Runge–Kutta stage.
    pub fn new(
        boundary_parameters: SpecifiedBoundaryTendencyParameters,
        west_east_periodicity: SpecifiedBoundaryWestEastPeriodicity,
    ) -> (r: Self)
        ensures
            r.boundary_parameters == boundary_parameters,
            r.west_east_periodicity == west_east_periodicity,
    {
        Self { boundary_parameters, west_east_periodicity }
    }
}

} // verus!
