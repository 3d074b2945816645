use vstd::prelude::*;

use crate::dry_tendency_assembly::DryTendencyAssemblyPhase;
use crate::specified_boundary::{SpecifiedBoundaryTendencyParameters, SpecifiedBoundaryWestEastPeriodicity};

verus! {

/// Scalar controls shared by the two consecutive WRF routines.
#[derive(Clone, Copy, Debug, PartialEq, Eq, Structural)]
pub struct DryTendencyBoundaryStageControls {
    pub phase: DryTendencyAssemblyPhase,
    pub boundary_parameters: SpecifiedBoundaryTendencyParameters,
    pub west_east_periodicity: SpecifiedBoundaryWestEastPeriodicity,
}

impl DryTendencyBoundaryStageControls {
    /// Creates controls for one large-timestep Runge–Kutta stage.
    pub fn new(
        phase: DryTendencyAssemblyPhase,
        boundary_parameters: SpecifiedBoundaryTendencyParameters,
        west_east_periodicity: SpecifiedBoundaryWestEastPeriodicity,
    ) -> (r: Self)
        ensures
            r.phase == phase,
            r.boundary_parameters == boundary_parameters,
            r.west_east_periodicity == west_east_periodicity,
    {
        Self { phase, boundary_parameters, west_east_periodicity }
    }
}

} // verus!
