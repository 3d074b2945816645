//! Controls of the coupled dry-tendency assembly and specified-boundary
//! assignment stage.

mod controls;

pub use controls::DryTendencyBoundaryStageControls;
