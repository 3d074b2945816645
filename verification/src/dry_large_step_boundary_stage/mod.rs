//! Controls of the complete dry large-timestep boundary stage.

mod controls;

pub use controls::DryLargeStepBoundaryStageControls;
