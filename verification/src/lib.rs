//! Numerical-kernel support for WRF's Advanced Research WRF dynamical core:
//! validated grid regions, structural checks made before any field changes,
//! and the memory offsets every kernel reads and writes, each proved to stay
//! inside field storage.
//!
//! Offsets follow WRF's `(i, k, j)` memory order: west-east varies fastest,
//! then bottom-top, then south-north.

pub mod column_mass_staggering;
pub mod dry_large_step_boundary_stage;
pub mod dry_tendency_assembly;
pub mod dry_tendency_boundary_stage;
pub mod grid;
pub mod held_suarez;
pub mod inverse_density;
pub mod specified_boundary;
pub mod sweep;
pub mod text;

pub use column_mass_staggering::{
    ColumnMassSource, ColumnMassStaggeringAxis, ColumnMassStaggeringAxisBoundary,
    ColumnMassStaggeringError, ColumnMassStaggeringField, ColumnMassStaggeringPeriodicity,
    ColumnMassStaggeringRegion, ColumnMassStaggeringResult,
};
pub use dry_large_step_boundary_stage::DryLargeStepBoundaryStageControls;
pub use dry_tendency_assembly::{
    DryTendencyAssemblyActiveRanges, DryTendencyAssemblyAxis, DryTendencyAssemblyCoefficient,
    DryTendencyAssemblyError, DryTendencyAssemblyField, DryTendencyAssemblyFieldShapes,
    DryTendencyAssemblyForwardTendencies, DryTendencyAssemblyMapFactors, DryTendencyAssemblyPhase,
    DryTendencyAssemblyRegion, DryTendencyAssemblyResult, DryTendencyAssemblyRungeKuttaTendencies,
    DryTendencyAssemblySavedTendencies, DryTendencyAssemblyThermodynamics,
};
pub use dry_tendency_boundary_stage::DryTendencyBoundaryStageControls;
pub use grid::{GridShape, GridShapeError};
pub use held_suarez::{
    DampingLineWindows, HeldSuarezDampingAxis, HeldSuarezDampingError, HeldSuarezDampingField,
    HeldSuarezDampingFields, HeldSuarezDampingRegion, HeldSuarezDampingShapes, HeldSuarezDampingResult,
};
pub use inverse_density::{
    InverseDensityAxis, InverseDensityError, InverseDensityField, InverseDensityRegion,
    InverseDensityResult,
};
pub use specified_boundary::{SpecifiedBoundaryTendencyParameters, SpecifiedBoundaryWestEastPeriodicity};
