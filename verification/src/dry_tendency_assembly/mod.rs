//! Assembly of dry large-timestep tendencies for an ARW Runge–Kutta substep
//! (`rk_addtend_dry`): region validation, the active C-grid component
//! ranges, and the structural checks made before any output changes.

mod axis;
mod coefficient;
mod error;
mod field;
mod fields;
mod kernels;
mod phase;
mod region;
mod validation;

pub use axis::DryTendencyAssemblyAxis;
pub use coefficient::DryTendencyAssemblyCoefficient;
pub use error::{DryTendencyAssemblyError, DryTendencyAssemblyResult};
pub use field::{lemma_field_texts_distinct, DryTendencyAssemblyField};
pub use fields::{
    DryTendencyAssemblyForwardTendencies, DryTendencyAssemblyMapFactors,
    DryTendencyAssemblyRungeKuttaTendencies, DryTendencyAssemblySavedTendencies,
    DryTendencyAssemblyThermodynamics,
};
pub use kernels::{
    accumulate_column_mass_points, assemble_dry_tendencies, for_each_volume_pair, spec_column_mass_accumulated,
    spec_pairs_updated, spec_ranges_fit,
};
pub use phase::DryTendencyAssemblyPhase;
pub use region::{
    lemma_clipped_if_points, lemma_component_points, lemma_tile_check_accepts,
    clipped_if, lemma_mass_ranges_drop_upper_stagger, validate_domain, validate_tile, DryTendencyAssemblyActiveRanges, DryTendencyAssemblyRegion,
};

pub use validation::{spec_assembly_check, validate_dry_tendency_assembly, DryTendencyAssemblyFieldShapes};
