//! Full column dry-air mass interpolation onto horizontal momentum points:
//! region validation and the source points of every staggered output.

mod axis;
mod axis_boundary;
mod error;
mod field;
mod kernels;

mod periodicity;
mod region;
pub(crate) mod stencil;

pub use axis::ColumnMassStaggeringAxis;
pub use axis_boundary::ColumnMassStaggeringAxisBoundary;
pub use error::{ColumnMassStaggeringError, ColumnMassStaggeringResult};
pub use field::ColumnMassStaggeringField;
pub use kernels::{
    calculate_full_column_mass, calculate_full_mass_points, spec_big_step_staggered, spec_column_mass_staggered,
    spec_full_mass_calculated, spec_in, stagger_big_step_points, stagger_column_mass, stagger_column_mass_for_big_step,
    stagger_column_mass_points, stagger_full_column_mass_for_big_step, ActiveBox,
};
pub use periodicity::ColumnMassStaggeringPeriodicity;
pub use region::{
    lemma_boundary_outputs_distinct, lemma_tile_check_accepts, validate_mass_domain_range, validate_tile_range,
    ColumnMassStaggeringRegion,
};
pub use stencil::{
    lemma_big_step_south_north_sources, lemma_big_step_west_east_sources, lemma_non_periodic_big_step_matches_staggering,
    lemma_south_north_momentum_sources, lemma_west_east_momentum_sources, spec_big_step_operation_check, spec_full_big_step_operation_check,
    spec_full_mass_operation_check, spec_stagger_operation_check,
    validate_big_step_operation, validate_big_step_outputs, validate_full_big_step_operation,
    validate_full_mass_operation, validate_periodic_lower_halos, validate_shape,
    validate_stagger_operation, ColumnMassSource,
};

