//! Full inverse density on mass points (`calc_alt`): region validation,
//! field-shape checks and the clipped mass-point ranges that are written.

mod axis;
mod error;
mod field;
mod kernels;
mod region;

pub use axis::InverseDensityAxis;
pub use error::{InverseDensityError, InverseDensityResult};
pub use field::InverseDensityField;
pub use kernels::{
    calculate_full_inverse_density, calculate_inverse_density_points, lemma_inverse_density_at_point,
    spec_inverse_density_calculated,
};
pub use region::{
    clipped, lemma_clipped_points, lemma_tile_check_accepts, validate_domain, validate_field_shapes, validate_shape, validate_tile,
    InverseDensityRegion,
};
