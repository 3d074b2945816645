//! Held-Suarez idealized momentum damping: region validation, field-shape
//! checks and the memory windows read and written for each damped line.

mod axis;
mod error;
mod field;
mod fields;
mod kernels;
mod line_layout;
mod region;

pub use axis::HeldSuarezDampingAxis;
pub use error::{HeldSuarezDampingError, HeldSuarezDampingResult};
pub use field::HeldSuarezDampingField;
pub use fields::{HeldSuarezDampingFields, HeldSuarezDampingShapes};
pub use kernels::{
    apply_held_suarez_damping, damp_south_north_momentum_lines, damp_west_east_momentum_lines, spec_line_damped, spec_lines_damped,
};
pub use line_layout::{lemma_neighbour_windows, spec_field_shapes_check, linear_index, validate_field_shape, validate_field_shapes, DampingLineWindows};
pub use region::{validate_range, HeldSuarezDampingRegion};
