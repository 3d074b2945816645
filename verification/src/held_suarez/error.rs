use vstd::prelude::*;

use crate::grid::GridShape;
use crate::held_suarez::{HeldSuarezDampingAxis, HeldSuarezDampingField};
use crate::text::{push_decimal, spec_decimal};

verus! {

/// A validation or execution failure in Held-Suarez damping.
#[derive(Clone, Copy, Debug, PartialEq, Eq)]
pub enum HeldSuarezDampingError {
    /// An active half-open range is empty.
    EmptyRange {
        /// Axis containing the invalid range.
        axis: HeldSuarezDampingAxis,
    },
    /// An active range extends beyond its field dimension.
    RangeOutOfBounds {
        /// Axis containing the invalid range.
        axis: HeldSuarezDampingAxis,
        /// Exclusive requested end.
        range_end: usize,
        /// Available field extent.
        field_extent: usize,
    },
    /// A staggered pressure average requires a preceding grid point.
    MissingPrecedingNeighbor {
        /// Axis whose active range begins at zero.
        axis: HeldSuarezDampingAxis,
    },
    /// The pressure reference level lies outside the vertical memory extent.
    SurfaceLevelOutOfBounds {
        /// Requested zero-based surface-level offset.
        surface_level: usize,
        /// Available bottom-top extent.
        bottom_top_points: usize,
    },
    /// A participating field does not match the region's validated shape.
    FieldShapeMismatch {
        /// Field with the unexpected shape.
        field: HeldSuarezDampingField,
        /// Shape against which the region was validated.
        expected: GridShape,
        /// Actual field shape.
        actual: GridShape,
    },
    /// A worker panicked during the update.
    WorkerPanicked,
}

/// The typed result returned by Held-Suarez damping operations.
pub type HeldSuarezDampingResult<T> = Result<T, HeldSuarezDampingError>;

impl HeldSuarezDampingError {
    /// The diagnostic text of the failure.
    pub open spec fn spec_text(self) -> Seq<char> {
        match self {
            HeldSuarezDampingError::EmptyRange { axis } => "Held-Suarez "@ + axis.spec_text() + " range is empty"@,
            HeldSuarezDampingError::RangeOutOfBounds { axis, range_end, field_extent } => "Held-Suarez "@ + axis.spec_text() + " range ends at "@ + spec_decimal(range_end as nat) + ", beyond field extent "@ + spec_decimal(field_extent as nat),
            HeldSuarezDampingError::MissingPrecedingNeighbor { axis } => "Held-Suarez "@ + axis.spec_text() + " range requires a preceding pressure neighbor"@,
            HeldSuarezDampingError::SurfaceLevelOutOfBounds { surface_level, bottom_top_points } => "Held-Suarez surface level "@ + spec_decimal(surface_level as nat) + " is outside "@ + spec_decimal(bottom_top_points as nat) + " vertical points"@,
            HeldSuarezDampingError::FieldShapeMismatch { field, expected, actual } => "Held-Suarez "@ + field.spec_text() + " shape "@ + actual.spec_debug_text() + " does not match "@ + expected.spec_debug_text(),
            HeldSuarezDampingError::WorkerPanicked => "a CPU worker panicked during Held-Suarez damping"@,
        }
    }

    /// The diagnostic text of the failure.
    pub fn to_string(&self) -> (r: String)
        ensures
            r@ == self.spec_text(),
    {
        let mut text = String::new();
        match self {
            HeldSuarezDampingError::EmptyRange { axis } => {
                text.append("Held-Suarez ");
                text.append(axis.to_string().as_str());
                text.append(" range is empty");
            },
            HeldSuarezDampingError::RangeOutOfBounds { axis, range_end, field_extent } => {
                text.append("Held-Suarez ");
                text.append(axis.to_string().as_str());
                text.append(" range ends at ");
                push_decimal(&mut text, *range_end);
                text.append(", beyond field extent ");
                push_decimal(&mut text, *field_extent);
            },
            HeldSuarezDampingError::MissingPrecedingNeighbor { axis } => {
                text.append("Held-Suarez ");
                text.append(axis.to_string().as_str());
                text.append(" range requires a preceding pressure neighbor");
            },
            HeldSuarezDampingError::SurfaceLevelOutOfBounds { surface_level, bottom_top_points } => {
                text.append("Held-Suarez surface level ");
                push_decimal(&mut text, *surface_level);
                text.append(" is outside ");
                push_decimal(&mut text, *bottom_top_points);
                text.append(" vertical points");
            },
            HeldSuarezDampingError::FieldShapeMismatch { field, expected, actual } => {
                text.append("Held-Suarez ");
                text.append(field.to_string().as_str());
                text.append(" shape ");
                text.append(actual.debug_text().as_str());
                text.append(" does not match ");
                text.append(expected.debug_text().as_str());
            },
            HeldSuarezDampingError::WorkerPanicked => {
                text.append("a CPU worker panicked during Held-Suarez damping");
            },
        }
        text
    }
}

} // verus!
