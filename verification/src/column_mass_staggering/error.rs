use vstd::prelude::*;

use crate::column_mass_staggering::{ColumnMassStaggeringAxis, ColumnMassStaggeringField};
use crate::text::{push_decimal, spec_decimal};

verus! {

/// Result returned by column-mass staggering operations.
pub type ColumnMassStaggeringResult<Value> = Result<Value, ColumnMassStaggeringError>;

/// Validation or execution failure from column-mass staggering.
#[derive(Clone, Copy, Debug, PartialEq, Eq)]
pub enum ColumnMassStaggeringError {
    /// A mass-domain range contains no mass points.
    EmptyMassDomainRange {
        /// Axis whose domain range is empty.
        axis: ColumnMassStaggeringAxis,
    },
    /// A mass-domain upper boundary does not fit in field storage.
    MassDomainBoundaryOutOfBounds {
        /// Axis whose physical boundary is invalid.
        axis: ColumnMassStaggeringAxis,
        /// Momentum-point index at the upper physical boundary.
        boundary_index: usize,
        /// Available field extent.
        field_extent: usize,
    },
    /// An active tile range contains no momentum points.
    EmptyTileRange {
        /// Axis whose tile range is empty.
        axis: ColumnMassStaggeringAxis,
    },
    /// An active tile range extends beyond field storage.
    TileRangeOutOfBounds {
        /// Axis whose tile range is invalid.
        axis: ColumnMassStaggeringAxis,
        /// Exclusive range end.
        range_end: usize,
        /// Available field extent.
        field_extent: usize,
    },
    /// An active tile extends outside its physical mass domain.
    TileOutsideMassDomain {
        /// Axis on which the tile leaves the domain.
        axis: ColumnMassStaggeringAxis,
    },
    /// A periodic lower boundary has no preceding halo mass point.
    PeriodicLowerHaloMissing {
        /// Axis whose lower periodic halo is absent.
        axis: ColumnMassStaggeringAxis,
    },
    /// Full-mass calculation needs one preceding memory point before the tile.
    FullMassLowerHaloMissing {
        /// Axis whose tile starts at the first memory point.
        axis: ColumnMassStaggeringAxis,
    },
    /// A field does not match the shape validated by the region.
    FieldShapeMismatch {
        /// Role of the mismatched field.
        field: ColumnMassStaggeringField,
    },
    /// Column mass must be represented by a two-dimensional field.
    RequiresSingleVerticalLevel {
        /// Actual vertical extent.
        bottom_top_points: usize,
    },
    /// A worker panicked while processing an output row.
    WorkerPanicked,
}

impl ColumnMassStaggeringError {
    /// The diagnostic text of the failure.
    pub open spec fn spec_text(self) -> Seq<char> {
        match self {
            ColumnMassStaggeringError::EmptyMassDomainRange { axis } => axis.spec_text() + " mass-domain range is empty"@,
            ColumnMassStaggeringError::MassDomainBoundaryOutOfBounds { axis, boundary_index, field_extent } => axis.spec_text() + " mass-domain boundary index "@ + spec_decimal(boundary_index as nat) + " is outside field extent "@ + spec_decimal(field_extent as nat),
            ColumnMassStaggeringError::EmptyTileRange { axis } => axis.spec_text() + " tile range is empty"@,
            ColumnMassStaggeringError::TileRangeOutOfBounds { axis, range_end, field_extent } => axis.spec_text() + " tile range ends at "@ + spec_decimal(range_end as nat) + ", beyond field extent "@ + spec_decimal(field_extent as nat),
            ColumnMassStaggeringError::TileOutsideMassDomain { axis } => axis.spec_text() + " tile extends outside its mass domain"@,
            ColumnMassStaggeringError::PeriodicLowerHaloMissing { axis } => axis.spec_text() + " periodic lower boundary requires one preceding halo mass point"@,
            ColumnMassStaggeringError::FullMassLowerHaloMissing { axis } => axis.spec_text() + " full-mass calculation requires one preceding halo mass point"@,
            ColumnMassStaggeringError::FieldShapeMismatch { field } => field.spec_text() + " shape does not match the staggering region"@,
            ColumnMassStaggeringError::RequiresSingleVerticalLevel { bottom_top_points } => "column-mass staggering requires one vertical level, found "@ + spec_decimal(bottom_top_points as nat),
            ColumnMassStaggeringError::WorkerPanicked => "a column-mass staggering worker panicked"@,
        }
    }

    /// The diagnostic text of the failure.
    pub fn to_string(&self) -> (r: String)
        ensures
            r@ == self.spec_text(),
    {
        let mut text = String::new();
        match self {
            ColumnMassStaggeringError::EmptyMassDomainRange { axis } => {
                text.append(axis.to_string().as_str());
                text.append(" mass-domain range is empty");
            },
            ColumnMassStaggeringError::MassDomainBoundaryOutOfBounds { axis, boundary_index, field_extent } => {
                text.append(axis.to_string().as_str());
                text.append(" mass-domain boundary index ");
                push_decimal(&mut text, *boundary_index);
                text.append(" is outside field extent ");
                push_decimal(&mut text, *field_extent);
            },
            ColumnMassStaggeringError::EmptyTileRange { axis } => {
                text.append(axis.to_string().as_str());
                text.append(" tile range is empty");
            },
            ColumnMassStaggeringError::TileRangeOutOfBounds { axis, range_end, field_extent } => {
                text.append(axis.to_string().as_str());
                text.append(" tile range ends at ");
                push_decimal(&mut text, *range_end);
                text.append(", beyond field extent ");
                push_decimal(&mut text, *field_extent);
            },
            ColumnMassStaggeringError::TileOutsideMassDomain { axis } => {
                text.append(axis.to_string().as_str());
                text.append(" tile extends outside its mass domain");
            },
            ColumnMassStaggeringError::PeriodicLowerHaloMissing { axis } => {
                text.append(axis.to_string().as_str());
                text.append(" periodic lower boundary requires one preceding halo mass point");
            },
            ColumnMassStaggeringError::FullMassLowerHaloMissing { axis } => {
                text.append(axis.to_string().as_str());
                text.append(" full-mass calculation requires one preceding halo mass point");
            },
            ColumnMassStaggeringError::FieldShapeMismatch { field } => {
                text.append(field.to_string().as_str());
                text.append(" shape does not match the staggering region");
            },
            ColumnMassStaggeringError::RequiresSingleVerticalLevel { bottom_top_points } => {
                text.append("column-mass staggering requires one vertical level, found ");
                push_decimal(&mut text, *bottom_top_points);
            },
            ColumnMassStaggeringError::WorkerPanicked => {
                text.append("a column-mass staggering worker panicked");
            },
        }
        text
    }
}

} // verus!
