use vstd::prelude::*;

use crate::grid::GridShape;
use crate::inverse_density::{InverseDensityAxis, InverseDensityField};
use crate::text::{push_decimal, spec_decimal};

verus! {

/// Failure returned while validating or calculating full inverse density.
#[derive(Clone, Copy, Debug, PartialEq, Eq)]
pub enum InverseDensityError {
    /// A physical mass-domain range contains no points.
    EmptyMassDomainRange {
        /// Axis whose domain range is empty.
        axis: InverseDensityAxis,
    },
    /// A physical mass-domain range exceeds field storage.
    MassDomainRangeOutOfBounds {
        /// Axis whose domain range is invalid.
        axis: InverseDensityAxis,
        /// Exclusive range endpoint.
        range_end: usize,
        /// Available field extent.
        field_extent: usize,
    },
    /// An active tile range contains no points.
    EmptyTileRange {
        /// Axis whose tile range is empty.
        axis: InverseDensityAxis,
    },
    /// An active tile range exceeds field storage.
    TileRangeOutOfBounds {
        /// Axis whose tile range is invalid.
        axis: InverseDensityAxis,
        /// Exclusive range endpoint.
        range_end: usize,
        /// Available field extent.
        field_extent: usize,
    },
    /// An active tile lies outside the mass domain and its upper stagger point.
    TileOutsideMassDomain {
        /// Axis on which the tile is invalid.
        axis: InverseDensityAxis,
    },
    /// A field shape differs from the shape required by the region.
    FieldShapeMismatch {
        /// Role of the mismatched field.
        field: InverseDensityField,
        /// Required shape.
        expected: GridShape,
        /// Supplied shape.
        actual: GridShape,
    },
    /// A worker panicked.
    WorkerPanicked,
}

/// Result returned by full inverse-density operations.
pub type InverseDensityResult<Value> = Result<Value, InverseDensityError>;

impl InverseDensityError {
    /// The diagnostic text of the failure.
    pub open spec fn spec_text(self) -> Seq<char> {
        match self {
            InverseDensityError::EmptyMassDomainRange { axis } => axis.spec_text() + " mass-domain range is empty"@,
            InverseDensityError::MassDomainRangeOutOfBounds { axis, range_end, field_extent } => axis.spec_text() + " mass-domain end "@ + spec_decimal(range_end as nat) + " exceeds field extent "@ + spec_decimal(field_extent as nat),
            InverseDensityError::EmptyTileRange { axis } => axis.spec_text() + " tile range is empty"@,
            InverseDensityError::TileRangeOutOfBounds { axis, range_end, field_extent } => axis.spec_text() + " tile end "@ + spec_decimal(range_end as nat) + " exceeds field extent "@ + spec_decimal(field_extent as nat),
            InverseDensityError::TileOutsideMassDomain { axis } => axis.spec_text() + " tile lies outside the mass domain and its upper stagger point"@,
            InverseDensityError::FieldShapeMismatch { field, expected, actual } => field.spec_text() + " shape "@ + actual.spec_debug_text() + " differs from expected shape "@ + expected.spec_debug_text(),
            InverseDensityError::WorkerPanicked => "a full inverse-density worker panicked"@,
        }
    }

    /// The diagnostic text of the failure.
    pub fn to_string(&self) -> (r: String)
        ensures
            r@ == self.spec_text(),
    {
        let mut text = String::new();
        match self {
            InverseDensityError::EmptyMassDomainRange { axis } => {
                text.append(axis.to_string().as_str());
                text.append(" mass-domain range is empty");
            },
            InverseDensityError::MassDomainRangeOutOfBounds { axis, range_end, field_extent } => {
                text.append(axis.to_string().as_str());
                text.append(" mass-domain end ");
                push_decimal(&mut text, *range_end);
                text.append(" exceeds field extent ");
                push_decimal(&mut text, *field_extent);
            },
            InverseDensityError::EmptyTileRange { axis } => {
                text.append(axis.to_string().as_str());
                text.append(" tile range is empty");
            },
            InverseDensityError::TileRangeOutOfBounds { axis, range_end, field_extent } => {
                text.append(axis.to_string().as_str());
                text.append(" tile end ");
                push_decimal(&mut text, *range_end);
                text.append(" exceeds field extent ");
                push_decimal(&mut text, *field_extent);
            },
            InverseDensityError::TileOutsideMassDomain { axis } => {
                text.append(axis.to_string().as_str());
                text.append(" tile lies outside the mass domain and its upper stagger point");
            },
            InverseDensityError::FieldShapeMismatch { field, expected, actual } => {
                text.append(field.to_string().as_str());
                text.append(" shape ");
                text.append(actual.debug_text().as_str());
                text.append(" differs from expected shape ");
                text.append(expected.debug_text().as_str());
            },
            InverseDensityError::WorkerPanicked => {
                text.append("a full inverse-density worker panicked");
            },
        }
        text
    }
}

} // verus!
