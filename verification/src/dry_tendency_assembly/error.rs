use vstd::prelude::*;

use crate::dry_tendency_assembly::{DryTendencyAssemblyAxis, DryTendencyAssemblyCoefficient, DryTendencyAssemblyField};
use crate::grid::GridShape;
use crate::text::{push_decimal, spec_decimal};

verus! {

/// Result returned by dry-tendency assembly.
pub type DryTendencyAssemblyResult<Value> = Result<Value, DryTendencyAssemblyError>;

/// Validation or execution failure from dry-tendency assembly.
#[derive(Clone, Copy, Debug, PartialEq, Eq)]
pub enum DryTendencyAssemblyError {
    /// A physical mass-domain range contains no points.
    EmptyMassDomainRange {
        /// Axis whose domain range is empty.
        axis: DryTendencyAssemblyAxis,
    },
    /// A mass-domain range exceeds field storage.
    MassDomainRangeOutOfBounds {
        /// Axis whose range is invalid.
        axis: DryTendencyAssemblyAxis,
        /// Exclusive endpoint of the supplied range.
        range_end: usize,
        /// Available field extent on the axis.
        field_extent: usize,
    },
    /// An active tile range contains no points.
    EmptyTileRange {
        /// Axis whose tile range is empty.
        axis: DryTendencyAssemblyAxis,
    },
    /// An active tile range exceeds field storage.
    TileRangeOutOfBounds {
        /// Axis whose range is invalid.
        axis: DryTendencyAssemblyAxis,
        /// Exclusive endpoint of the supplied range.
        range_end: usize,
        /// Available field extent on the axis.
        field_extent: usize,
    },
    /// An active tile lies outside the mass domain plus one upper stagger.
    TileOutsideMassDomain {
        /// Axis on which the tile is invalid.
        axis: DryTendencyAssemblyAxis,
    },
    /// A field shape differs from the region's required shape.
    FieldShapeMismatch {
        /// Semantic role of the mismatched field.
        field: DryTendencyAssemblyField,
        /// Shape required by the validated region.
        expected: GridShape,
        /// Shape supplied by the caller.
        actual: GridShape,
    },
    /// A vertical coefficient does not span vertical field storage.
    CoefficientLengthMismatch {
        /// Semantic role of the mismatched coefficient.
        coefficient: DryTendencyAssemblyCoefficient,
        /// Required number of vertical values.
        expected: usize,
        /// Number of values supplied by the caller.
        actual: usize,
    },
    /// The validated scheduler contract was unexpectedly rejected.
    SchedulerContractViolated,
    /// A worker panicked.
    WorkerPanicked,
}

impl DryTendencyAssemblyError {
    /// The diagnostic text of the failure.
    pub open spec fn spec_text(self) -> Seq<char> {
        match self {
            DryTendencyAssemblyError::EmptyMassDomainRange { axis } => axis.spec_text() + " mass-domain range is empty"@,
            DryTendencyAssemblyError::MassDomainRangeOutOfBounds { axis, range_end, field_extent } => axis.spec_text() + " mass-domain range ends at "@ + spec_decimal(range_end as nat) + ", beyond field extent "@ + spec_decimal(field_extent as nat),
            DryTendencyAssemblyError::EmptyTileRange { axis } => axis.spec_text() + " tile range is empty"@,
            DryTendencyAssemblyError::TileRangeOutOfBounds { axis, range_end, field_extent } => axis.spec_text() + " tile range ends at "@ + spec_decimal(range_end as nat) + ", beyond field extent "@ + spec_decimal(field_extent as nat),
            DryTendencyAssemblyError::TileOutsideMassDomain { axis } => axis.spec_text() + " tile lies outside the mass domain and its upper stagger"@,
            DryTendencyAssemblyError::FieldShapeMismatch { field, expected, actual } => field.spec_text() + " shape "@ + actual.spec_debug_text() + " does not match required shape "@ + expected.spec_debug_text(),
            DryTendencyAssemblyError::CoefficientLengthMismatch { coefficient, expected, actual } => coefficient.spec_text() + " has "@ + spec_decimal(actual as nat) + " values, expected "@ + spec_decimal(expected as nat),
            DryTendencyAssemblyError::SchedulerContractViolated => "validated paired-output scheduler contract was rejected"@,
            DryTendencyAssemblyError::WorkerPanicked => "a dry-tendency assembly worker panicked"@,
        }
    }

    /// The diagnostic text of the failure.
    pub fn to_string(&self) -> (r: String)
        ensures
            r@ == self.spec_text(),
    {
        let mut text = String::new();
        match self {
            DryTendencyAssemblyError::EmptyMassDomainRange { axis } => {
                text.append(axis.to_string().as_str());
                text.append(" mass-domain range is empty");
            },
            DryTendencyAssemblyError::MassDomainRangeOutOfBounds { axis, range_end, field_extent } => {
                text.append(axis.to_string().as_str());
                text.append(" mass-domain range ends at ");
                push_decimal(&mut text, *range_end);
                text.append(", beyond field extent ");
                push_decimal(&mut text, *field_extent);
            },
            DryTendencyAssemblyError::EmptyTileRange { axis } => {
                text.append(axis.to_string().as_str());
                text.append(" tile range is empty");
            },
            DryTendencyAssemblyError::TileRangeOutOfBounds { axis, range_end, field_extent } => {
                text.append(axis.to_string().as_str());
                text.append(" tile range ends at ");
                push_decimal(&mut text, *range_end);
                text.append(", beyond field extent ");
                push_decimal(&mut text, *field_extent);
            },
            DryTendencyAssemblyError::TileOutsideMassDomain { axis } => {
                text.append(axis.to_string().as_str());
                text.append(" tile lies outside the mass domain and its upper stagger");
            },
            DryTendencyAssemblyError::FieldShapeMismatch { field, expected, actual } => {
                text.append(field.to_string().as_str());
                text.append(" shape ");
                text.append(actual.debug_text().as_str());
                text.append(" does not match required shape ");
                text.append(expected.debug_text().as_str());
            },
            DryTendencyAssemblyError::CoefficientLengthMismatch { coefficient, expected, actual } => {
                text.append(coefficient.to_string().as_str());
                text.append(" has ");
                push_decimal(&mut text, *actual);
                text.append(" values, expected ");
                push_decimal(&mut text, *expected);
            },
            DryTendencyAssemblyError::SchedulerContractViolated => {
                text.append("validated paired-output scheduler contract was rejected");
            },
            DryTendencyAssemblyError::WorkerPanicked => {
                text.append("a dry-tendency assembly worker panicked");
            },
        }
        text
    }
}

} // verus!
