use vstd::prelude::*;

use crate::column_mass_staggering::region::spec_then;
use crate::column_mass_staggering::{
    ColumnMassStaggeringAxis, ColumnMassStaggeringError, ColumnMassStaggeringField,
    ColumnMassStaggeringPeriodicity, ColumnMassStaggeringRegion, ColumnMassStaggeringResult,
};
use crate::grid::{lemma_planar_index, spec_min, GridShape};

verus! {

/// Where one staggered column-mass output value comes from.
#[derive(Clone, Copy, Debug, PartialEq, Eq, Structural)]
pub enum ColumnMassSource {
    /// The full mass (perturbation plus base) at one memory offset.
    Point(usize),
    /// Half the full mass summed over two memory offsets, first then second.
    Average(usize, usize),
}

impl ColumnMassSource {
    /// Every memory offset the source reads lies below `point_count`.
    pub open spec fn reads_within(self, point_count: nat) -> bool {
        match self {
            ColumnMassSource::Point(index) => index < point_count,
            ColumnMassSource::Average(first, second) => first < point_count && second < point_count,
        }
    }

    /// The source as the pair of offsets a big-step average reads: a single
    /// point is paired with itself.
    pub open spec fn spec_pair(self) -> (usize, usize) {
        match self {
            ColumnMassSource::Point(index) => (index, index),
            ColumnMassSource::Average(first, second) => (first, second),
        }
    }
}

/// Outcome of [`validate_shape`].
pub open spec fn spec_shape_check(
    field_shape: GridShape,
    region: ColumnMassStaggeringRegion,
    field_role: ColumnMassStaggeringField,
) -> ColumnMassStaggeringResult<()> {
    if field_shape != region.spec_shape() {
        Err(ColumnMassStaggeringError::FieldShapeMismatch { field: field_role })
    } else {
        Ok(())
    }
}

/// Outcome of [`validate_periodic_lower_halos`].
pub open spec fn spec_periodic_halo_check(
    region: ColumnMassStaggeringRegion,
    periodicity: ColumnMassStaggeringPeriodicity,
) -> ColumnMassStaggeringResult<()> {
    if periodicity.spec_is_west_east_periodic() && region.spec_west_east_boundary().spec_touches_lower()
        && region.spec_tile_west_east().start == 0 {
        Err(ColumnMassStaggeringError::PeriodicLowerHaloMissing { axis: ColumnMassStaggeringAxis::WestEast })
    } else if periodicity.spec_is_south_north_periodic() && region.spec_south_north_boundary().spec_touches_lower()
        && region.spec_tile_south_north().start == 0 {
        Err(ColumnMassStaggeringError::PeriodicLowerHaloMissing { axis: ColumnMassStaggeringAxis::SouthNorth })
    } else {
        Ok(())
    }
}

/// Outcome of [`validate_big_step_outputs`].
pub open spec fn spec_big_step_outputs_check(
    west_east_momentum_mass: GridShape,
    south_north_momentum_mass: GridShape,
    region: ColumnMassStaggeringRegion,
    periodicity: ColumnMassStaggeringPeriodicity,
) -> ColumnMassStaggeringResult<()> {
    spec_then(spec_shape_check(west_east_momentum_mass, region, ColumnMassStaggeringField::WestEastMomentumMass),
    spec_then(spec_shape_check(south_north_momentum_mass, region, ColumnMassStaggeringField::SouthNorthMomentumMass),
        spec_periodic_halo_check(region, periodicity)))
}

/// Outcome of [`validate_stagger_operation`]: the first of the perturbation,
/// base, west-east output and south-north output shapes that differs from
/// the region's.
pub open spec fn spec_stagger_operation_check(
    perturbation_mass: GridShape,
    base_mass: GridShape,
    west_east_momentum_mass: GridShape,
    south_north_momentum_mass: GridShape,
    region: ColumnMassStaggeringRegion,
) -> ColumnMassStaggeringResult<()> {
    spec_then(spec_shape_check(perturbation_mass, region, ColumnMassStaggeringField::PerturbationMass),
    spec_then(spec_shape_check(base_mass, region, ColumnMassStaggeringField::BaseMass),
    spec_then(spec_shape_check(west_east_momentum_mass, region, ColumnMassStaggeringField::WestEastMomentumMass),
        spec_shape_check(south_north_momentum_mass, region, ColumnMassStaggeringField::SouthNorthMomentumMass))))
}

/// Outcome of [`validate_full_mass_operation`]: the three shapes in the
/// order full, perturbation, base, then a lower memory halo on the
/// west-east and then the south-north axis.
pub open spec fn spec_full_mass_operation_check(
    full_mass: GridShape,
    perturbation_mass: GridShape,
    base_mass: GridShape,
    region: ColumnMassStaggeringRegion,
) -> ColumnMassStaggeringResult<()> {
    spec_then(spec_shape_check(full_mass, region, ColumnMassStaggeringField::FullMass),
    spec_then(spec_shape_check(perturbation_mass, region, ColumnMassStaggeringField::PerturbationMass),
    spec_then(spec_shape_check(base_mass, region, ColumnMassStaggeringField::BaseMass),
        if region.spec_tile_west_east().start == 0 {
            Err(ColumnMassStaggeringError::FullMassLowerHaloMissing { axis: ColumnMassStaggeringAxis::WestEast })
        } else if region.spec_tile_south_north().start == 0 {
            Err(ColumnMassStaggeringError::FullMassLowerHaloMissing { axis: ColumnMassStaggeringAxis::SouthNorth })
        } else {
            Ok(())
        })))
}

/// Outcome of [`validate_big_step_operation`].
pub open spec fn spec_big_step_operation_check(
    perturbation_mass: GridShape,
    base_mass: GridShape,
    west_east_momentum_mass: GridShape,
    south_north_momentum_mass: GridShape,
    region: ColumnMassStaggeringRegion,
    periodicity: ColumnMassStaggeringPeriodicity,
) -> ColumnMassStaggeringResult<()> {
    spec_then(spec_shape_check(perturbation_mass, region, ColumnMassStaggeringField::PerturbationMass),
    spec_then(spec_shape_check(base_mass, region, ColumnMassStaggeringField::BaseMass),
        spec_big_step_outputs_check(west_east_momentum_mass, south_north_momentum_mass, region, periodicity)))
}

/// Outcome of [`validate_full_big_step_operation`].
pub open spec fn spec_full_big_step_operation_check(
    full_mass: GridShape,
    west_east_momentum_mass: GridShape,
    south_north_momentum_mass: GridShape,
    region: ColumnMassStaggeringRegion,
    periodicity: ColumnMassStaggeringPeriodicity,
) -> ColumnMassStaggeringResult<()> {
    spec_then(spec_shape_check(full_mass, region, ColumnMassStaggeringField::FullMass),
        spec_big_step_outputs_check(west_east_momentum_mass, south_north_momentum_mass, region, periodicity))
}

/// Rejects a field whose shape differs from the region's shape.
pub fn validate_shape(
    field_shape: GridShape,
    region: &ColumnMassStaggeringRegion,
    field_role: ColumnMassStaggeringField,
) -> (r: ColumnMassStaggeringResult<()>)
    ensures r == spec_shape_check(field_shape, *region, field_role),
{
    if field_shape != region.shape() {
        return Err(ColumnMassStaggeringError::FieldShapeMismatch { field: field_role });
    }
    Ok(())
}

/// Rejects a periodic lower boundary that has no preceding halo mass point.
pub fn validate_periodic_lower_halos(
    region: &ColumnMassStaggeringRegion,
    periodicity: ColumnMassStaggeringPeriodicity,
) -> (r: ColumnMassStaggeringResult<()>)
    ensures r == spec_periodic_halo_check(*region, periodicity),
{
    if periodicity.is_west_east_periodic() && region.west_east_boundary().touches_lower()
        && region.west_east_momentum_west_east_range().start == 0 {
        return Err(ColumnMassStaggeringError::PeriodicLowerHaloMissing {
            axis: ColumnMassStaggeringAxis::WestEast,
        });
    }
    if periodicity.is_south_north_periodic() && region.south_north_boundary().touches_lower()
        && region.south_north_momentum_south_north_range().start == 0 {
        return Err(ColumnMassStaggeringError::PeriodicLowerHaloMissing {
            axis: ColumnMassStaggeringAxis::SouthNorth,
        });
    }
    Ok(())
}

/// Checks the inputs and outputs of split-mass staggering, in the order
/// perturbation, base, west-east output, south-north output.
pub fn validate_stagger_operation(
    perturbation_mass: GridShape,
    base_mass: GridShape,
    west_east_momentum_mass: GridShape,
    south_north_momentum_mass: GridShape,
    region: &ColumnMassStaggeringRegion,
) -> (r: ColumnMassStaggeringResult<()>)
    ensures
        r == spec_stagger_operation_check(perturbation_mass, base_mass, west_east_momentum_mass, south_north_momentum_mass, *region),
{
    validate_shape(perturbation_mass, region, ColumnMassStaggeringField::PerturbationMass)?;
    validate_shape(base_mass, region, ColumnMassStaggeringField::BaseMass)?;
    validate_shape(west_east_momentum_mass, region, ColumnMassStaggeringField::WestEastMomentumMass)?;
    validate_shape(south_north_momentum_mass, region, ColumnMassStaggeringField::SouthNorthMomentumMass)
}

/// Checks full-mass calculation: the three field shapes, then the lower
/// memory halo that the full-mass ranges need.
pub fn validate_full_mass_operation(
    full_mass: GridShape,
    perturbation_mass: GridShape,
    base_mass: GridShape,
    region: &ColumnMassStaggeringRegion,
) -> (r: ColumnMassStaggeringResult<()>)
    ensures
        r == spec_full_mass_operation_check(full_mass, perturbation_mass, base_mass, *region),
{
    validate_shape(full_mass, region, ColumnMassStaggeringField::FullMass)?;
    validate_shape(perturbation_mass, region, ColumnMassStaggeringField::PerturbationMass)?;
    validate_shape(base_mass, region, ColumnMassStaggeringField::BaseMass)?;
    region.full_mass_ranges()?;
    Ok(())
}

/// Checks the two big-step outputs and the periodic lower halos.
pub fn validate_big_step_outputs(
    west_east_momentum_mass: GridShape,
    south_north_momentum_mass: GridShape,
    region: &ColumnMassStaggeringRegion,
    periodicity: ColumnMassStaggeringPeriodicity,
) -> (r: ColumnMassStaggeringResult<()>)
    ensures r == spec_big_step_outputs_check(west_east_momentum_mass, south_north_momentum_mass, *region, periodicity),
{
    validate_shape(west_east_momentum_mass, region, ColumnMassStaggeringField::WestEastMomentumMass)?;
    validate_shape(south_north_momentum_mass, region, ColumnMassStaggeringField::SouthNorthMomentumMass)?;
    validate_periodic_lower_halos(region, periodicity)
}

/// Checks split-mass big-step staggering: perturbation, base, then outputs.
pub fn validate_big_step_operation(
    perturbation_mass: GridShape,
    base_mass: GridShape,
    west_east_momentum_mass: GridShape,
    south_north_momentum_mass: GridShape,
    region: &ColumnMassStaggeringRegion,
    periodicity: ColumnMassStaggeringPeriodicity,
) -> (r: ColumnMassStaggeringResult<()>)
    ensures
        r == spec_big_step_operation_check(
            perturbation_mass, base_mass, west_east_momentum_mass, south_north_momentum_mass, *region, periodicity),
{
    validate_shape(perturbation_mass, region, ColumnMassStaggeringField::PerturbationMass)?;
    validate_shape(base_mass, region, ColumnMassStaggeringField::BaseMass)?;
    validate_big_step_outputs(west_east_momentum_mass, south_north_momentum_mass, region, periodicity)
}

/// Checks full-mass big-step staggering: the full mass, then outputs.
pub fn validate_full_big_step_operation(
    full_mass: GridShape,
    west_east_momentum_mass: GridShape,
    south_north_momentum_mass: GridShape,
    region: &ColumnMassStaggeringRegion,
    periodicity: ColumnMassStaggeringPeriodicity,
) -> (r: ColumnMassStaggeringResult<()>)
    ensures
        r == spec_full_big_step_operation_check(full_mass, west_east_momentum_mass, south_north_momentum_mass, *region, periodicity),
{
    validate_shape(full_mass, region, ColumnMassStaggeringField::FullMass)?;
    validate_big_step_outputs(west_east_momentum_mass, south_north_momentum_mass, region, periodicity)
}

/// On an axis that is not periodic, big-step staggering reads the same mass
/// points as split staggering: where split staggering copies one boundary
/// point, the big-step average pairs that point with itself.
pub proof fn lemma_non_periodic_big_step_matches_staggering(
    region: ColumnMassStaggeringRegion,
    periodicity: ColumnMassStaggeringPeriodicity,
    south_north_index: usize,
    west_east_index: usize,
)
    requires
        region.valid(),
    ensures
        !periodicity.spec_is_west_east_periodic() ==> region.spec_big_step_west_east_source(periodicity, south_north_index, west_east_index)
            == region.spec_west_east_momentum_source(south_north_index, west_east_index).spec_pair(),
        !periodicity.spec_is_south_north_periodic() ==> region.spec_big_step_south_north_source(periodicity, south_north_index, west_east_index)
            == region.spec_south_north_momentum_source(south_north_index, west_east_index).spec_pair(),
{
    crate::column_mass_staggering::lemma_boundary_outputs_distinct(region);
}

/// Split staggering onto west-east momentum points, stated over the region's
/// validated ranges. Offsets count `index = south_north * row + west_east`.
/// The first point of a tile that starts on the lower physical boundary
/// (tile start equal to the mass-domain start) copies the mass point it sits
/// on; the last point of a tile that ends on the upper boundary (tile end one
/// past the mass-domain end) copies the mass point before it; every other
/// point, including the first point of a tile that does not start on the
/// lower boundary, averages the mass points at `index` and `index - 1`.
pub proof fn lemma_west_east_momentum_sources(
    region: ColumnMassStaggeringRegion,
    south_north_index: usize,
    west_east_index: usize,
)
    requires
        region.valid(),
    ensures
        ({
            let index = south_north_index * region.spec_shape().spec_west_east_points() + west_east_index;
            let tile = region.spec_tile_west_east();
            let domain = region.spec_mass_domain_west_east();
            region.spec_west_east_momentum_source(south_north_index, west_east_index) == if tile.start == domain.start
                && west_east_index == tile.start {
                ColumnMassSource::Point(index as usize)
            } else if tile.end == domain.end + 1 && west_east_index + 1 == tile.end {
                ColumnMassSource::Point((index - 1) as usize)
            } else {
                ColumnMassSource::Average(index as usize, (index - 1) as usize)
            }
        }),
{
}

/// Split staggering onto south-north momentum points, stated over the
/// region's validated ranges: the first row of a tile on the lower boundary
/// copies its own mass row, the last row of a tile on the upper boundary
/// copies the mass row before it, and every other row averages the mass rows
/// at and before it.
pub proof fn lemma_south_north_momentum_sources(
    region: ColumnMassStaggeringRegion,
    south_north_index: usize,
    west_east_index: usize,
)
    requires
        region.valid(),
    ensures
        ({
            let row = region.spec_shape().spec_west_east_points();
            let index = south_north_index * row + west_east_index;
            let tile = region.spec_tile_south_north();
            let domain = region.spec_mass_domain_south_north();
            region.spec_south_north_momentum_source(south_north_index, west_east_index) == if tile.start == domain.start
                && south_north_index == tile.start {
                ColumnMassSource::Point(index as usize)
            } else if tile.end == domain.end + 1 && south_north_index + 1 == tile.end {
                ColumnMassSource::Point((index - row) as usize)
            } else {
                ColumnMassSource::Average(index as usize, (index - row) as usize)
            }
        }),
{
}

/// Big-step staggering onto west-east momentum points, stated over the
/// region's validated ranges and the periodicity variants. Away from the
/// physical boundaries a point averages the mass points at `index` and
/// `index - 1`. On a boundary the adjacent mass point is paired with its halo
/// neighbour across the boundary (`index - 1` below, `index` above) exactly
/// when the west-east axis is periodic, that is for `WestEast` and `Both`,
/// whatever the south-north axis is; otherwise it is paired with itself.
pub proof fn lemma_big_step_west_east_sources(
    region: ColumnMassStaggeringRegion,
    periodicity: ColumnMassStaggeringPeriodicity,
    south_north_index: usize,
    west_east_index: usize,
)
    requires
        region.valid(),
    ensures
        ({
            let index = south_north_index * region.spec_shape().spec_west_east_points() + west_east_index;
            let tile = region.spec_tile_west_east();
            let domain = region.spec_mass_domain_west_east();
            let periodic = periodicity == ColumnMassStaggeringPeriodicity::WestEast
                || periodicity == ColumnMassStaggeringPeriodicity::Both;
            region.spec_big_step_west_east_source(periodicity, south_north_index, west_east_index) == if tile.start
                == domain.start && west_east_index == tile.start {
                (index as usize, (if periodic { index - 1 } else { index }) as usize)
            } else if tile.end == domain.end + 1 && west_east_index + 1 == tile.end {
                ((index - 1) as usize, (if periodic { index } else { index - 1 }) as usize)
            } else {
                (index as usize, (index - 1) as usize)
            }
        }),
{
}

/// Big-step staggering onto south-north momentum points, stated over the
/// region's validated ranges and the periodicity variants. Away from the
/// boundaries a point averages the mass rows at and before it. The first row
/// of a tile on the lower boundary pairs its own mass row with the row before
/// (the periodic halo) exactly for `SouthNorth` and `Both`, and with itself
/// otherwise; the last row of a tile on the upper boundary pairs the mass row
/// before it with its own row (the periodic halo) exactly for `SouthNorth` and
/// `Both`, and with itself otherwise.
pub proof fn lemma_big_step_south_north_sources(
    region: ColumnMassStaggeringRegion,
    periodicity: ColumnMassStaggeringPeriodicity,
    south_north_index: usize,
    west_east_index: usize,
)
    requires
        region.valid(),
    ensures
        ({
            let row = region.spec_shape().spec_west_east_points();
            let index = south_north_index * row + west_east_index;
            let tile = region.spec_tile_south_north();
            let domain = region.spec_mass_domain_south_north();
            let periodic = periodicity == ColumnMassStaggeringPeriodicity::SouthNorth
                || periodicity == ColumnMassStaggeringPeriodicity::Both;
            region.spec_big_step_south_north_source(periodicity, south_north_index, west_east_index) == if tile.start
                == domain.start && south_north_index == tile.start {
                (index as usize, (if periodic { index - row } else { index }) as usize)
            } else if tile.end == domain.end + 1 && south_north_index + 1 == tile.end {
                ((index - row) as usize, (if periodic { index } else { index - row }) as usize)
            } else {
                (index as usize, (index - row) as usize)
            }
        }),
{
    crate::column_mass_staggering::lemma_boundary_outputs_distinct(region);
}

impl ColumnMassStaggeringRegion {
    /// Source of the west-east momentum output at `(south_north_index,
    /// west_east_index)`: the full mass of the adjacent mass point at a
    /// touched physical boundary, the average of the two neighbouring mass
    /// points elsewhere.
    pub open spec fn spec_west_east_momentum_source(self, south_north_index: usize, west_east_index: usize) -> ColumnMassSource {
        let index = south_north_index * self.spec_shape().spec_west_east_points() + west_east_index;
        let boundary = self.spec_west_east_boundary();
        if boundary.spec_touches_lower() && west_east_index == self.spec_tile_west_east().start {
            ColumnMassSource::Point(index as usize)
        } else if boundary.spec_touches_upper() && west_east_index + 1 == self.spec_tile_west_east().end {
            ColumnMassSource::Point((index - 1) as usize)
        } else {
            ColumnMassSource::Average(index as usize, (index - 1) as usize)
        }
    }

    /// Source of the south-north momentum output at `(south_north_index,
    /// west_east_index)`: boundary rows copy the adjacent mass row, interior
    /// rows average the current and preceding mass rows.
    pub open spec fn spec_south_north_momentum_source(self, south_north_index: usize, west_east_index: usize) -> ColumnMassSource {
        let row_length = self.spec_shape().spec_west_east_points();
        let index = south_north_index * row_length + west_east_index;
        let boundary = self.spec_south_north_boundary();
        if boundary.spec_touches_lower() && south_north_index == self.spec_tile_south_north().start {
            ColumnMassSource::Point(index as usize)
        } else if boundary.spec_touches_upper() && south_north_index + 1 == self.spec_tile_south_north().end {
            ColumnMassSource::Point((index - row_length) as usize)
        } else {
            ColumnMassSource::Average(index as usize, (index - row_length) as usize)
        }
    }

    /// Source pair of the big-step west-east momentum output: at a touched
    /// boundary the adjacent mass point is paired with its periodic halo
    /// neighbour, or with itself on a non-periodic axis.
    pub open spec fn spec_big_step_west_east_source(
        self,
        periodicity: ColumnMassStaggeringPeriodicity,
        south_north_index: usize,
        west_east_index: usize,
    ) -> (usize, usize) {
        let index = south_north_index * self.spec_shape().spec_west_east_points() + west_east_index;
        let boundary = self.spec_west_east_boundary();
        let periodic = periodicity.spec_is_west_east_periodic();
        if boundary.spec_touches_lower() && west_east_index == self.spec_tile_west_east().start {
            (index as usize, (if periodic { index - 1 } else { index }) as usize)
        } else if boundary.spec_touches_upper() && west_east_index + 1 == self.spec_tile_west_east().end {
            ((index - 1) as usize, (if periodic { index } else { index - 1 }) as usize)
        } else {
            (index as usize, (index - 1) as usize)
        }
    }

    /// Source pair of the big-step south-north momentum output.
    pub open spec fn spec_big_step_south_north_source(
        self,
        periodicity: ColumnMassStaggeringPeriodicity,
        south_north_index: usize,
        west_east_index: usize,
    ) -> (usize, usize) {
        let row_length = self.spec_shape().spec_west_east_points();
        let row_start = south_north_index * row_length;
        let boundary = self.spec_south_north_boundary();
        let periodic = periodicity.spec_is_south_north_periodic();
        let is_lower = boundary.spec_touches_lower() && south_north_index == self.spec_tile_south_north().start;
        let is_upper = boundary.spec_touches_upper() && south_north_index + 1 == self.spec_tile_south_north().end;
        let first_row_start = if is_upper { row_start - row_length } else { row_start };
        let adjacent_row_start = if is_lower {
            if periodic { row_start - row_length } else { row_start }
        } else if is_upper {
            if periodic { row_start } else { row_start - row_length }
        } else {
            row_start - row_length
        };
        ((first_row_start + west_east_index) as usize, (adjacent_row_start + west_east_index) as usize)
    }

    /// Where the west-east momentum output at an active point comes from.
    pub fn west_east_momentum_mass_source(&self, south_north_index: usize, west_east_index: usize) -> (r: ColumnMassSource)
        requires
            self.spec_tile_south_north().start <= south_north_index,
            south_north_index < spec_min(self.spec_tile_south_north().end, self.spec_mass_domain_south_north().end),
            self.spec_tile_west_east().start <= west_east_index < self.spec_tile_west_east().end,
        ensures
            r == self.spec_west_east_momentum_source(south_north_index, west_east_index),
            r.reads_within(self.spec_shape().spec_point_count()),
    {
        proof {
            use_type_invariant(self);
        }
        let shape = self.shape();
        let index = shape.linear_index(west_east_index, 0, south_north_index);
        proof {
            lemma_planar_index(west_east_index as int, south_north_index as int, shape.spec_west_east_points() as int);
        }
        let boundary = self.west_east_boundary();
        let range = self.west_east_momentum_west_east_range();
        if boundary.touches_lower() && west_east_index == range.start {
            ColumnMassSource::Point(index)
        } else if boundary.touches_upper() && west_east_index + 1 == range.end {
            ColumnMassSource::Point(index - 1)
        } else {
            ColumnMassSource::Average(index, index - 1)
        }
    }

    /// Where the south-north momentum output at an active point comes from.
    pub fn south_north_momentum_mass_source(&self, south_north_index: usize, west_east_index: usize) -> (r: ColumnMassSource)
        requires
            self.spec_tile_south_north().start <= south_north_index < self.spec_tile_south_north().end,
            self.spec_tile_west_east().start <= west_east_index,
            west_east_index < spec_min(self.spec_tile_west_east().end, self.spec_mass_domain_west_east().end),
        ensures
            r == self.spec_south_north_momentum_source(south_north_index, west_east_index),
            r.reads_within(self.spec_shape().spec_point_count()),
    {
        proof {
            use_type_invariant(self);
        }
        let shape = self.shape();
        let row_length = shape.west_east_points();
        let index = shape.linear_index(west_east_index, 0, south_north_index);
        proof {
            lemma_planar_index(west_east_index as int, south_north_index as int, shape.spec_west_east_points() as int);
        }
        let boundary = self.south_north_boundary();
        let range = self.south_north_momentum_south_north_range();
        if boundary.touches_lower() && south_north_index == range.start {
            ColumnMassSource::Point(index)
        } else if boundary.touches_upper() && south_north_index + 1 == range.end {
            ColumnMassSource::Point(index - row_length)
        } else {
            ColumnMassSource::Average(index, index - row_length)
        }
    }

    /// The two offsets averaged into the big-step west-east momentum output.
    pub fn big_step_west_east_momentum_source(
        &self,
        periodicity: ColumnMassStaggeringPeriodicity,
        south_north_index: usize,
        west_east_index: usize,
    ) -> (r: (usize, usize))
        requires
            spec_periodic_halo_check(*self, periodicity) is Ok,
            self.spec_tile_south_north().start <= south_north_index,
            south_north_index < spec_min(self.spec_tile_south_north().end, self.spec_mass_domain_south_north().end),
            self.spec_tile_west_east().start <= west_east_index < self.spec_tile_west_east().end,
        ensures
            r == self.spec_big_step_west_east_source(periodicity, south_north_index, west_east_index),
            r.0 < self.spec_shape().spec_point_count(),
            r.1 < self.spec_shape().spec_point_count(),
    {
        proof {
            use_type_invariant(self);
        }
        let shape = self.shape();
        let index = shape.linear_index(west_east_index, 0, south_north_index);
        proof {
            lemma_planar_index(west_east_index as int, south_north_index as int, shape.spec_west_east_points() as int);
        }
        let boundary = self.west_east_boundary();
        let range = self.west_east_momentum_west_east_range();
        let periodic = periodicity.is_west_east_periodic();
        if boundary.touches_lower() && west_east_index == range.start {
            (index, if periodic { index - 1 } else { index })
        } else if boundary.touches_upper() && west_east_index + 1 == range.end {
            (index - 1, if periodic { index } else { index - 1 })
        } else {
            (index, index - 1)
        }
    }

    /// The two offsets averaged into the big-step south-north momentum output.
    pub fn big_step_south_north_momentum_source(
        &self,
        periodicity: ColumnMassStaggeringPeriodicity,
        south_north_index: usize,
        west_east_index: usize,
    ) -> (r: (usize, usize))
        requires
            spec_periodic_halo_check(*self, periodicity) is Ok,
            self.spec_tile_south_north().start <= south_north_index < self.spec_tile_south_north().end,
            self.spec_tile_west_east().start <= west_east_index,
            west_east_index < spec_min(self.spec_tile_west_east().end, self.spec_mass_domain_west_east().end),
        ensures
            r == self.spec_big_step_south_north_source(periodicity, south_north_index, west_east_index),
            r.0 < self.spec_shape().spec_point_count(),
            r.1 < self.spec_shape().spec_point_count(),
    {
        proof {
            use_type_invariant(self);
        }
        let shape = self.shape();
        let row_length = shape.west_east_points();
        let index = shape.linear_index(west_east_index, 0, south_north_index);
        proof {
            lemma_planar_index(west_east_index as int, south_north_index as int, shape.spec_west_east_points() as int);
        }
        let boundary = self.south_north_boundary();
        let range = self.south_north_momentum_south_north_range();
        let periodic = periodicity.is_south_north_periodic();
        let is_lower = boundary.touches_lower() && south_north_index == range.start;
        let is_upper = boundary.touches_upper() && south_north_index + 1 == range.end;
        let first = if is_upper { index - row_length } else { index };
        let adjacent = if is_lower {
            if periodic { index - row_length } else { index }
        } else if is_upper {
            if periodic { index } else { index - row_length }
        } else {
            index - row_length
        };
        (first, adjacent)
    }
}

} // verus!
