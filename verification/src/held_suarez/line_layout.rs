use vstd::prelude::*;

use crate::grid::{lemma_linear_index_in_bounds, spec_first_failure, spec_linear_index, GridShape};
use crate::held_suarez::{
    HeldSuarezDampingError, HeldSuarezDampingField, HeldSuarezDampingRegion, HeldSuarezDampingResult,
};

verus! {

/// Offset of point `(west_east, bottom_top, south_north)` in WRF's `(i, k, j)`
/// memory order.
pub fn linear_index(
    west_east_index: usize,
    bottom_top_index: usize,
    south_north_index: usize,
    west_east_points: usize,
    bottom_top_points: usize,
) -> (r: usize)
    requires
        south_north_index * bottom_top_points + bottom_top_index <= usize::MAX,
        spec_linear_index(west_east_index as int, bottom_top_index as int, south_north_index as int,
            west_east_points as int, bottom_top_points as int) <= usize::MAX,
    ensures
        r == spec_linear_index(west_east_index as int, bottom_top_index as int, south_north_index as int,
            west_east_points as int, bottom_top_points as int),
{
    proof {
        let line = south_north_index * bottom_top_points + bottom_top_index;
        assert(south_north_index * bottom_top_points <= line);
        assert(line * west_east_points <= line * west_east_points + west_east_index);
    }
    (south_north_index * bottom_top_points + bottom_top_index) * west_east_points + west_east_index
}

/// Outcome of [`validate_field_shape`].
pub open spec fn spec_field_shape_check(
    actual: GridShape,
    field: HeldSuarezDampingField,
    expected: GridShape,
) -> HeldSuarezDampingResult<()> {
    if actual != expected {
        Err(HeldSuarezDampingError::FieldShapeMismatch { field, expected, actual })
    } else {
        Ok(())
    }
}

/// Rejects a field whose shape differs from the region's shape.
pub fn validate_field_shape(
    actual: GridShape,
    field: HeldSuarezDampingField,
    expected: GridShape,
) -> (r: HeldSuarezDampingResult<()>)
    ensures r == spec_field_shape_check(actual, field, expected),
{
    if actual != expected {
        return Err(HeldSuarezDampingError::FieldShapeMismatch { field, expected, actual });
    }
    Ok(())
}

/// Outcome of [`validate_field_shapes`]: the first of the six fields, in the
/// order west-east tendency, south-north tendency, west-east momentum,
/// south-north momentum, perturbation pressure, base pressure, whose shape
/// differs from the region's.
pub open spec fn spec_field_shapes_check(
    west_east_momentum_tendency: GridShape,
    south_north_momentum_tendency: GridShape,
    west_east_momentum: GridShape,
    south_north_momentum: GridShape,
    perturbation_pressure: GridShape,
    base_pressure: GridShape,
    region: HeldSuarezDampingRegion,
) -> HeldSuarezDampingResult<()> {
    let expected = region.spec_shape();
    spec_first_failure(seq![
        spec_field_shape_check(west_east_momentum_tendency, HeldSuarezDampingField::WestEastMomentumTendency, expected),
        spec_field_shape_check(south_north_momentum_tendency, HeldSuarezDampingField::SouthNorthMomentumTendency, expected),
        spec_field_shape_check(west_east_momentum, HeldSuarezDampingField::WestEastMomentum, expected),
        spec_field_shape_check(south_north_momentum, HeldSuarezDampingField::SouthNorthMomentum, expected),
        spec_field_shape_check(perturbation_pressure, HeldSuarezDampingField::PerturbationPressure, expected),
        spec_field_shape_check(base_pressure, HeldSuarezDampingField::BasePressure, expected),
    ])
}

/// Checks all six damping fields against the region, in the order west-east
/// tendency, south-north tendency, west-east momentum, south-north momentum,
/// perturbation pressure, base pressure; the first mismatch is reported.
pub fn validate_field_shapes(
    west_east_momentum_tendency: GridShape,
    south_north_momentum_tendency: GridShape,
    west_east_momentum: GridShape,
    south_north_momentum: GridShape,
    perturbation_pressure: GridShape,
    base_pressure: GridShape,
    region: &HeldSuarezDampingRegion,
) -> (r: HeldSuarezDampingResult<()>)
    ensures
        r == spec_field_shapes_check(
            west_east_momentum_tendency,
            south_north_momentum_tendency,
            west_east_momentum,
            south_north_momentum,
            perturbation_pressure,
            base_pressure,
            *region,
        ),
{
    proof {
        reveal_with_fuel(spec_first_failure, 7);
    }
    let expected = region.shape();
    validate_field_shape(west_east_momentum_tendency, HeldSuarezDampingField::WestEastMomentumTendency, expected)?;
    validate_field_shape(south_north_momentum_tendency, HeldSuarezDampingField::SouthNorthMomentumTendency, expected)?;
    validate_field_shape(west_east_momentum, HeldSuarezDampingField::WestEastMomentum, expected)?;
    validate_field_shape(south_north_momentum, HeldSuarezDampingField::SouthNorthMomentum, expected)?;
    validate_field_shape(perturbation_pressure, HeldSuarezDampingField::PerturbationPressure, expected)?;
    validate_field_shape(base_pressure, HeldSuarezDampingField::BasePressure, expected)
}

/// First memory offsets of the slices read and written for one damped line.
///
/// Every slice holds `length` consecutive values. The tendency, the momentum
/// and the current pressures start at `line`; the staggered neighbour
/// pressures at `adjacent`; the surface pressures of the current and
/// neighbouring columns at `surface` and `adjacent_surface`.
#[derive(Clone, Copy, Debug, PartialEq, Eq, Structural)]
pub struct DampingLineWindows {
    pub line: usize,
    pub adjacent: usize,
    pub surface: usize,
    pub adjacent_surface: usize,
    pub length: usize,
}

impl DampingLineWindows {
    /// Every window ends at or before `point_count`.
    pub open spec fn within(self, point_count: nat) -> bool {
        &&& self.line + self.length <= point_count
        &&& self.adjacent + self.length <= point_count
        &&& self.surface + self.length <= point_count
        &&& self.adjacent_surface + self.length <= point_count
    }
}

/// The staggered neighbour of a south-north momentum line is the line one
/// south-north row earlier, a full slab of `bottom_top_points` lines back;
/// the neighbour of a west-east momentum point is the point just before it.
pub proof fn lemma_neighbour_windows(region: HeldSuarezDampingRegion, bottom_top_index: int, south_north_index: int)
    ensures
        ({
            let slab = region.spec_shape().spec_bottom_top_points() * region.spec_shape().spec_west_east_points();
            let south_north = region.spec_south_north_momentum_windows(bottom_top_index, south_north_index);
            let west_east = region.spec_west_east_momentum_windows(bottom_top_index, south_north_index);
            &&& region.spec_offset(region.spec_west_east_range().start as int, bottom_top_index, south_north_index)
                == region.spec_offset(region.spec_west_east_range().start as int, bottom_top_index, south_north_index - 1) + slab
            &&& region.spec_offset(region.spec_west_east_range().start as int - 1, bottom_top_index, south_north_index) + 1
                == region.spec_offset(region.spec_west_east_range().start as int, bottom_top_index, south_north_index)
            &&& south_north.line == west_east.line
            &&& south_north.length == west_east.length
        }),
{
    let w = region.spec_shape().spec_west_east_points() as int;
    let b = region.spec_shape().spec_bottom_top_points() as int;
    assert((south_north_index * b + bottom_top_index) * w == ((south_north_index - 1) * b + bottom_top_index) * w + b * w)
        by (nonlinear_arith);
}

impl HeldSuarezDampingRegion {
    /// Offset of west-east index `west_east_index` on line `(k, j)`.
    pub open spec fn spec_offset(self, west_east_index: int, bottom_top_index: int, south_north_index: int) -> int {
        spec_linear_index(
            west_east_index,
            bottom_top_index,
            south_north_index,
            self.spec_shape().spec_west_east_points() as int,
            self.spec_shape().spec_bottom_top_points() as int,
        )
    }

    /// Windows for a south-north momentum line: the neighbour is the
    /// preceding south-north row at the same level.
    pub open spec fn spec_south_north_momentum_windows(self, bottom_top_index: int, south_north_index: int) -> DampingLineWindows {
        let start = self.spec_west_east_range().start as int;
        let surface = self.spec_surface_level() as int;
        DampingLineWindows {
            line: self.spec_offset(start, bottom_top_index, south_north_index) as usize,
            adjacent: self.spec_offset(start, bottom_top_index, south_north_index - 1) as usize,
            surface: self.spec_offset(start, surface, south_north_index) as usize,
            adjacent_surface: self.spec_offset(start, surface, south_north_index - 1) as usize,
            length: (self.spec_west_east_range().end - self.spec_west_east_range().start) as usize,
        }
    }

    /// Windows for a west-east momentum line: the neighbour is the preceding
    /// west-east point on the same line.
    pub open spec fn spec_west_east_momentum_windows(self, bottom_top_index: int, south_north_index: int) -> DampingLineWindows {
        let start = self.spec_west_east_range().start as int;
        let surface = self.spec_surface_level() as int;
        DampingLineWindows {
            line: self.spec_offset(start, bottom_top_index, south_north_index) as usize,
            adjacent: self.spec_offset(start - 1, bottom_top_index, south_north_index) as usize,
            surface: self.spec_offset(start, surface, south_north_index) as usize,
            adjacent_surface: self.spec_offset(start - 1, surface, south_north_index) as usize,
            length: (self.spec_west_east_range().end - self.spec_west_east_range().start) as usize,
        }
    }

    /// Memory windows for damping the south-north momentum tendency on line
    /// `(bottom_top_index, south_north_index)`.
    pub fn south_north_momentum_windows(&self, bottom_top_index: usize, south_north_index: usize) -> (r: DampingLineWindows)
        requires
            self.spec_bottom_top_range().start <= bottom_top_index < self.spec_bottom_top_range().end,
            self.spec_south_north_momentum_south_north_range().start <= south_north_index,
            south_north_index < self.spec_south_north_momentum_south_north_range().end,
        ensures
            r == self.spec_south_north_momentum_windows(bottom_top_index as int, south_north_index as int),
            r.within(self.spec_shape().spec_point_count()),
    {
        proof {
            use_type_invariant(self);
        }
        let shape = self.shape();
        let range = self.west_east_range();
        let surface_level = self.surface_level();
        let length = range.end - range.start;
        proof {
            let w = shape.spec_west_east_points() as int;
            let b = shape.spec_bottom_top_points() as int;
            let s = shape.spec_south_north_points() as int;
            let last = range.end - 1;
            lemma_linear_index_in_bounds(last as int, bottom_top_index as int, south_north_index as int, w, b, s);
            lemma_linear_index_in_bounds(last as int, bottom_top_index as int, south_north_index - 1, w, b, s);
            lemma_linear_index_in_bounds(last as int, surface_level as int, south_north_index as int, w, b, s);
            lemma_linear_index_in_bounds(last as int, surface_level as int, south_north_index - 1, w, b, s);
        }
        DampingLineWindows {
            line: shape.linear_index(range.start, bottom_top_index, south_north_index),
            adjacent: shape.linear_index(range.start, bottom_top_index, south_north_index - 1),
            surface: shape.linear_index(range.start, surface_level, south_north_index),
            adjacent_surface: shape.linear_index(range.start, surface_level, south_north_index - 1),
            length,
        }
    }

    /// Memory windows for damping the west-east momentum tendency on line
    /// `(bottom_top_index, south_north_index)`.
    pub fn west_east_momentum_windows(&self, bottom_top_index: usize, south_north_index: usize) -> (r: DampingLineWindows)
        requires
            self.spec_bottom_top_range().start <= bottom_top_index < self.spec_bottom_top_range().end,
            self.spec_west_east_momentum_south_north_range().start <= south_north_index,
            south_north_index < self.spec_west_east_momentum_south_north_range().end,
        ensures
            r == self.spec_west_east_momentum_windows(bottom_top_index as int, south_north_index as int),
            r.within(self.spec_shape().spec_point_count()),
    {
        proof {
            use_type_invariant(self);
        }
        let shape = self.shape();
        let range = self.west_east_range();
        let surface_level = self.surface_level();
        let length = range.end - range.start;
        proof {
            let w = shape.spec_west_east_points() as int;
            let b = shape.spec_bottom_top_points() as int;
            let s = shape.spec_south_north_points() as int;
            let last = range.end - 1;
            lemma_linear_index_in_bounds(last as int, bottom_top_index as int, south_north_index as int, w, b, s);
            lemma_linear_index_in_bounds(last as int, surface_level as int, south_north_index as int, w, b, s);
        }
        DampingLineWindows {
            line: shape.linear_index(range.start, bottom_top_index, south_north_index),
            adjacent: shape.linear_index(range.start - 1, bottom_top_index, south_north_index),
            surface: shape.linear_index(range.start, surface_level, south_north_index),
            adjacent_surface: shape.linear_index(range.start - 1, surface_level, south_north_index),
            length,
        }
    }
}

} // verus!
