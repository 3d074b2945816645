use std::ops::Range;

use vstd::prelude::*;

use crate::grid::GridShape;
use crate::held_suarez::{HeldSuarezDampingAxis, HeldSuarezDampingError, HeldSuarezDampingResult};

verus! {

/// Outcome of [`validate_range`].
pub open spec fn spec_range_check(
    axis: HeldSuarezDampingAxis,
    range: Range<usize>,
    field_extent: usize,
) -> HeldSuarezDampingResult<()> {
    if range.start >= range.end {
        Err(HeldSuarezDampingError::EmptyRange { axis })
    } else if range.end > field_extent {
        Err(HeldSuarezDampingError::RangeOutOfBounds { axis, range_end: range.end, field_extent })
    } else {
        Ok(())
    }
}

/// Outcome of [`HeldSuarezDampingRegion::try_new`]'s checks, in order.
pub open spec fn spec_region_check(
    shape: GridShape,
    west_east_range: Range<usize>,
    bottom_top_range: Range<usize>,
    west_east_momentum_south_north_range: Range<usize>,
    south_north_momentum_south_north_range: Range<usize>,
    surface_level: usize,
) -> HeldSuarezDampingResult<()> {
    if spec_range_check(HeldSuarezDampingAxis::WestEast, west_east_range, shape.spec_west_east_points()) is Err {
        spec_range_check(HeldSuarezDampingAxis::WestEast, west_east_range, shape.spec_west_east_points())
    } else if spec_range_check(HeldSuarezDampingAxis::BottomTop, bottom_top_range, shape.spec_bottom_top_points()) is Err {
        spec_range_check(HeldSuarezDampingAxis::BottomTop, bottom_top_range, shape.spec_bottom_top_points())
    } else if spec_range_check(HeldSuarezDampingAxis::WestEastMomentumSouthNorth,
        west_east_momentum_south_north_range, shape.spec_south_north_points()) is Err {
        spec_range_check(HeldSuarezDampingAxis::WestEastMomentumSouthNorth,
            west_east_momentum_south_north_range, shape.spec_south_north_points())
    } else if spec_range_check(HeldSuarezDampingAxis::SouthNorthMomentumSouthNorth,
        south_north_momentum_south_north_range, shape.spec_south_north_points()) is Err {
        spec_range_check(HeldSuarezDampingAxis::SouthNorthMomentumSouthNorth,
            south_north_momentum_south_north_range, shape.spec_south_north_points())
    } else if west_east_range.start == 0 {
        Err(HeldSuarezDampingError::MissingPrecedingNeighbor { axis: HeldSuarezDampingAxis::WestEast })
    } else if south_north_momentum_south_north_range.start == 0 {
        Err(HeldSuarezDampingError::MissingPrecedingNeighbor { axis: HeldSuarezDampingAxis::SouthNorthMomentumSouthNorth })
    } else if surface_level >= shape.spec_bottom_top_points() {
        Err(HeldSuarezDampingError::SurfaceLevelOutOfBounds {
            surface_level,
            bottom_top_points: shape.spec_bottom_top_points(),
        })
    } else {
        Ok(())
    }
}

/// Validated memory offsets and active ranges for Held-Suarez damping.
#[derive(Debug, PartialEq, Eq)]
pub struct HeldSuarezDampingRegion {
    shape: GridShape,
    west_east_range: Range<usize>,
    bottom_top_range: Range<usize>,
    west_east_momentum_south_north_range: Range<usize>,
    south_north_momentum_south_north_range: Range<usize>,
    surface_level: usize,
}

impl HeldSuarezDampingRegion {
    pub closed spec fn spec_shape(self) -> GridShape {
        self.shape
    }

    pub closed spec fn spec_west_east_range(self) -> Range<usize> {
        self.west_east_range
    }

    pub closed spec fn spec_bottom_top_range(self) -> Range<usize> {
        self.bottom_top_range
    }

    pub closed spec fn spec_west_east_momentum_south_north_range(self) -> Range<usize> {
        self.west_east_momentum_south_north_range
    }

    pub closed spec fn spec_south_north_momentum_south_north_range(self) -> Range<usize> {
        self.south_north_momentum_south_north_range
    }

    pub closed spec fn spec_surface_level(self) -> usize {
        self.surface_level
    }

    /// Every region passed validation.
    #[verifier::type_invariant]
    pub open spec fn valid(self) -> bool {
        &&& self.spec_shape().wf()
        &&& spec_region_check(
            self.spec_shape(),
            self.spec_west_east_range(),
            self.spec_bottom_top_range(),
            self.spec_west_east_momentum_south_north_range(),
            self.spec_south_north_momentum_south_north_range(),
            self.spec_surface_level(),
        ) is Ok
    }

    /// Validates ranges, staggered neighbors, and the pressure reference level.
    ///
    /// Ranges use zero-based half-open memory offsets. The west-east range must
    /// have a preceding point for the west-east staggered pressure average;
    /// the south-north momentum range needs the analogous preceding row.
    pub fn try_new(
        shape: GridShape,
        west_east_range: Range<usize>,
        bottom_top_range: Range<usize>,
        west_east_momentum_south_north_range: Range<usize>,
        south_north_momentum_south_north_range: Range<usize>,
        surface_level: usize,
    ) -> (r: HeldSuarezDampingResult<Self>)
        ensures
            match r {
                Ok(region) => {
                    &&& spec_region_check(shape, west_east_range, bottom_top_range,
                        west_east_momentum_south_north_range, south_north_momentum_south_north_range, surface_level) is Ok
                    &&& region.spec_shape() == shape
                    &&& region.spec_west_east_range() == west_east_range
                    &&& region.spec_bottom_top_range() == bottom_top_range
                    &&& region.spec_west_east_momentum_south_north_range() == west_east_momentum_south_north_range
                    &&& region.spec_south_north_momentum_south_north_range() == south_north_momentum_south_north_range
                    &&& region.spec_surface_level() == surface_level
                },
                Err(e) => spec_region_check(shape, west_east_range, bottom_top_range,
                    west_east_momentum_south_north_range, south_north_momentum_south_north_range, surface_level)
                    == Err::<(), _>(e),
            },
    {
        proof {
            use_type_invariant(&shape);
        }
        validate_range(HeldSuarezDampingAxis::WestEast, &west_east_range, shape.west_east_points())?;
        validate_range(HeldSuarezDampingAxis::BottomTop, &bottom_top_range, shape.bottom_top_points())?;
        validate_range(
            HeldSuarezDampingAxis::WestEastMomentumSouthNorth,
            &west_east_momentum_south_north_range,
            shape.south_north_points(),
        )?;
        validate_range(
            HeldSuarezDampingAxis::SouthNorthMomentumSouthNorth,
            &south_north_momentum_south_north_range,
            shape.south_north_points(),
        )?;
        if west_east_range.start == 0 {
            return Err(HeldSuarezDampingError::MissingPrecedingNeighbor {
                axis: HeldSuarezDampingAxis::WestEast,
            });
        }
        if south_north_momentum_south_north_range.start == 0 {
            return Err(HeldSuarezDampingError::MissingPrecedingNeighbor {
                axis: HeldSuarezDampingAxis::SouthNorthMomentumSouthNorth,
            });
        }
        if surface_level >= shape.bottom_top_points() {
            return Err(HeldSuarezDampingError::SurfaceLevelOutOfBounds {
                surface_level,
                bottom_top_points: shape.bottom_top_points(),
            });
        }
        Ok(Self {
            shape,
            west_east_range,
            bottom_top_range,
            west_east_momentum_south_north_range,
            south_north_momentum_south_north_range,
            surface_level,
        })
    }

    /// Returns the field shape used for validation.
    pub fn shape(&self) -> (r: GridShape)
        ensures r == self.spec_shape(),
    {
        self.shape
    }

    /// Common west-east range of both tendencies.
    pub fn west_east_range(&self) -> (r: Range<usize>)
        ensures r == self.spec_west_east_range(),
    {
        self.west_east_range.start..self.west_east_range.end
    }

    /// Common active vertical range.
    pub fn bottom_top_range(&self) -> (r: Range<usize>)
        ensures r == self.spec_bottom_top_range(),
    {
        self.bottom_top_range.start..self.bottom_top_range.end
    }

    /// South-north range of west-east momentum points.
    pub fn west_east_momentum_south_north_range(&self) -> (r: Range<usize>)
        ensures r == self.spec_west_east_momentum_south_north_range(),
    {
        self.west_east_momentum_south_north_range.start..self.west_east_momentum_south_north_range.end
    }

    /// South-north range of south-north momentum points.
    pub fn south_north_momentum_south_north_range(&self) -> (r: Range<usize>)
        ensures r == self.spec_south_north_momentum_south_north_range(),
    {
        self.south_north_momentum_south_north_range.start..self.south_north_momentum_south_north_range.end
    }

    /// Zero-based memory level of the surface pressure reference.
    pub fn surface_level(&self) -> (r: usize)
        ensures r == self.spec_surface_level(),
    {
        self.surface_level
    }
}

impl Clone for HeldSuarezDampingRegion {
    fn clone(&self) -> (r: Self)
        ensures r == *self,
    {
        proof {
            use_type_invariant(self);
        }
        Self {
            shape: self.shape,
            west_east_range: self.west_east_range.start..self.west_east_range.end,
            bottom_top_range: self.bottom_top_range.start..self.bottom_top_range.end,
            west_east_momentum_south_north_range: self.west_east_momentum_south_north_range.start
                ..self.west_east_momentum_south_north_range.end,
            south_north_momentum_south_north_range: self.south_north_momentum_south_north_range.start
                ..self.south_north_momentum_south_north_range.end,
            surface_level: self.surface_level,
        }
    }
}

/// Checks that a range is non-empty and ends within the field extent.
pub fn validate_range(
    axis: HeldSuarezDampingAxis,
    range: &Range<usize>,
    field_extent: usize,
) -> (r: HeldSuarezDampingResult<()>)
    ensures r == spec_range_check(axis, *range, field_extent),
{
    if range.start >= range.end {
        return Err(HeldSuarezDampingError::EmptyRange { axis });
    }
    if range.end > field_extent {
        return Err(HeldSuarezDampingError::RangeOutOfBounds {
            axis,
            range_end: range.end,
            field_extent,
        });
    }
    Ok(())
}

} // verus!
