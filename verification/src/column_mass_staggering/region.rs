use std::ops::Range;

use vstd::prelude::*;

use crate::column_mass_staggering::{
    ColumnMassStaggeringAxis, ColumnMassStaggeringAxisBoundary, ColumnMassStaggeringError,
    ColumnMassStaggeringResult,
};
use crate::grid::{min_usize, spec_min, GridShape};

verus! {

/// Outcome of [`validate_mass_domain_range`].
pub open spec fn spec_mass_domain_check(
    axis: ColumnMassStaggeringAxis,
    range: Range<usize>,
    field_extent: usize,
) -> ColumnMassStaggeringResult<()> {
    if range.start >= range.end {
        Err(ColumnMassStaggeringError::EmptyMassDomainRange { axis })
    } else if range.end >= field_extent {
        Err(ColumnMassStaggeringError::MassDomainBoundaryOutOfBounds {
            axis,
            boundary_index: range.end,
            field_extent,
        })
    } else {
        Ok(())
    }
}

/// Outcome of [`validate_tile_range`].
pub open spec fn spec_tile_check(
    axis: ColumnMassStaggeringAxis,
    tile_range: Range<usize>,
    mass_domain_range: Range<usize>,
    field_extent: usize,
) -> ColumnMassStaggeringResult<()> {
    if tile_range.start >= tile_range.end {
        Err(ColumnMassStaggeringError::EmptyTileRange { axis })
    } else if tile_range.end > field_extent {
        Err(ColumnMassStaggeringError::TileRangeOutOfBounds {
            axis,
            range_end: tile_range.end,
            field_extent,
        })
    } else if tile_range.start < mass_domain_range.start || tile_range.end > mass_domain_range.end + 1 {
        Err(ColumnMassStaggeringError::TileOutsideMassDomain { axis })
    } else {
        Ok(())
    }
}

/// Point `x` lies in the mass domain or on the upper stagger point just past
/// it.
pub open spec fn spec_in_domain_or_stagger(domain: Range<usize>, x: int) -> bool {
    domain.start <= x <= domain.end
}

/// The tile check accepts exactly a non-empty tile inside storage whose
/// every point lies in its mass domain or on the one upper boundary
/// momentum point just past it.
pub proof fn lemma_tile_check_accepts(
    axis: ColumnMassStaggeringAxis,
    tile: Range<usize>,
    domain: Range<usize>,
    field_extent: usize,
)
    ensures
        spec_tile_check(axis, tile, domain, field_extent) is Ok <==> {
            &&& tile.start < tile.end
            &&& tile.end <= field_extent
            &&& forall|x: int| tile.start <= x < tile.end ==> #[trigger] spec_in_domain_or_stagger(domain, x)
        },
{
    if tile.start < tile.end && tile.end <= field_extent
        && (forall|x: int| tile.start <= x < tile.end ==> #[trigger] spec_in_domain_or_stagger(domain, x)) {
        assert(spec_in_domain_or_stagger(domain, tile.start as int));
        assert(spec_in_domain_or_stagger(domain, tile.end - 1));
    }
}

/// The first failure of two checks run in order.
pub open spec fn spec_then<E>(first: Result<(), E>, second: Result<(), E>) -> Result<(), E> {
    match first {
        Err(e) => Err(e),
        Ok(_) => second,
    }
}

/// Outcome of [`ColumnMassStaggeringRegion::try_new`]'s validation, checks in order.
pub open spec fn spec_region_check(
    shape: GridShape,
    mass_domain_west_east_range: Range<usize>,
    mass_domain_south_north_range: Range<usize>,
    tile_west_east_momentum_range: Range<usize>,
    tile_south_north_momentum_range: Range<usize>,
) -> ColumnMassStaggeringResult<()> {
    if shape.spec_bottom_top_points() != 1 {
        Err(ColumnMassStaggeringError::RequiresSingleVerticalLevel {
            bottom_top_points: shape.spec_bottom_top_points(),
        })
    } else {
        spec_then(
            spec_mass_domain_check(ColumnMassStaggeringAxis::WestEast, mass_domain_west_east_range, shape.spec_west_east_points()),
        spec_then(
            spec_mass_domain_check(ColumnMassStaggeringAxis::SouthNorth, mass_domain_south_north_range, shape.spec_south_north_points()),
        spec_then(
            spec_tile_check(ColumnMassStaggeringAxis::WestEast, tile_west_east_momentum_range, mass_domain_west_east_range, shape.spec_west_east_points()),
            spec_tile_check(ColumnMassStaggeringAxis::SouthNorth, tile_south_north_momentum_range, mass_domain_south_north_range, shape.spec_south_north_points()),
        )))
    }
}

/// Validated physical-domain and active-tile ranges for column-mass staggering.
///
/// Memory storage comes from [`Self::shape`]. The mass-domain ranges represent
/// WRF's inclusive lower and exclusive upper mass-point bounds (`ids..ide` and
/// `jds..jde`), while the tile ranges include momentum points through WRF's
/// inclusive `ite` and `jte`.
#[derive(Debug, PartialEq, Eq)]
pub struct ColumnMassStaggeringRegion {
    shape: GridShape,
    mass_domain_west_east_range: Range<usize>,
    mass_domain_south_north_range: Range<usize>,
    tile_west_east_momentum_range: Range<usize>,
    tile_south_north_momentum_range: Range<usize>,
    west_east_boundary: ColumnMassStaggeringAxisBoundary,
    south_north_boundary: ColumnMassStaggeringAxisBoundary,
}

impl ColumnMassStaggeringRegion {
    pub closed spec fn spec_shape(self) -> GridShape {
        self.shape
    }

    pub closed spec fn spec_mass_domain_west_east(self) -> Range<usize> {
        self.mass_domain_west_east_range
    }

    pub closed spec fn spec_mass_domain_south_north(self) -> Range<usize> {
        self.mass_domain_south_north_range
    }

    pub closed spec fn spec_tile_west_east(self) -> Range<usize> {
        self.tile_west_east_momentum_range
    }

    pub closed spec fn spec_tile_south_north(self) -> Range<usize> {
        self.tile_south_north_momentum_range
    }

    pub closed spec fn spec_west_east_boundary(self) -> ColumnMassStaggeringAxisBoundary {
        self.west_east_boundary
    }

    pub closed spec fn spec_south_north_boundary(self) -> ColumnMassStaggeringAxisBoundary {
        self.south_north_boundary
    }

    /// Every region passed validation and carries the contacts derived from it.
    #[verifier::type_invariant]
    pub open spec fn valid(self) -> bool {
        &&& self.spec_shape().wf()
        &&& spec_region_check(
            self.spec_shape(),
            self.spec_mass_domain_west_east(),
            self.spec_mass_domain_south_north(),
            self.spec_tile_west_east(),
            self.spec_tile_south_north(),
        ) is Ok
        &&& self.spec_west_east_boundary() == ColumnMassStaggeringAxisBoundary::spec_from_contacts(
            self.spec_tile_west_east().start == self.spec_mass_domain_west_east().start,
            self.spec_tile_west_east().end == self.spec_mass_domain_west_east().end + 1,
        )
        &&& self.spec_south_north_boundary() == ColumnMassStaggeringAxisBoundary::spec_from_contacts(
            self.spec_tile_south_north().start == self.spec_mass_domain_south_north().start,
            self.spec_tile_south_north().end == self.spec_mass_domain_south_north().end + 1,
        )
    }

    /// Validates mass-domain and active momentum-tile ranges.
    ///
    /// All ranges use zero-based, half-open memory offsets. A mass-domain range
    /// excludes its upper physical-boundary momentum point, so that endpoint
    /// must itself fit in the field shape. A tile range may include that point.
    /// Lower and upper physical-boundary contact is derived by comparing the
    /// tile endpoints with the domain endpoints.
    pub fn try_new(
        shape: GridShape,
        mass_domain_west_east_range: Range<usize>,
        mass_domain_south_north_range: Range<usize>,
        tile_west_east_momentum_range: Range<usize>,
        tile_south_north_momentum_range: Range<usize>,
    ) -> (r: ColumnMassStaggeringResult<Self>)
        ensures
            match r {
                Ok(region) => {
                    &&& spec_region_check(shape, mass_domain_west_east_range, mass_domain_south_north_range,
                        tile_west_east_momentum_range, tile_south_north_momentum_range) is Ok
                    &&& region.spec_shape() == shape
                    &&& region.spec_mass_domain_west_east() == mass_domain_west_east_range
                    &&& region.spec_mass_domain_south_north() == mass_domain_south_north_range
                    &&& region.spec_tile_west_east() == tile_west_east_momentum_range
                    &&& region.spec_tile_south_north() == tile_south_north_momentum_range
                },
                Err(e) => spec_region_check(shape, mass_domain_west_east_range, mass_domain_south_north_range,
                    tile_west_east_momentum_range, tile_south_north_momentum_range) == Err::<(), _>(e),
            },
    {
        proof {
            use_type_invariant(&shape);
        }
        if shape.bottom_top_points() != 1 {
            return Err(ColumnMassStaggeringError::RequiresSingleVerticalLevel {
                bottom_top_points: shape.bottom_top_points(),
            });
        }
        validate_mass_domain_range(
            ColumnMassStaggeringAxis::WestEast,
            &mass_domain_west_east_range,
            shape.west_east_points(),
        )?;
        validate_mass_domain_range(
            ColumnMassStaggeringAxis::SouthNorth,
            &mass_domain_south_north_range,
            shape.south_north_points(),
        )?;
        validate_tile_range(
            ColumnMassStaggeringAxis::WestEast,
            &tile_west_east_momentum_range,
            &mass_domain_west_east_range,
            shape.west_east_points(),
        )?;
        validate_tile_range(
            ColumnMassStaggeringAxis::SouthNorth,
            &tile_south_north_momentum_range,
            &mass_domain_south_north_range,
            shape.south_north_points(),
        )?;

        let west_east_boundary = ColumnMassStaggeringAxisBoundary::from_contacts(
            tile_west_east_momentum_range.start == mass_domain_west_east_range.start,
            tile_west_east_momentum_range.end == mass_domain_west_east_range.end + 1,
        );
        let south_north_boundary = ColumnMassStaggeringAxisBoundary::from_contacts(
            tile_south_north_momentum_range.start == mass_domain_south_north_range.start,
            tile_south_north_momentum_range.end == mass_domain_south_north_range.end + 1,
        );

        Ok(Self {
            shape,
            mass_domain_west_east_range,
            mass_domain_south_north_range,
            tile_west_east_momentum_range,
            tile_south_north_momentum_range,
            west_east_boundary,
            south_north_boundary,
        })
    }

    /// Returns the field shape used during validation.
    pub fn shape(&self) -> (r: GridShape)
        ensures r == self.spec_shape(),
    {
        self.shape
    }

    /// West-east extent of west-east momentum outputs: the whole tile.
    pub fn west_east_momentum_west_east_range(&self) -> (r: Range<usize>)
        ensures
            r == self.spec_tile_west_east(),
            r.start < r.end <= self.spec_shape().spec_west_east_points(),
    {
        proof {
            use_type_invariant(self);
        }
        self.tile_west_east_momentum_range.start..self.tile_west_east_momentum_range.end
    }

    /// South-north extent of west-east momentum outputs: the tile clipped to
    /// the mass domain.
    pub fn west_east_momentum_south_north_range(&self) -> (r: Range<usize>)
        ensures
            r.start == self.spec_tile_south_north().start,
            r.end == spec_min(self.spec_tile_south_north().end, self.spec_mass_domain_south_north().end),
            r.start <= r.end < self.spec_shape().spec_south_north_points(),
    {
        proof {
            use_type_invariant(self);
        }
        self.tile_south_north_momentum_range.start..min_usize(
            self.tile_south_north_momentum_range.end,
            self.mass_domain_south_north_range.end,
        )
    }

    /// West-east extent of south-north momentum outputs: the tile clipped to
    /// the mass domain.
    pub fn south_north_momentum_west_east_range(&self) -> (r: Range<usize>)
        ensures
            r.start == self.spec_tile_west_east().start,
            r.end == spec_min(self.spec_tile_west_east().end, self.spec_mass_domain_west_east().end),
            r.start <= r.end < self.spec_shape().spec_west_east_points(),
    {
        proof {
            use_type_invariant(self);
        }
        self.tile_west_east_momentum_range.start..min_usize(
            self.tile_west_east_momentum_range.end,
            self.mass_domain_west_east_range.end,
        )
    }

    /// South-north extent of south-north momentum outputs: the whole tile.
    pub fn south_north_momentum_south_north_range(&self) -> (r: Range<usize>)
        ensures
            r == self.spec_tile_south_north(),
            r.start < r.end <= self.spec_shape().spec_south_north_points(),
    {
        proof {
            use_type_invariant(self);
        }
        self.tile_south_north_momentum_range.start..self.tile_south_north_momentum_range.end
    }

    /// Mass-point ranges written by full-column-mass calculation: one memory
    /// point before the tile on each axis, through the tile clipped to the
    /// mass domain.
    pub fn full_mass_ranges(&self) -> (r: ColumnMassStaggeringResult<(Range<usize>, Range<usize>)>)
        ensures
            match r {
                Ok((west_east, south_north)) => {
                    &&& self.spec_tile_west_east().start >= 1
                    &&& self.spec_tile_south_north().start >= 1
                    &&& west_east.start == self.spec_tile_west_east().start - 1
                    &&& west_east.end == spec_min(self.spec_tile_west_east().end, self.spec_mass_domain_west_east().end)
                    &&& south_north.start == self.spec_tile_south_north().start - 1
                    &&& south_north.end == spec_min(self.spec_tile_south_north().end, self.spec_mass_domain_south_north().end)
                    &&& west_east.start < west_east.end < self.spec_shape().spec_west_east_points()
                    &&& south_north.start < south_north.end < self.spec_shape().spec_south_north_points()
                },
                Err(e) => if self.spec_tile_west_east().start == 0 {
                    e == ColumnMassStaggeringError::FullMassLowerHaloMissing { axis: ColumnMassStaggeringAxis::WestEast }
                } else {
                    &&& self.spec_tile_south_north().start == 0
                    &&& e == ColumnMassStaggeringError::FullMassLowerHaloMissing { axis: ColumnMassStaggeringAxis::SouthNorth }
                },
            },
    {
        proof {
            use_type_invariant(self);
        }
        if self.tile_west_east_momentum_range.start == 0 {
            return Err(ColumnMassStaggeringError::FullMassLowerHaloMissing {
                axis: ColumnMassStaggeringAxis::WestEast,
            });
        }
        if self.tile_south_north_momentum_range.start == 0 {
            return Err(ColumnMassStaggeringError::FullMassLowerHaloMissing {
                axis: ColumnMassStaggeringAxis::SouthNorth,
            });
        }
        Ok((
            (self.tile_west_east_momentum_range.start - 1)..min_usize(
                self.tile_west_east_momentum_range.end,
                self.mass_domain_west_east_range.end,
            ),
            (self.tile_south_north_momentum_range.start - 1)..min_usize(
                self.tile_south_north_momentum_range.end,
                self.mass_domain_south_north_range.end,
            ),
        ))
    }

    /// Physical-boundary contact of the tile along the west-east axis.
    pub fn west_east_boundary(&self) -> (r: ColumnMassStaggeringAxisBoundary)
        ensures r == self.spec_west_east_boundary(),
    {
        self.west_east_boundary
    }

    /// Physical-boundary contact of the tile along the south-north axis.
    pub fn south_north_boundary(&self) -> (r: ColumnMassStaggeringAxisBoundary)
        ensures r == self.spec_south_north_boundary(),
    {
        self.south_north_boundary
    }
}

/// A tile that touches both physical boundaries of an axis spans at least
/// two momentum points, so the lower and upper boundary outputs are distinct
/// points; a tile starting at the first memory point touches the lower
/// boundary.
pub proof fn lemma_boundary_outputs_distinct(region: ColumnMassStaggeringRegion)
    requires
        region.valid(),
    ensures
        region.spec_west_east_boundary().spec_touches_lower() && region.spec_west_east_boundary().spec_touches_upper()
            ==> region.spec_tile_west_east().start + 2 <= region.spec_tile_west_east().end,
        region.spec_south_north_boundary().spec_touches_lower() && region.spec_south_north_boundary().spec_touches_upper()
            ==> region.spec_tile_south_north().start + 2 <= region.spec_tile_south_north().end,
        region.spec_tile_west_east().start == 0 ==> region.spec_west_east_boundary().spec_touches_lower(),
        region.spec_tile_south_north().start == 0 ==> region.spec_south_north_boundary().spec_touches_lower(),
{
}

impl Clone for ColumnMassStaggeringRegion {
    fn clone(&self) -> (r: Self)
        ensures r == *self,
    {
        proof {
            use_type_invariant(self);
        }
        Self {
            shape: self.shape,
            mass_domain_west_east_range: self.mass_domain_west_east_range.start..self.mass_domain_west_east_range.end,
            mass_domain_south_north_range: self.mass_domain_south_north_range.start..self.mass_domain_south_north_range.end,
            tile_west_east_momentum_range: self.tile_west_east_momentum_range.start..self.tile_west_east_momentum_range.end,
            tile_south_north_momentum_range: self.tile_south_north_momentum_range.start..self.tile_south_north_momentum_range.end,
            west_east_boundary: self.west_east_boundary,
            south_north_boundary: self.south_north_boundary,
        }
    }
}

/// Checks that a mass-domain range is non-empty and that its upper
/// physical-boundary momentum point fits in the field extent.
pub fn validate_mass_domain_range(
    axis: ColumnMassStaggeringAxis,
    range: &Range<usize>,
    field_extent: usize,
) -> (r: ColumnMassStaggeringResult<()>)
    ensures r == spec_mass_domain_check(axis, *range, field_extent),
{
    if range.start >= range.end {
        return Err(ColumnMassStaggeringError::EmptyMassDomainRange { axis });
    }
    if range.end >= field_extent {
        return Err(ColumnMassStaggeringError::MassDomainBoundaryOutOfBounds {
            axis,
            boundary_index: range.end,
            field_extent,
        });
    }
    Ok(())
}

/// Checks that a tile range is non-empty, fits in the field extent, and lies
/// within its mass domain plus the upper physical-boundary momentum point.
pub fn validate_tile_range(
    axis: ColumnMassStaggeringAxis,
    tile_range: &Range<usize>,
    mass_domain_range: &Range<usize>,
    field_extent: usize,
) -> (r: ColumnMassStaggeringResult<()>)
    ensures r == spec_tile_check(axis, *tile_range, *mass_domain_range, field_extent),
{
    if tile_range.start >= tile_range.end {
        return Err(ColumnMassStaggeringError::EmptyTileRange { axis });
    }
    if tile_range.end > field_extent {
        return Err(ColumnMassStaggeringError::TileRangeOutOfBounds {
            axis,
            range_end: tile_range.end,
            field_extent,
        });
    }
    if tile_range.start < mass_domain_range.start || tile_range.end - 1 > mass_domain_range.end {
        return Err(ColumnMassStaggeringError::TileOutsideMassDomain { axis });
    }
    Ok(())
}

} // verus!
