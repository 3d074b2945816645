use std::ops::Range;

use vstd::prelude::*;

use crate::grid::{min_usize, spec_first_failure, spec_min, GridShape};
use crate::inverse_density::{InverseDensityAxis, InverseDensityError, InverseDensityField, InverseDensityResult};

verus! {

/// Outcome of [`validate_domain`].
pub open spec fn spec_domain_check(axis: InverseDensityAxis, range: Range<usize>, field_extent: usize) -> InverseDensityResult<()> {
    if range.start >= range.end {
        Err(InverseDensityError::EmptyMassDomainRange { axis })
    } else if range.end > field_extent {
        Err(InverseDensityError::MassDomainRangeOutOfBounds { axis, range_end: range.end, field_extent })
    } else {
        Ok(())
    }
}

/// Outcome of [`validate_tile`]: the tile may reach one upper stagger point
/// past its mass domain.
pub open spec fn spec_tile_check(
    axis: InverseDensityAxis,
    tile: Range<usize>,
    domain: Range<usize>,
    field_extent: usize,
) -> InverseDensityResult<()> {
    if tile.start >= tile.end {
        Err(InverseDensityError::EmptyTileRange { axis })
    } else if tile.end > field_extent {
        Err(InverseDensityError::TileRangeOutOfBounds { axis, range_end: tile.end, field_extent })
    } else if tile.start < domain.start || tile.end > domain.end + 1 {
        Err(InverseDensityError::TileOutsideMassDomain { axis })
    } else {
        Ok(())
    }
}

/// Clipping keeps exactly the tile points that lie below the domain end: a
/// tile that ends inside its domain keeps its last point, and only points at
/// or past `domain_end` are dropped.
pub proof fn lemma_clipped_points(tile: Range<usize>, domain_end: usize, x: int)
    ensures
        ({
            let r = spec_clipped(tile, domain_end);
            (r.start <= x < r.end) <==> (tile.start <= x < tile.end && x < domain_end)
        }),
        tile.start <= tile.end && tile.end <= domain_end ==> spec_clipped(tile, domain_end) == tile,
{
}

/// Point `x` lies in the mass domain or on the upper stagger point just past
/// it.
pub open spec fn spec_in_domain_or_stagger(domain: Range<usize>, x: int) -> bool {
    domain.start <= x <= domain.end
}

/// The tile check accepts exactly a non-empty tile inside storage whose
/// every point lies in its mass domain or on the one upper stagger point just
/// past it.
pub proof fn lemma_tile_check_accepts(axis: InverseDensityAxis, tile: Range<usize>, domain: Range<usize>, field_extent: usize)
    ensures
        spec_tile_check(axis, tile, domain, field_extent) is Ok <==> {
            &&& tile.start < tile.end
            &&& tile.end <= field_extent
            &&& forall|x: int| tile.start <= x < tile.end ==> #[trigger] spec_in_domain_or_stagger(domain, x)
        },
{
    if tile.start < tile.end && tile.end <= field_extent
        && (forall|x: int| tile.start <= x < tile.end ==> #[trigger] spec_in_domain_or_stagger(domain, x)) {
        assert(spec_in_domain_or_stagger(domain, tile.start as int));
        assert(spec_in_domain_or_stagger(domain, tile.end - 1));
    }
}


/// Outcome of [`InverseDensityRegion::try_new`]'s checks: the three domains
/// on west-east, south-north and bottom-top, then the three tiles.
pub open spec fn spec_region_check(
    shape: GridShape,
    west_east_domain: Range<usize>,
    south_north_domain: Range<usize>,
    bottom_top_domain: Range<usize>,
    west_east_tile: Range<usize>,
    south_north_tile: Range<usize>,
    bottom_top_tile: Range<usize>,
) -> InverseDensityResult<()> {
    spec_first_failure(seq![
        spec_domain_check(InverseDensityAxis::WestEast, west_east_domain, shape.spec_west_east_points()),
        spec_domain_check(InverseDensityAxis::SouthNorth, south_north_domain, shape.spec_south_north_points()),
        spec_domain_check(InverseDensityAxis::BottomTop, bottom_top_domain, shape.spec_bottom_top_points()),
        spec_tile_check(InverseDensityAxis::WestEast, west_east_tile, west_east_domain, shape.spec_west_east_points()),
        spec_tile_check(InverseDensityAxis::SouthNorth, south_north_tile, south_north_domain, shape.spec_south_north_points()),
        spec_tile_check(InverseDensityAxis::BottomTop, bottom_top_tile, bottom_top_domain, shape.spec_bottom_top_points()),
    ])
}

/// Validated physical mass domain and active tile for full inverse density.
///
/// Ranges use zero-based, half-open storage offsets. A tile may contain the
/// single upper stagger point accepted by WRF; calculation clips that point on
/// every axis because `alt`, `al`, and `alb` are mass-grid fields.
#[derive(Debug, PartialEq, Eq)]
pub struct InverseDensityRegion {
    shape: GridShape,
    west_east_domain: Range<usize>,
    south_north_domain: Range<usize>,
    bottom_top_domain: Range<usize>,
    west_east_tile: Range<usize>,
    south_north_tile: Range<usize>,
    bottom_top_tile: Range<usize>,
}

/// The tile clipped to end no later than its domain.
pub open spec fn spec_clipped(tile: Range<usize>, domain_end: usize) -> Range<usize> {
    Range { start: spec_min(tile.start, domain_end), end: spec_min(tile.end, domain_end) }
}

impl InverseDensityRegion {
    pub closed spec fn spec_shape(self) -> GridShape {
        self.shape
    }

    /// Domains and tiles in the order west-east, south-north, bottom-top.
    pub closed spec fn spec_domains(self) -> (Range<usize>, Range<usize>, Range<usize>) {
        (self.west_east_domain, self.south_north_domain, self.bottom_top_domain)
    }

    pub closed spec fn spec_tiles(self) -> (Range<usize>, Range<usize>, Range<usize>) {
        (self.west_east_tile, self.south_north_tile, self.bottom_top_tile)
    }

    /// Every region passed validation.
    #[verifier::type_invariant]
    pub open spec fn valid(self) -> bool {
        &&& self.spec_shape().wf()
        &&& spec_region_check(
            self.spec_shape(),
            self.spec_domains().0,
            self.spec_domains().1,
            self.spec_domains().2,
            self.spec_tiles().0,
            self.spec_tiles().1,
            self.spec_tiles().2,
        ) is Ok
    }

    /// Validates mass-domain, tile, and storage bounds.
    pub fn try_new(
        shape: GridShape,
        west_east_domain: Range<usize>,
        south_north_domain: Range<usize>,
        bottom_top_domain: Range<usize>,
        west_east_tile: Range<usize>,
        south_north_tile: Range<usize>,
        bottom_top_tile: Range<usize>,
    ) -> (r: InverseDensityResult<Self>)
        ensures
            match r {
                Ok(region) => {
                    &&& spec_region_check(shape, west_east_domain, south_north_domain, bottom_top_domain,
                        west_east_tile, south_north_tile, bottom_top_tile) is Ok
                    &&& region.spec_shape() == shape
                    &&& region.spec_domains() == (west_east_domain, south_north_domain, bottom_top_domain)
                    &&& region.spec_tiles() == (west_east_tile, south_north_tile, bottom_top_tile)
                },
                Err(e) => spec_region_check(shape, west_east_domain, south_north_domain, bottom_top_domain,
                    west_east_tile, south_north_tile, bottom_top_tile) == Err::<(), _>(e),
            },
    {
        proof {
            use_type_invariant(&shape);
            reveal_with_fuel(spec_first_failure, 7);
        }
        validate_domain(InverseDensityAxis::WestEast, &west_east_domain, shape.west_east_points())?;
        validate_domain(InverseDensityAxis::SouthNorth, &south_north_domain, shape.south_north_points())?;
        validate_domain(InverseDensityAxis::BottomTop, &bottom_top_domain, shape.bottom_top_points())?;
        validate_tile(InverseDensityAxis::WestEast, &west_east_tile, &west_east_domain, shape.west_east_points())?;
        validate_tile(InverseDensityAxis::SouthNorth, &south_north_tile, &south_north_domain, shape.south_north_points())?;
        validate_tile(InverseDensityAxis::BottomTop, &bottom_top_tile, &bottom_top_domain, shape.bottom_top_points())?;
        Ok(Self {
            shape,
            west_east_domain,
            south_north_domain,
            bottom_top_domain,
            west_east_tile,
            south_north_tile,
            bottom_top_tile,
        })
    }

    /// Returns the three-dimensional field shape used during validation.
    pub fn shape(&self) -> (r: GridShape)
        ensures r == self.spec_shape(),
    {
        self.shape
    }

    /// Mass-point ranges written on each axis, west-east, south-north,
    /// bottom-top: the tile with any upper stagger point clipped away.
    pub fn output_ranges(&self) -> (r: (Range<usize>, Range<usize>, Range<usize>))
        ensures
            r.0 == spec_clipped(self.spec_tiles().0, self.spec_domains().0.end),
            r.1 == spec_clipped(self.spec_tiles().1, self.spec_domains().1.end),
            r.2 == spec_clipped(self.spec_tiles().2, self.spec_domains().2.end),
            // The written points are mass points inside both the tile and the domain.
            self.spec_domains().0.start <= r.0.start && r.0.end <= self.spec_domains().0.end,
            self.spec_domains().1.start <= r.1.start && r.1.end <= self.spec_domains().1.end,
            self.spec_domains().2.start <= r.2.start && r.2.end <= self.spec_domains().2.end,
            self.spec_tiles().0.start <= r.0.start && r.0.end <= self.spec_tiles().0.end,
            self.spec_tiles().1.start <= r.1.start && r.1.end <= self.spec_tiles().1.end,
            self.spec_tiles().2.start <= r.2.start && r.2.end <= self.spec_tiles().2.end,
            r.0.end <= self.spec_shape().spec_west_east_points(),
            r.1.end <= self.spec_shape().spec_south_north_points(),
            r.2.end <= self.spec_shape().spec_bottom_top_points(),
    {
        proof {
            use_type_invariant(self);
            reveal_with_fuel(spec_first_failure, 7);
        }
        (
            clipped(&self.west_east_tile, self.west_east_domain.end),
            clipped(&self.south_north_tile, self.south_north_domain.end),
            clipped(&self.bottom_top_tile, self.bottom_top_domain.end),
        )
    }
}

impl InverseDensityRegion {
    /// The written mass points on each axis are exactly the tile points that
    /// lie inside the mass domain; in particular a tile that ends inside its
    /// domain is written through its last point.
    pub proof fn lemma_output_points(self, west_east: int, south_north: int, bottom_top: int)
        requires
            self.valid(),
        ensures
            ({
                let tiles = self.spec_tiles();
                let domains = self.spec_domains();
                let out = (
                    spec_clipped(tiles.0, domains.0.end),
                    spec_clipped(tiles.1, domains.1.end),
                    spec_clipped(tiles.2, domains.2.end),
                );
                &&& (out.0.start <= west_east < out.0.end) <==> (tiles.0.start <= west_east < tiles.0.end
                    && domains.0.start <= west_east < domains.0.end)
                &&& (out.1.start <= south_north < out.1.end) <==> (tiles.1.start <= south_north < tiles.1.end
                    && domains.1.start <= south_north < domains.1.end)
                &&& (out.2.start <= bottom_top < out.2.end) <==> (tiles.2.start <= bottom_top < tiles.2.end
                    && domains.2.start <= bottom_top < domains.2.end)
            }),
    {
        reveal_with_fuel(spec_first_failure, 7);
        let tiles = self.spec_tiles();
        let domains = self.spec_domains();
        lemma_clipped_points(tiles.0, domains.0.end, west_east);
        lemma_clipped_points(tiles.1, domains.1.end, south_north);
        lemma_clipped_points(tiles.2, domains.2.end, bottom_top);
    }
}


impl Clone for InverseDensityRegion {
    fn clone(&self) -> (r: Self)
        ensures r == *self,
    {
        proof {
            use_type_invariant(self);
        }
        Self {
            shape: self.shape,
            west_east_domain: self.west_east_domain.start..self.west_east_domain.end,
            south_north_domain: self.south_north_domain.start..self.south_north_domain.end,
            bottom_top_domain: self.bottom_top_domain.start..self.bottom_top_domain.end,
            west_east_tile: self.west_east_tile.start..self.west_east_tile.end,
            south_north_tile: self.south_north_tile.start..self.south_north_tile.end,
            bottom_top_tile: self.bottom_top_tile.start..self.bottom_top_tile.end,
        }
    }
}

/// Clips a tile so that it ends no later than `domain_end`.
pub fn clipped(tile: &Range<usize>, domain_end: usize) -> (r: Range<usize>)
    ensures r == spec_clipped(*tile, domain_end),
{
    min_usize(tile.start, domain_end)..min_usize(tile.end, domain_end)
}

/// Checks that a mass-domain range is non-empty and fits in storage.
pub fn validate_domain(axis: InverseDensityAxis, range: &Range<usize>, field_extent: usize) -> (r: InverseDensityResult<()>)
    ensures r == spec_domain_check(axis, *range, field_extent),
{
    if range.start >= range.end {
        return Err(InverseDensityError::EmptyMassDomainRange { axis });
    }
    if range.end > field_extent {
        return Err(InverseDensityError::MassDomainRangeOutOfBounds { axis, range_end: range.end, field_extent });
    }
    Ok(())
}

/// Checks that a tile is non-empty, fits in storage, and lies inside its
/// domain plus one upper stagger point.
pub fn validate_tile(
    axis: InverseDensityAxis,
    tile: &Range<usize>,
    domain: &Range<usize>,
    field_extent: usize,
) -> (r: InverseDensityResult<()>)
    ensures r == spec_tile_check(axis, *tile, *domain, field_extent),
{
    if tile.start >= tile.end {
        return Err(InverseDensityError::EmptyTileRange { axis });
    }
    if tile.end > field_extent {
        return Err(InverseDensityError::TileRangeOutOfBounds { axis, range_end: tile.end, field_extent });
    }
    if tile.start < domain.start || tile.end - 1 > domain.end {
        return Err(InverseDensityError::TileOutsideMassDomain { axis });
    }
    Ok(())
}

/// Outcome of [`validate_shape`].
pub open spec fn spec_shape_check(actual: GridShape, field: InverseDensityField, expected: GridShape) -> InverseDensityResult<()> {
    if actual != expected {
        Err(InverseDensityError::FieldShapeMismatch { field, expected, actual })
    } else {
        Ok(())
    }
}

/// Rejects a field whose shape differs from the region's shape.
pub fn validate_shape(actual: GridShape, field: InverseDensityField, expected: GridShape) -> (r: InverseDensityResult<()>)
    ensures r == spec_shape_check(actual, field, expected),
{
    if actual != expected {
        return Err(InverseDensityError::FieldShapeMismatch { field, expected, actual });
    }
    Ok(())
}

/// Checks the output, perturbation and base-state shapes, in that order.
pub fn validate_field_shapes(
    full_inverse_density: GridShape,
    perturbation_inverse_density: GridShape,
    base_state_inverse_density: GridShape,
    region: &InverseDensityRegion,
) -> (r: InverseDensityResult<()>)
    ensures
        r == spec_first_failure(seq![
            spec_shape_check(full_inverse_density, InverseDensityField::FullOutput, region.spec_shape()),
            spec_shape_check(perturbation_inverse_density, InverseDensityField::Perturbation, region.spec_shape()),
            spec_shape_check(base_state_inverse_density, InverseDensityField::BaseState, region.spec_shape()),
        ]),
{
    proof {
        reveal_with_fuel(spec_first_failure, 4);
    }
    let expected = region.shape();
    validate_shape(full_inverse_density, InverseDensityField::FullOutput, expected)?;
    validate_shape(perturbation_inverse_density, InverseDensityField::Perturbation, expected)?;
    validate_shape(base_state_inverse_density, InverseDensityField::BaseState, expected)
}

} // verus!
