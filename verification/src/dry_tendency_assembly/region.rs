use std::ops::Range;

use vstd::prelude::*;

use crate::dry_tendency_assembly::{DryTendencyAssemblyAxis, DryTendencyAssemblyError, DryTendencyAssemblyResult};
use crate::grid::{min_usize, spec_first_failure, spec_min, GridShape};

verus! {

/// Outcome of [`validate_domain`].
pub open spec fn spec_domain_check(axis: DryTendencyAssemblyAxis, range: Range<usize>, field_extent: usize) -> DryTendencyAssemblyResult<()> {
    if range.start >= range.end {
        Err(DryTendencyAssemblyError::EmptyMassDomainRange { axis })
    } else if range.end > field_extent {
        Err(DryTendencyAssemblyError::MassDomainRangeOutOfBounds { axis, range_end: range.end, field_extent })
    } else {
        Ok(())
    }
}

/// Outcome of [`validate_tile`]: the tile may reach one upper stagger point
/// past its mass domain.
pub open spec fn spec_tile_check(
    axis: DryTendencyAssemblyAxis,
    tile: Range<usize>,
    domain: Range<usize>,
    field_extent: usize,
) -> DryTendencyAssemblyResult<()> {
    if tile.start >= tile.end {
        Err(DryTendencyAssemblyError::EmptyTileRange { axis })
    } else if tile.end > field_extent {
        Err(DryTendencyAssemblyError::TileRangeOutOfBounds { axis, range_end: tile.end, field_extent })
    } else if tile.start < domain.start || tile.end > domain.end + 1 {
        Err(DryTendencyAssemblyError::TileOutsideMassDomain { axis })
    } else {
        Ok(())
    }
}

/// Clipping keeps the range's start and, when asked, exactly the points below
/// the domain end: a range that ends inside its domain keeps its last point.
pub proof fn lemma_clipped_if_points(range: Range<usize>, domain_end: usize, should_clip: bool, x: int)
    ensures
        spec_clipped_if(range, domain_end, should_clip).start == range.start,
        ({
            let r = spec_clipped_if(range, domain_end, should_clip);
            (r.start <= x < r.end) <==> (range.start <= x < range.end && (should_clip ==> x < domain_end))
        }),
        !should_clip || range.end <= domain_end ==> spec_clipped_if(range, domain_end, should_clip) == range,
{
}

/// Point `x` lies in the mass domain or on the upper stagger point just past
/// it.
pub open spec fn spec_in_domain_or_stagger(domain: Range<usize>, x: int) -> bool {
    domain.start <= x <= domain.end
}

/// The tile check accepts exactly a non-empty tile inside storage whose
/// every point lies in its mass domain or on the one upper stagger point just
/// past it.
pub proof fn lemma_tile_check_accepts(axis: DryTendencyAssemblyAxis, tile: Range<usize>, domain: Range<usize>, field_extent: usize)
    ensures
        spec_tile_check(axis, tile, domain, field_extent) is Ok <==> {
            &&& tile.start < tile.end
            &&& tile.end <= field_extent
            &&& forall|x: int| tile.start <= x < tile.end ==> #[trigger] spec_in_domain_or_stagger(domain, x)
        },
{
    if tile.start < tile.end && tile.end <= field_extent
        && (forall|x: int| tile.start <= x < tile.end ==> #[trigger] spec_in_domain_or_stagger(domain, x)) {
        assert(spec_in_domain_or_stagger(domain, tile.start as int));
        assert(spec_in_domain_or_stagger(domain, tile.end - 1));
    }
}


/// Outcome of [`DryTendencyAssemblyRegion::try_new`]'s checks: the three
/// domains on west-east, south-north and bottom-top, then the three tiles.
pub open spec fn spec_region_check(
    shape: GridShape,
    west_east_domain: Range<usize>,
    south_north_domain: Range<usize>,
    bottom_top_domain: Range<usize>,
    west_east_tile: Range<usize>,
    south_north_tile: Range<usize>,
    bottom_top_tile: Range<usize>,
) -> DryTendencyAssemblyResult<()> {
    spec_first_failure(seq![
        spec_domain_check(DryTendencyAssemblyAxis::WestEast, west_east_domain, shape.spec_west_east_points()),
        spec_domain_check(DryTendencyAssemblyAxis::SouthNorth, south_north_domain, shape.spec_south_north_points()),
        spec_domain_check(DryTendencyAssemblyAxis::BottomTop, bottom_top_domain, shape.spec_bottom_top_points()),
        spec_tile_check(DryTendencyAssemblyAxis::WestEast, west_east_tile, west_east_domain, shape.spec_west_east_points()),
        spec_tile_check(DryTendencyAssemblyAxis::SouthNorth, south_north_tile, south_north_domain, shape.spec_south_north_points()),
        spec_tile_check(DryTendencyAssemblyAxis::BottomTop, bottom_top_tile, bottom_top_domain, shape.spec_bottom_top_points()),
    ])
}

/// Active ranges of one C-grid component, in memory offsets.
#[derive(Debug, PartialEq, Eq)]
pub struct DryTendencyAssemblyActiveRanges {
    pub west_east: Range<usize>,
    pub south_north: Range<usize>,
    pub bottom_top: Range<usize>,
}

/// The range, with its end clipped to `domain_end` when `should_clip` holds.
pub open spec fn spec_clipped_if(range: Range<usize>, domain_end: usize, should_clip: bool) -> Range<usize> {
    Range { start: range.start, end: if should_clip { spec_min(range.end, domain_end) } else { range.end } }
}

/// Validated physical-domain and active-tile ranges for `rk_addtend_dry`.
#[derive(Debug, PartialEq, Eq)]
pub struct DryTendencyAssemblyRegion {
    shape: GridShape,
    west_east_domain: Range<usize>,
    south_north_domain: Range<usize>,
    bottom_top_domain: Range<usize>,
    west_east_tile: Range<usize>,
    south_north_tile: Range<usize>,
    bottom_top_tile: Range<usize>,
}

impl DryTendencyAssemblyRegion {
    pub closed spec fn spec_shape(self) -> GridShape {
        self.shape
    }

    /// Domains in the order west-east, south-north, bottom-top.
    pub closed spec fn spec_domains(self) -> (Range<usize>, Range<usize>, Range<usize>) {
        (self.west_east_domain, self.south_north_domain, self.bottom_top_domain)
    }

    /// Tiles in the order west-east, south-north, bottom-top.
    pub closed spec fn spec_tiles(self) -> (Range<usize>, Range<usize>, Range<usize>) {
        (self.west_east_tile, self.south_north_tile, self.bottom_top_tile)
    }

    /// Every region passed validation.
    #[verifier::type_invariant]
    pub open spec fn valid(self) -> bool {
        &&& self.spec_shape().wf()
        &&& spec_region_check(
            self.spec_shape(),
            self.spec_domains().0,
            self.spec_domains().1,
            self.spec_domains().2,
            self.spec_tiles().0,
            self.spec_tiles().1,
            self.spec_tiles().2,
        ) is Ok
    }

    /// The active ranges of a component: the horizontal tile axes, each
    /// clipped to its mass domain when the component lives on mass points
    /// along that axis; vertically, mass-level components drop the tile's
    /// inclusive top level and stay inside the half-level domain.
    pub open spec fn spec_ranges(self, clip_x: bool, clip_y: bool, clip_z: bool) -> (Range<usize>, Range<usize>, Range<usize>) {
        let tile_z = self.spec_tiles().2;
        (
            spec_clipped_if(self.spec_tiles().0, self.spec_domains().0.end, clip_x),
            spec_clipped_if(self.spec_tiles().1, self.spec_domains().1.end, clip_y),
            if clip_z {
                Range { start: tile_z.start, end: spec_min((if tile_z.end >= 1 { tile_z.end - 1 } else { 0 }) as usize, self.spec_domains().2.end) }
            } else {
                tile_z
            },
        )
    }

    /// Validates zero-based half-open mass-domain and C-grid tile ranges.
    pub fn try_new(
        shape: GridShape,
        west_east_domain: Range<usize>,
        south_north_domain: Range<usize>,
        bottom_top_domain: Range<usize>,
        west_east_tile: Range<usize>,
        south_north_tile: Range<usize>,
        bottom_top_tile: Range<usize>,
    ) -> (r: DryTendencyAssemblyResult<Self>)
        ensures
            match r {
                Ok(region) => {
                    &&& spec_region_check(shape, west_east_domain, south_north_domain, bottom_top_domain,
                        west_east_tile, south_north_tile, bottom_top_tile) is Ok
                    &&& region.spec_shape() == shape
                    &&& region.spec_domains() == (west_east_domain, south_north_domain, bottom_top_domain)
                    &&& region.spec_tiles() == (west_east_tile, south_north_tile, bottom_top_tile)
                },
                Err(e) => spec_region_check(shape, west_east_domain, south_north_domain, bottom_top_domain,
                    west_east_tile, south_north_tile, bottom_top_tile) == Err::<(), _>(e),
            },
    {
        proof {
            use_type_invariant(&shape);
            reveal_with_fuel(spec_first_failure, 7);
        }
        validate_domain(DryTendencyAssemblyAxis::WestEast, &west_east_domain, shape.west_east_points())?;
        validate_domain(DryTendencyAssemblyAxis::SouthNorth, &south_north_domain, shape.south_north_points())?;
        validate_domain(DryTendencyAssemblyAxis::BottomTop, &bottom_top_domain, shape.bottom_top_points())?;
        validate_tile(DryTendencyAssemblyAxis::WestEast, &west_east_tile, &west_east_domain, shape.west_east_points())?;
        validate_tile(DryTendencyAssemblyAxis::SouthNorth, &south_north_tile, &south_north_domain, shape.south_north_points())?;
        validate_tile(DryTendencyAssemblyAxis::BottomTop, &bottom_top_tile, &bottom_top_domain, shape.bottom_top_points())?;
        Ok(Self {
            shape,
            west_east_domain,
            south_north_domain,
            bottom_top_domain,
            west_east_tile,
            south_north_tile,
            bottom_top_tile,
        })
    }

    /// Returns the volume field shape used by this region.
    pub fn shape(&self) -> (r: GridShape)
        ensures r == self.spec_shape(),
    {
        self.shape
    }

    /// Active ranges of west-east momentum (staggered in west-east).
    pub fn west_east_momentum_ranges(&self) -> (r: DryTendencyAssemblyActiveRanges)
        ensures
            (r.west_east, r.south_north, r.bottom_top) == self.spec_ranges(false, true, true),
            r.west_east.end <= self.spec_shape().spec_west_east_points(),
            r.south_north.end <= self.spec_shape().spec_south_north_points(),
            r.bottom_top.end <= self.spec_shape().spec_bottom_top_points(),
    {
        self.ranges(false, true, true)
    }

    /// Active ranges of south-north momentum (staggered in south-north).
    pub fn south_north_momentum_ranges(&self) -> (r: DryTendencyAssemblyActiveRanges)
        ensures
            (r.west_east, r.south_north, r.bottom_top) == self.spec_ranges(true, false, true),
            r.west_east.end <= self.spec_shape().spec_west_east_points(),
            r.south_north.end <= self.spec_shape().spec_south_north_points(),
            r.bottom_top.end <= self.spec_shape().spec_bottom_top_points(),
    {
        self.ranges(true, false, true)
    }

    /// Active ranges of vertical momentum and geopotential (staggered in
    /// bottom-top).
    pub fn vertical_ranges(&self) -> (r: DryTendencyAssemblyActiveRanges)
        ensures
            (r.west_east, r.south_north, r.bottom_top) == self.spec_ranges(true, true, false),
            r.west_east.end <= self.spec_shape().spec_west_east_points(),
            r.south_north.end <= self.spec_shape().spec_south_north_points(),
            r.bottom_top.end <= self.spec_shape().spec_bottom_top_points(),
    {
        self.ranges(true, true, false)
    }

    /// Active ranges of mass-point fields.
    pub fn mass_ranges(&self) -> (r: DryTendencyAssemblyActiveRanges)
        ensures
            (r.west_east, r.south_north, r.bottom_top) == self.spec_ranges(true, true, true),
            r.west_east.end <= self.spec_shape().spec_west_east_points(),
            r.south_north.end <= self.spec_shape().spec_south_north_points(),
            r.bottom_top.end <= self.spec_shape().spec_bottom_top_points(),
    {
        self.ranges(true, true, true)
    }

    /// Active ranges of a component; every range lies within the tile and
    /// within field storage.
    pub fn ranges(&self, clip_x: bool, clip_y: bool, clip_z: bool) -> (r: DryTendencyAssemblyActiveRanges)
        ensures
            (r.west_east, r.south_north, r.bottom_top) == self.spec_ranges(clip_x, clip_y, clip_z),
            self.spec_tiles().0.start == r.west_east.start && r.west_east.end <= self.spec_tiles().0.end,
            self.spec_tiles().1.start == r.south_north.start && r.south_north.end <= self.spec_tiles().1.end,
            self.spec_tiles().2.start == r.bottom_top.start && r.bottom_top.end <= self.spec_tiles().2.end,
            r.west_east.end <= self.spec_shape().spec_west_east_points(),
            r.south_north.end <= self.spec_shape().spec_south_north_points(),
            r.bottom_top.end <= self.spec_shape().spec_bottom_top_points(),
    {
        proof {
            use_type_invariant(self);
            reveal_with_fuel(spec_first_failure, 7);
        }
        DryTendencyAssemblyActiveRanges {
            west_east: clipped_if(&self.west_east_tile, self.west_east_domain.end, clip_x),
            south_north: clipped_if(&self.south_north_tile, self.south_north_domain.end, clip_y),
            bottom_top: if clip_z {
                self.bottom_top_tile.start..min_usize(
                    self.bottom_top_tile.end.saturating_sub(1),
                    self.bottom_top_domain.end,
                )
            } else {
                self.bottom_top_tile.start..self.bottom_top_tile.end
            },
        }
    }
}

/// Mass-point components drop exactly the tile's upper stagger point:
/// vertically, mass levels are the vertical-momentum levels without the top
/// one; horizontally, a clipped range is the tile itself or the tile without
/// its last point, and it ends inside the mass domain.
pub proof fn lemma_mass_ranges_drop_upper_stagger(region: DryTendencyAssemblyRegion)
    requires
        region.valid(),
    ensures
        ({
            let mass = region.spec_ranges(true, true, true);
            let staggered = region.spec_ranges(false, false, false);
            &&& mass.2.start == staggered.2.start
            &&& mass.2.end + 1 == staggered.2.end
            &&& mass.0.start == staggered.0.start
            &&& (mass.0.end == staggered.0.end || mass.0.end + 1 == staggered.0.end)
            &&& mass.0.end <= region.spec_domains().0.end
            &&& mass.1.start == staggered.1.start
            &&& (mass.1.end == staggered.1.end || mass.1.end + 1 == staggered.1.end)
            &&& mass.1.end <= region.spec_domains().1.end
        }),
{
    reveal_with_fuel(spec_first_failure, 7);
}

/// The active points of a component on each axis, stated over the region's
/// tile and mass domain: a horizontal axis keeps every tile point, or, when
/// the component lives on mass points there, exactly the tile points inside
/// the mass domain (so a tile ending inside the domain keeps its last point).
/// Vertically, mass-level components keep the tile points below the tile's
/// inclusive top level that lie inside the half-level domain; staggered ones
/// keep the whole tile. Every range starts at the tile start.
pub proof fn lemma_component_points(
    region: DryTendencyAssemblyRegion,
    clip_x: bool,
    clip_y: bool,
    clip_z: bool,
    west_east: int,
    south_north: int,
    bottom_top: int,
)
    requires
        region.valid(),
    ensures
        ({
            let r = region.spec_ranges(clip_x, clip_y, clip_z);
            let tiles = region.spec_tiles();
            let domains = region.spec_domains();
            &&& r.0.start == tiles.0.start
            &&& r.1.start == tiles.1.start
            &&& r.2.start == tiles.2.start
            &&& (r.0.start <= west_east < r.0.end) <==> (tiles.0.start <= west_east < tiles.0.end
                && (clip_x ==> domains.0.start <= west_east < domains.0.end))
            &&& (r.1.start <= south_north < r.1.end) <==> (tiles.1.start <= south_north < tiles.1.end
                && (clip_y ==> domains.1.start <= south_north < domains.1.end))
            &&& (r.2.start <= bottom_top < r.2.end) <==> (tiles.2.start <= bottom_top < tiles.2.end
                && (clip_z ==> bottom_top + 1 < tiles.2.end && domains.2.start <= bottom_top < domains.2.end))
        }),
{
    reveal_with_fuel(spec_first_failure, 7);
    let tiles = region.spec_tiles();
    let domains = region.spec_domains();
    lemma_clipped_if_points(tiles.0, domains.0.end, clip_x, west_east);
    lemma_clipped_if_points(tiles.1, domains.1.end, clip_y, south_north);
}


impl Clone for DryTendencyAssemblyRegion {
    fn clone(&self) -> (r: Self)
        ensures r == *self,
    {
        proof {
            use_type_invariant(self);
        }
        Self {
            shape: self.shape,
            west_east_domain: self.west_east_domain.start..self.west_east_domain.end,
            south_north_domain: self.south_north_domain.start..self.south_north_domain.end,
            bottom_top_domain: self.bottom_top_domain.start..self.bottom_top_domain.end,
            west_east_tile: self.west_east_tile.start..self.west_east_tile.end,
            south_north_tile: self.south_north_tile.start..self.south_north_tile.end,
            bottom_top_tile: self.bottom_top_tile.start..self.bottom_top_tile.end,
        }
    }
}

/// The range, with its end clipped to `domain_end` when `should_clip` holds.
pub fn clipped_if(range: &Range<usize>, domain_end: usize, should_clip: bool) -> (r: Range<usize>)
    ensures r == spec_clipped_if(*range, domain_end, should_clip),
{
    range.start..if should_clip { min_usize(range.end, domain_end) } else { range.end }
}

/// Checks that a mass-domain range is non-empty and fits in storage.
pub fn validate_domain(axis: DryTendencyAssemblyAxis, range: &Range<usize>, field_extent: usize) -> (r: DryTendencyAssemblyResult<()>)
    ensures r == spec_domain_check(axis, *range, field_extent),
{
    if range.start >= range.end {
        return Err(DryTendencyAssemblyError::EmptyMassDomainRange { axis });
    }
    if range.end > field_extent {
        return Err(DryTendencyAssemblyError::MassDomainRangeOutOfBounds { axis, range_end: range.end, field_extent });
    }
    Ok(())
}

/// Checks that a tile is non-empty, fits in storage, and lies inside its
/// domain plus one upper stagger point.
pub fn validate_tile(
    axis: DryTendencyAssemblyAxis,
    tile: &Range<usize>,
    domain: &Range<usize>,
    field_extent: usize,
) -> (r: DryTendencyAssemblyResult<()>)
    ensures r == spec_tile_check(axis, *tile, *domain, field_extent),
{
    if tile.start >= tile.end {
        return Err(DryTendencyAssemblyError::EmptyTileRange { axis });
    }
    if tile.end > field_extent {
        return Err(DryTendencyAssemblyError::TileRangeOutOfBounds { axis, range_end: tile.end, field_extent });
    }
    if tile.start < domain.start || tile.end - 1 > domain.end {
        return Err(DryTendencyAssemblyError::TileOutsideMassDomain { axis });
    }
    Ok(())
}

} // verus!
