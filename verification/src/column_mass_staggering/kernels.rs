use std::ops::Range;

use vstd::prelude::*;

use crate::column_mass_staggering::stencil::{
    spec_big_step_operation_check, spec_big_step_outputs_check, spec_full_big_step_operation_check,
    spec_full_mass_operation_check, spec_periodic_halo_check, spec_stagger_operation_check,
    validate_big_step_operation, validate_full_big_step_operation, validate_full_mass_operation,
    validate_stagger_operation,
};
use crate::column_mass_staggering::{
    ColumnMassSource, ColumnMassStaggeringAxis, ColumnMassStaggeringError, ColumnMassStaggeringPeriodicity,
    ColumnMassStaggeringRegion, ColumnMassStaggeringResult,
};
use crate::grid::{spec_min, GridShape};
use crate::sweep::{fill_box, spec_decode, spec_in_box, update_box};

verus! {

/// An active box of field points as `(west-east, bottom-top, south-north)`
/// ranges.
pub type ActiveBox = (Range<usize>, Range<usize>, Range<usize>);

/// Whether point `p` lies in the box `active`.
pub open spec fn spec_in(p: (int, int, int), active: ActiveBox) -> bool {
    spec_in_box(p, active.0, active.1, active.2)
}

impl ColumnMassStaggeringRegion {
    /// Active points of the west-east momentum output: the whole tile across,
    /// the tile clipped to the mass domain south-north.
    pub open spec fn spec_west_east_momentum_box(self) -> ActiveBox {
        (
            self.spec_tile_west_east(),
            Range { start: 0, end: 1 },
            Range {
                start: self.spec_tile_south_north().start,
                end: spec_min(self.spec_tile_south_north().end, self.spec_mass_domain_south_north().end),
            },
        )
    }

    /// Active points of the south-north momentum output: the tile clipped to
    /// the mass domain across, the whole tile south-north.
    pub open spec fn spec_south_north_momentum_box(self) -> ActiveBox {
        (
            Range {
                start: self.spec_tile_west_east().start,
                end: spec_min(self.spec_tile_west_east().end, self.spec_mass_domain_west_east().end),
            },
            Range { start: 0, end: 1 },
            self.spec_tile_south_north(),
        )
    }

    /// Mass points written by full-column-mass calculation: one point before
    /// the tile on each axis, through the tile clipped to the mass domain.
    pub open spec fn spec_full_mass_box(self) -> ActiveBox {
        (
            Range {
                start: (self.spec_tile_west_east().start - 1) as usize,
                end: spec_min(self.spec_tile_west_east().end, self.spec_mass_domain_west_east().end),
            },
            Range { start: 0, end: 1 },
            Range {
                start: (self.spec_tile_south_north().start - 1) as usize,
                end: spec_min(self.spec_tile_south_north().end, self.spec_mass_domain_south_north().end),
            },
        )
    }

    /// The point `(west-east, bottom-top, south-north)` stored at offset `i`
    /// of a field of this region's shape.
    pub open spec fn spec_point(self, i: int) -> (int, int, int) {
        spec_decode(i, self.spec_shape().spec_west_east_points() as int, self.spec_shape().spec_bottom_top_points() as int)
    }
}

/// Every active west-east and south-north momentum point of the outputs
/// holds a value that `value` may compute from the point's source; every
/// other point keeps its value.
pub open spec fn spec_column_mass_staggered<T, F: Fn(ColumnMassSource) -> T>(
    region: ColumnMassStaggeringRegion,
    value: F,
    west_east_before: Seq<T>,
    west_east_after: Seq<T>,
    south_north_before: Seq<T>,
    south_north_after: Seq<T>,
) -> bool {
    &&& west_east_after.len() == west_east_before.len()
    &&& south_north_after.len() == south_north_before.len()
    &&& forall|i: int| 0 <= i < west_east_after.len() ==> {
        let p = #[trigger] region.spec_point(i);
        if spec_in(p, region.spec_west_east_momentum_box()) {
            value.ensures((region.spec_west_east_momentum_source(p.2 as usize, p.0 as usize),), west_east_after[i])
        } else {
            west_east_after[i] == west_east_before[i]
        }
    }
    &&& forall|i: int| 0 <= i < south_north_after.len() ==> {
        let p = #[trigger] region.spec_point(i);
        if spec_in(p, region.spec_south_north_momentum_box()) {
            value.ensures((region.spec_south_north_momentum_source(p.2 as usize, p.0 as usize),), south_north_after[i])
        } else {
            south_north_after[i] == south_north_before[i]
        }
    }
}

/// Every active big-step momentum point of the outputs holds a value that
/// `average` may compute from the point's two source offsets; every other
/// point keeps its value.
pub open spec fn spec_big_step_staggered<T, F: Fn(usize, usize) -> T>(
    region: ColumnMassStaggeringRegion,
    periodicity: ColumnMassStaggeringPeriodicity,
    average: F,
    west_east_before: Seq<T>,
    west_east_after: Seq<T>,
    south_north_before: Seq<T>,
    south_north_after: Seq<T>,
) -> bool {
    &&& west_east_after.len() == west_east_before.len()
    &&& south_north_after.len() == south_north_before.len()
    &&& forall|i: int| 0 <= i < west_east_after.len() ==> {
        let p = #[trigger] region.spec_point(i);
        if spec_in(p, region.spec_west_east_momentum_box()) {
            let source = region.spec_big_step_west_east_source(periodicity, p.2 as usize, p.0 as usize);
            average.ensures((source.0, source.1), west_east_after[i])
        } else {
            west_east_after[i] == west_east_before[i]
        }
    }
    &&& forall|i: int| 0 <= i < south_north_after.len() ==> {
        let p = #[trigger] region.spec_point(i);
        if spec_in(p, region.spec_south_north_momentum_box()) {
            let source = region.spec_big_step_south_north_source(periodicity, p.2 as usize, p.0 as usize);
            average.ensures((source.0, source.1), south_north_after[i])
        } else {
            south_north_after[i] == south_north_before[i]
        }
    }
}

/// Every point of the full-mass box holds a value that `value` may compute
/// from the point's offset; every other point keeps its value.
pub open spec fn spec_full_mass_calculated<T, F: Fn(usize) -> T>(
    region: ColumnMassStaggeringRegion,
    value: F,
    before: Seq<T>,
    after: Seq<T>,
) -> bool {
    &&& after.len() == before.len()
    &&& forall|i: int| 0 <= i < after.len() ==> {
        let p = #[trigger] region.spec_point(i);
        if spec_in(p, region.spec_full_mass_box()) {
            value.ensures((i as usize,), after[i])
        } else {
            after[i] == before[i]
        }
    }
}

/// Writes, at every active west-east momentum point and every active
/// south-north momentum point, the value that `value` computes from the
/// point's column-mass source; every other point of both outputs, halos
/// included, keeps its value.
pub fn stagger_column_mass_points<T: Copy, F: Fn(ColumnMassSource) -> T>(
    region: &ColumnMassStaggeringRegion,
    west_east_momentum_mass: &mut Vec<T>,
    south_north_momentum_mass: &mut Vec<T>,
    value: F,
)
    requires
        old(west_east_momentum_mass)@.len() == region.spec_shape().spec_point_count(),
        old(south_north_momentum_mass)@.len() == region.spec_shape().spec_point_count(),
        forall|source: ColumnMassSource| source.reads_within(region.spec_shape().spec_point_count())
            ==> #[trigger] value.requires((source,)),
    ensures
        spec_column_mass_staggered(
            *region,
            value,
            old(west_east_momentum_mass)@,
            final(west_east_momentum_mass)@,
            old(south_north_momentum_mass)@,
            final(south_north_momentum_mass)@,
        ),
{
    proof {
        use_type_invariant(region);
    }
    let shape = region.shape();
    let value_ref = &value;
    let count = Ghost(region.spec_shape().spec_point_count());
    let layout = Ghost(*region);
    let west_east_step = |west_east_index: usize, bottom_top_index: usize, south_north_index: usize, current: T| -> (r: T)
        requires
            spec_in(
                (west_east_index as int, bottom_top_index as int, south_north_index as int),
                layout@.spec_west_east_momentum_box(),
            ),
            forall|source: ColumnMassSource| source.reads_within(count@) ==> #[trigger] value_ref.requires((source,)),
            count@ == layout@.spec_shape().spec_point_count(),
        ensures
            value_ref.ensures((layout@.spec_west_east_momentum_source(south_north_index, west_east_index),), r),
    {
        value_ref(region.west_east_momentum_mass_source(south_north_index, west_east_index))
    };
    update_box(
        shape,
        west_east_momentum_mass,
        region.west_east_momentum_west_east_range(),
        0..1,
        region.west_east_momentum_south_north_range(),
        west_east_step,
    );
    let south_north_step = |west_east_index: usize, bottom_top_index: usize, south_north_index: usize, current: T| -> (r: T)
        requires
            spec_in(
                (west_east_index as int, bottom_top_index as int, south_north_index as int),
                layout@.spec_south_north_momentum_box(),
            ),
            forall|source: ColumnMassSource| source.reads_within(count@) ==> #[trigger] value_ref.requires((source,)),
            count@ == layout@.spec_shape().spec_point_count(),
        ensures
            value_ref.ensures((layout@.spec_south_north_momentum_source(south_north_index, west_east_index),), r),
    {
        value_ref(region.south_north_momentum_mass_source(south_north_index, west_east_index))
    };
    update_box(
        shape,
        south_north_momentum_mass,
        region.south_north_momentum_west_east_range(),
        0..1,
        region.south_north_momentum_south_north_range(),
        south_north_step,
    );
}

/// Writes, at every active big-step west-east and south-north momentum point,
/// the value that `average` computes from the point's two source offsets; a
/// periodic boundary pairs the adjacent mass point with its halo neighbour.
/// Every other point of both outputs keeps its value.
pub fn stagger_big_step_points<T: Copy, F: Fn(usize, usize) -> T>(
    region: &ColumnMassStaggeringRegion,
    periodicity: ColumnMassStaggeringPeriodicity,
    west_east_momentum_mass: &mut Vec<T>,
    south_north_momentum_mass: &mut Vec<T>,
    average: F,
)
    requires
        spec_periodic_halo_check(*region, periodicity) is Ok,
        old(west_east_momentum_mass)@.len() == region.spec_shape().spec_point_count(),
        old(south_north_momentum_mass)@.len() == region.spec_shape().spec_point_count(),
        forall|first: usize, second: usize|
            first < region.spec_shape().spec_point_count() && second < region.spec_shape().spec_point_count()
                ==> #[trigger] average.requires((first, second)),
    ensures
        spec_big_step_staggered(
            *region,
            periodicity,
            average,
            old(west_east_momentum_mass)@,
            final(west_east_momentum_mass)@,
            old(south_north_momentum_mass)@,
            final(south_north_momentum_mass)@,
        ),
{
    proof {
        use_type_invariant(region);
    }
    let shape = region.shape();
    let average_ref = &average;
    let count = Ghost(region.spec_shape().spec_point_count());
    let layout = Ghost(*region);
    let west_east_step = |west_east_index: usize, bottom_top_index: usize, south_north_index: usize, current: T| -> (r: T)
        requires
            spec_in(
                (west_east_index as int, bottom_top_index as int, south_north_index as int),
                layout@.spec_west_east_momentum_box(),
            ),
            forall|first: usize, second: usize| first < count@ && second < count@
                ==> #[trigger] average_ref.requires((first, second)),
            count@ == layout@.spec_shape().spec_point_count(),
        ensures
            ({
                let source = layout@.spec_big_step_west_east_source(periodicity, south_north_index, west_east_index);
                average_ref.ensures((source.0, source.1), r)
            }),
    {
        let (first, second) = region.big_step_west_east_momentum_source(periodicity, south_north_index, west_east_index);
        average_ref(first, second)
    };
    update_box(
        shape,
        west_east_momentum_mass,
        region.west_east_momentum_west_east_range(),
        0..1,
        region.west_east_momentum_south_north_range(),
        west_east_step,
    );
    let south_north_step = |west_east_index: usize, bottom_top_index: usize, south_north_index: usize, current: T| -> (r: T)
        requires
            spec_in(
                (west_east_index as int, bottom_top_index as int, south_north_index as int),
                layout@.spec_south_north_momentum_box(),
            ),
            forall|first: usize, second: usize| first < count@ && second < count@
                ==> #[trigger] average_ref.requires((first, second)),
            count@ == layout@.spec_shape().spec_point_count(),
        ensures
            ({
                let source = layout@.spec_big_step_south_north_source(periodicity, south_north_index, west_east_index);
                average_ref.ensures((source.0, source.1), r)
            }),
    {
        let (first, second) = region.big_step_south_north_momentum_source(periodicity, south_north_index, west_east_index);
        average_ref(first, second)
    };
    update_box(
        shape,
        south_north_momentum_mass,
        region.south_north_momentum_west_east_range(),
        0..1,
        region.south_north_momentum_south_north_range(),
        south_north_step,
    );
}

/// Writes the full column mass at every mass point of
/// [`ColumnMassStaggeringRegion::spec_full_mass_box`]: the value that
/// `value` computes from the point's own offset. Every other point keeps its
/// value. A tile that starts at offset zero on either axis has no lower memory
/// halo; the call then fails and changes nothing.
pub fn calculate_full_mass_points<T: Copy, F: Fn(usize) -> T>(
    region: &ColumnMassStaggeringRegion,
    full_mass: &mut Vec<T>,
    value: F,
) -> (r: ColumnMassStaggeringResult<()>)
    requires
        old(full_mass)@.len() == region.spec_shape().spec_point_count(),
        forall|index: usize| index < region.spec_shape().spec_point_count() ==> #[trigger] value.requires((index,)),
    ensures
        final(full_mass)@.len() == old(full_mass)@.len(),
        region.spec_tile_west_east().start == 0 ==> r == Err::<(), _>(
            ColumnMassStaggeringError::FullMassLowerHaloMissing { axis: ColumnMassStaggeringAxis::WestEast }),
        region.spec_tile_west_east().start != 0 && region.spec_tile_south_north().start == 0 ==> r == Err::<(), _>(
            ColumnMassStaggeringError::FullMassLowerHaloMissing { axis: ColumnMassStaggeringAxis::SouthNorth }),
        r is Err ==> final(full_mass)@ == old(full_mass)@,
        region.spec_tile_west_east().start != 0 && region.spec_tile_south_north().start != 0 ==> {
            &&& r is Ok
            &&& spec_full_mass_calculated(*region, value, old(full_mass)@, final(full_mass)@)
        },
{
    proof {
        use_type_invariant(region);
    }
    let (west_east, south_north) = match region.full_mass_ranges() {
        Ok(ranges) => ranges,
        Err(e) => return Err(e),
    };
    let ghost initial = full_mass@;
    fill_box(region.shape(), full_mass, west_east, 0..1, south_north, value);
    Ok(())
}

/// Adds perturbation and base mass on the full-mass ranges of the region:
/// checks the full, perturbation and base shapes in that order and the lower
/// memory halos, then stores `value(i)` at every offset `i` of the full-mass
/// box. A failed check writes nothing.
pub fn calculate_full_column_mass<T: Copy, F: Fn(usize) -> T>(
    region: &ColumnMassStaggeringRegion,
    full_mass: GridShape,
    perturbation_mass: GridShape,
    base_mass: GridShape,
    full_mass_values: &mut Vec<T>,
    value: F,
) -> (r: ColumnMassStaggeringResult<()>)
    requires
        old(full_mass_values)@.len() == full_mass.spec_point_count(),
        forall|index: usize| index < region.spec_shape().spec_point_count() ==> #[trigger] value.requires((index,)),
    ensures
        r == spec_full_mass_operation_check(full_mass, perturbation_mass, base_mass, *region),
        r is Err ==> final(full_mass_values)@ == old(full_mass_values)@,
        r is Ok ==> spec_full_mass_calculated(*region, value, old(full_mass_values)@, final(full_mass_values)@),
{
    validate_full_mass_operation(full_mass, perturbation_mass, base_mass, region)?;
    calculate_full_mass_points(region, full_mass_values, value)?;
    Ok(())
}

/// Split-mass staggering onto both horizontal momentum staggerings: checks
/// the perturbation, base, west-east output and south-north output shapes in
/// that order, then writes every active point from its source. A failed check
/// writes nothing.
pub fn stagger_column_mass<T: Copy, F: Fn(ColumnMassSource) -> T>(
    region: &ColumnMassStaggeringRegion,
    perturbation_mass: GridShape,
    base_mass: GridShape,
    west_east_momentum_mass: GridShape,
    south_north_momentum_mass: GridShape,
    west_east_values: &mut Vec<T>,
    south_north_values: &mut Vec<T>,
    value: F,
) -> (r: ColumnMassStaggeringResult<()>)
    requires
        old(west_east_values)@.len() == west_east_momentum_mass.spec_point_count(),
        old(south_north_values)@.len() == south_north_momentum_mass.spec_point_count(),
        forall|source: ColumnMassSource| source.reads_within(region.spec_shape().spec_point_count())
            ==> #[trigger] value.requires((source,)),
    ensures
        r == spec_stagger_operation_check(perturbation_mass, base_mass, west_east_momentum_mass, south_north_momentum_mass, *region),
        r is Err ==> final(west_east_values)@ == old(west_east_values)@ && final(south_north_values)@ == old(south_north_values)@,
        r is Ok ==> spec_column_mass_staggered(
            *region,
            value,
            old(west_east_values)@,
            final(west_east_values)@,
            old(south_north_values)@,
            final(south_north_values)@,
        ),
{
    validate_stagger_operation(perturbation_mass, base_mass, west_east_momentum_mass, south_north_momentum_mass, region)?;
    stagger_column_mass_points(region, west_east_values, south_north_values, value);
    Ok(())
}

/// Big-step staggering of split perturbation and base mass: checks the
/// perturbation and base shapes, the two output shapes and the periodic lower
/// halos in that order, then writes every active point from its source pair.
/// A failed check writes nothing.
pub fn stagger_column_mass_for_big_step<T: Copy, F: Fn(usize, usize) -> T>(
    region: &ColumnMassStaggeringRegion,
    periodicity: ColumnMassStaggeringPeriodicity,
    perturbation_mass: GridShape,
    base_mass: GridShape,
    west_east_momentum_mass: GridShape,
    south_north_momentum_mass: GridShape,
    west_east_values: &mut Vec<T>,
    south_north_values: &mut Vec<T>,
    average: F,
) -> (r: ColumnMassStaggeringResult<()>)
    requires
        old(west_east_values)@.len() == west_east_momentum_mass.spec_point_count(),
        old(south_north_values)@.len() == south_north_momentum_mass.spec_point_count(),
        forall|first: usize, second: usize|
            first < region.spec_shape().spec_point_count() && second < region.spec_shape().spec_point_count()
                ==> #[trigger] average.requires((first, second)),
    ensures
        r == spec_big_step_operation_check(
            perturbation_mass, base_mass, west_east_momentum_mass, south_north_momentum_mass, *region, periodicity),
        r is Err ==> final(west_east_values)@ == old(west_east_values)@ && final(south_north_values)@ == old(south_north_values)@,
        r is Ok ==> spec_big_step_staggered(
            *region,
            periodicity,
            average,
            old(west_east_values)@,
            final(west_east_values)@,
            old(south_north_values)@,
            final(south_north_values)@,
        ),
{
    validate_big_step_operation(
        perturbation_mass,
        base_mass,
        west_east_momentum_mass,
        south_north_momentum_mass,
        region,
        periodicity,
    )?;
    proof {
        lemma_passed_outputs_check(*region, periodicity, west_east_momentum_mass, south_north_momentum_mass);
    }
    stagger_big_step_points(region, periodicity, west_east_values, south_north_values, average);
    Ok(())
}

/// Big-step staggering of an already combined full mass: checks the full
/// mass shape, the two output shapes and the periodic lower halos in that
/// order, then writes every active point from its source pair. A failed check
/// writes nothing.
pub fn stagger_full_column_mass_for_big_step<T: Copy, F: Fn(usize, usize) -> T>(
    region: &ColumnMassStaggeringRegion,
    periodicity: ColumnMassStaggeringPeriodicity,
    full_mass: GridShape,
    west_east_momentum_mass: GridShape,
    south_north_momentum_mass: GridShape,
    west_east_values: &mut Vec<T>,
    south_north_values: &mut Vec<T>,
    average: F,
) -> (r: ColumnMassStaggeringResult<()>)
    requires
        old(west_east_values)@.len() == west_east_momentum_mass.spec_point_count(),
        old(south_north_values)@.len() == south_north_momentum_mass.spec_point_count(),
        forall|first: usize, second: usize|
            first < region.spec_shape().spec_point_count() && second < region.spec_shape().spec_point_count()
                ==> #[trigger] average.requires((first, second)),
    ensures
        r == spec_full_big_step_operation_check(full_mass, west_east_momentum_mass, south_north_momentum_mass, *region, periodicity),
        r is Err ==> final(west_east_values)@ == old(west_east_values)@ && final(south_north_values)@ == old(south_north_values)@,
        r is Ok ==> spec_big_step_staggered(
            *region,
            periodicity,
            average,
            old(west_east_values)@,
            final(west_east_values)@,
            old(south_north_values)@,
            final(south_north_values)@,
        ),
{
    validate_full_big_step_operation(full_mass, west_east_momentum_mass, south_north_momentum_mass, region, periodicity)?;
    proof {
        lemma_passed_outputs_check(*region, periodicity, west_east_momentum_mass, south_north_momentum_mass);
    }
    stagger_big_step_points(region, periodicity, west_east_values, south_north_values, average);
    Ok(())
}

/// Output checks that pass leave the periodic halo check passed.
proof fn lemma_passed_outputs_check(
    region: ColumnMassStaggeringRegion,
    periodicity: ColumnMassStaggeringPeriodicity,
    west_east_momentum_mass: GridShape,
    south_north_momentum_mass: GridShape,
)
    requires
        spec_big_step_outputs_check(west_east_momentum_mass, south_north_momentum_mass, region, periodicity) is Ok,
    ensures
        spec_periodic_halo_check(region, periodicity) is Ok,
        west_east_momentum_mass == region.spec_shape(),
        south_north_momentum_mass == region.spec_shape(),
{
}

} // verus!
