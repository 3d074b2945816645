use std::ops::Range;

use vstd::prelude::*;

use crate::grid::{lemma_linear_index_in_bounds, spec_first_failure, spec_linear_index, GridShape};
use crate::inverse_density::region::{spec_clipped, spec_shape_check};
use crate::inverse_density::{validate_field_shapes, InverseDensityField, InverseDensityRegion, InverseDensityResult};
use crate::sweep::{fill_box, lemma_encode_then_decode, spec_decode, spec_in_box};

verus! {

impl InverseDensityRegion {
    /// Mass points written by the kernel, as `(west-east, bottom-top,
    /// south-north)` ranges: each tile clipped to its domain.
    pub open spec fn spec_output_box(self) -> (Range<usize>, Range<usize>, Range<usize>) {
        (
            spec_clipped(self.spec_tiles().0, self.spec_domains().0.end),
            spec_clipped(self.spec_tiles().2, self.spec_domains().2.end),
            spec_clipped(self.spec_tiles().1, self.spec_domains().1.end),
        )
    }

    /// The point `(west-east, bottom-top, south-north)` stored at offset `i`.
    pub open spec fn spec_point(self, i: int) -> (int, int, int) {
        spec_decode(i, self.spec_shape().spec_west_east_points() as int, self.spec_shape().spec_bottom_top_points() as int)
    }
}

/// Every mass point of the clipped tile holds a value that `value` may
/// compute from the point's offset; storage outside that range keeps its
/// value.
pub open spec fn spec_inverse_density_calculated<T, F: Fn(usize) -> T>(
    region: InverseDensityRegion,
    value: F,
    before: Seq<T>,
    after: Seq<T>,
) -> bool {
    &&& after.len() == before.len()
    &&& forall|i: int| 0 <= i < after.len() ==> {
        let p = #[trigger] region.spec_point(i);
        let active = region.spec_output_box();
        if spec_in_box(p, active.0, active.1, active.2) {
            value.ensures((i as usize,), after[i])
        } else {
            after[i] == before[i]
        }
    }
}

/// The calculation read at a point: the value at offset
/// `x = (south_north * bottom_top_points + bottom_top) * west_east_points + west_east`
/// is what `value` gives for `x` when the point lies in the clipped tile on
/// all three axes, and the old value elsewhere.
pub proof fn lemma_inverse_density_at_point<T, F: Fn(usize) -> T>(
    region: InverseDensityRegion,
    value: F,
    before: Seq<T>,
    after: Seq<T>,
    west_east: int,
    bottom_top: int,
    south_north: int,
)
    requires
        before.len() == region.spec_shape().spec_point_count(),
        spec_inverse_density_calculated(region, value, before, after),
        0 <= west_east < region.spec_shape().spec_west_east_points(),
        0 <= bottom_top < region.spec_shape().spec_bottom_top_points(),
        0 <= south_north < region.spec_shape().spec_south_north_points(),
    ensures
        ({
            let shape = region.spec_shape();
            let x = spec_linear_index(
                west_east,
                bottom_top,
                south_north,
                shape.spec_west_east_points() as int,
                shape.spec_bottom_top_points() as int,
            );
            let west_east_range = spec_clipped(region.spec_tiles().0, region.spec_domains().0.end);
            let south_north_range = spec_clipped(region.spec_tiles().1, region.spec_domains().1.end);
            let bottom_top_range = spec_clipped(region.spec_tiles().2, region.spec_domains().2.end);
            &&& 0 <= x < after.len()
            &&& if west_east_range.start <= west_east < west_east_range.end
                && south_north_range.start <= south_north < south_north_range.end
                && bottom_top_range.start <= bottom_top < bottom_top_range.end {
                value.ensures((x as usize,), after[x])
            } else {
                after[x] == before[x]
            }
        }),
{
    let shape = region.spec_shape();
    let w = shape.spec_west_east_points() as int;
    let b = shape.spec_bottom_top_points() as int;
    lemma_encode_then_decode(west_east, bottom_top, south_north, w, b);
    lemma_linear_index_in_bounds(west_east, bottom_top, south_north, w, b, shape.spec_south_north_points() as int);
    let x = spec_linear_index(west_east, bottom_top, south_north, w, b);
    assert(region.spec_point(x) == (west_east, bottom_top, south_north));
}

/// Stores, at every mass point of the clipped tile, the value that `value`
/// computes from the point's offset; storage outside that range keeps its
/// value.
pub fn calculate_inverse_density_points<T: Copy, F: Fn(usize) -> T>(
    region: &InverseDensityRegion,
    full_inverse_density: &mut Vec<T>,
    value: F,
)
    requires
        old(full_inverse_density)@.len() == region.spec_shape().spec_point_count(),
        forall|index: usize| index < region.spec_shape().spec_point_count() ==> #[trigger] value.requires((index,)),
    ensures
        spec_inverse_density_calculated(*region, value, old(full_inverse_density)@, final(full_inverse_density)@),
{
    let (west_east, south_north, bottom_top) = region.output_ranges();
    fill_box(region.shape(), full_inverse_density, west_east, bottom_top, south_north, value);
}

/// Adds perturbation and base-state inverse density over the clipped tile:
/// checks the output, perturbation and base-state shapes in that order, then
/// stores `value(i)` at every offset `i` of the clipped tile. A failed check
/// writes nothing.
pub fn calculate_full_inverse_density<T: Copy, F: Fn(usize) -> T>(
    region: &InverseDensityRegion,
    full_inverse_density: GridShape,
    perturbation_inverse_density: GridShape,
    base_state_inverse_density: GridShape,
    full_inverse_density_values: &mut Vec<T>,
    value: F,
) -> (r: InverseDensityResult<()>)
    requires
        old(full_inverse_density_values)@.len() == full_inverse_density.spec_point_count(),
        forall|index: usize| index < region.spec_shape().spec_point_count() ==> #[trigger] value.requires((index,)),
    ensures
        r == spec_first_failure(seq![
            spec_shape_check(full_inverse_density, InverseDensityField::FullOutput, region.spec_shape()),
            spec_shape_check(perturbation_inverse_density, InverseDensityField::Perturbation, region.spec_shape()),
            spec_shape_check(base_state_inverse_density, InverseDensityField::BaseState, region.spec_shape()),
        ]),
        r is Err ==> final(full_inverse_density_values)@ == old(full_inverse_density_values)@,
        r is Ok ==> spec_inverse_density_calculated(
            *region,
            value,
            old(full_inverse_density_values)@,
            final(full_inverse_density_values)@,
        ),
{
    validate_field_shapes(full_inverse_density, perturbation_inverse_density, base_state_inverse_density, region)?;
    proof {
        reveal_with_fuel(spec_first_failure, 4);
    }
    calculate_inverse_density_points(region, full_inverse_density_values, value);
    Ok(())
}

} // verus!
