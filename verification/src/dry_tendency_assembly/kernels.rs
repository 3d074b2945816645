use std::ops::Range;

use vstd::prelude::*;

use crate::dry_tendency_assembly::validation::{spec_assembly_check, spec_has_mismatch};
use crate::dry_tendency_assembly::{
    validate_dry_tendency_assembly, DryTendencyAssemblyActiveRanges, DryTendencyAssemblyFieldShapes,
    DryTendencyAssemblyForwardTendencies, DryTendencyAssemblyPhase, DryTendencyAssemblyRegion, DryTendencyAssemblyResult,
    DryTendencyAssemblyRungeKuttaTendencies,
};
use crate::grid::{lemma_linear_index_in_bounds, lemma_planar_index, spec_linear_index};
use crate::sweep::{spec_decode, spec_in_box, spec_pair_arguments, update_box_at_offsets, update_box_pairs};

verus! {

impl DryTendencyAssemblyRegion {
    /// The point `(west-east, bottom-top, south-north)` stored at offset `i`
    /// of a volume field of this region's shape.
    pub open spec fn spec_point(self, i: int) -> (int, int, int) {
        spec_decode(i, self.spec_shape().spec_west_east_points() as int, self.spec_shape().spec_bottom_top_points() as int)
    }

    /// The point `(west-east, 0, south-north)` stored at offset `i` of a
    /// single-level field of this region's horizontal shape.
    pub open spec fn spec_horizontal_point(self, i: int) -> (int, int, int) {
        spec_decode(i, self.spec_shape().spec_west_east_points() as int, 1)
    }
}

/// Every active point of `ranges` (west-east, south-north, bottom-top) holds
/// in both fields the pair that `operation` may return for the point's
/// arguments; every other point of both fields keeps its value.
pub open spec fn spec_pairs_updated<T, F: Fn(usize, usize, usize, T, T) -> (T, T)>(
    region: DryTendencyAssemblyRegion,
    ranges: (Range<usize>, Range<usize>, Range<usize>),
    operation: F,
    runge_kutta_before: Seq<T>,
    runge_kutta_after: Seq<T>,
    forward_before: Seq<T>,
    forward_after: Seq<T>,
) -> bool {
    &&& runge_kutta_after.len() == runge_kutta_before.len()
    &&& forward_after.len() == forward_before.len()
    &&& forall|i: int| 0 <= i < runge_kutta_after.len() ==> {
        let p = #[trigger] region.spec_point(i);
        if spec_in_box(p, ranges.0, ranges.2, ranges.1) {
            operation.ensures(
                spec_pair_arguments(region.spec_shape(), p.0 as usize, p.1 as usize, p.2 as usize, runge_kutta_before, forward_before),
                (runge_kutta_after[i], forward_after[i]),
            )
        } else {
            runge_kutta_after[i] == runge_kutta_before[i] && forward_after[i] == forward_before[i]
        }
    }
}

/// Every active mass column holds the value that `add` may return for its
/// offset and previous value; every other point keeps its value.
pub open spec fn spec_column_mass_accumulated<T, F: Fn(usize, T) -> T>(
    region: DryTendencyAssemblyRegion,
    add: F,
    before: Seq<T>,
    after: Seq<T>,
) -> bool {
    &&& after.len() == before.len()
    &&& forall|i: int| 0 <= i < after.len() ==> {
        let p = #[trigger] region.spec_horizontal_point(i);
        let mass = region.spec_ranges(true, true, true);
        if spec_in_box(p, mass.0, 0..1, mass.1) {
            add.ensures((i as usize, before[i]), after[i])
        } else {
            after[i] == before[i]
        }
    }
}

/// Whether the ranges lie inside a volume field of the region's shape.
pub open spec fn spec_ranges_fit(region: DryTendencyAssemblyRegion, ranges: DryTendencyAssemblyActiveRanges) -> bool {
    &&& ranges.west_east.end <= region.spec_shape().spec_west_east_points()
    &&& ranges.bottom_top.end <= region.spec_shape().spec_bottom_top_points()
    &&& ranges.south_north.end <= region.spec_shape().spec_south_north_points()
}

/// Updates a Runge–Kutta tendency and its forward tendency together over the
/// active ranges of one component. At every active point, stored at offset
/// `index` with single-level column offset `horizontal` and level
/// `bottom_top`, the pair `(rk, forward)` becomes
/// `operation(index, horizontal, bottom_top, rk, forward)`; every other point
/// of both fields keeps its value.
pub fn for_each_volume_pair<T: Copy, F: Fn(usize, usize, usize, T, T) -> (T, T)>(
    region: &DryTendencyAssemblyRegion,
    runge_kutta: &mut Vec<T>,
    forward: &mut Vec<T>,
    ranges: &DryTendencyAssemblyActiveRanges,
    operation: F,
)
    requires
        old(runge_kutta)@.len() == region.spec_shape().spec_point_count(),
        old(forward)@.len() == region.spec_shape().spec_point_count(),
        spec_ranges_fit(*region, *ranges),
        forall|index: usize, horizontal: usize, bottom_top: usize, rk: T, fw: T|
            index < region.spec_shape().spec_point_count()
                && horizontal < region.spec_shape().spec_horizontal_shape().spec_point_count()
                && bottom_top < region.spec_shape().spec_bottom_top_points()
                ==> #[trigger] operation.requires((index, horizontal, bottom_top, rk, fw)),
    ensures
        spec_pairs_updated(
            *region,
            (ranges.west_east, ranges.south_north, ranges.bottom_top),
            operation,
            old(runge_kutta)@,
            final(runge_kutta)@,
            old(forward)@,
            final(forward)@,
        ),
{
    proof {
        use_type_invariant(region);
    }
    let shape = region.shape();
    let horizontal_shape = shape.horizontal_shape();
    proof {
        use_type_invariant(&shape);
        let w = shape.spec_west_east_points() as int;
        let b = shape.spec_bottom_top_points() as int;
        let s = shape.spec_south_north_points() as int;
        assert forall|a: usize, bb: usize, c: usize|
            spec_in_box((a as int, bb as int, c as int), ranges.west_east, ranges.bottom_top, ranges.south_north)
                implies #[trigger] operation.requires(spec_pair_arguments(shape, a, bb, c, runge_kutta@, forward@)) by {
            lemma_linear_index_in_bounds(a as int, bb as int, c as int, w, b, s);
            lemma_linear_index_in_bounds(a as int, 0, c as int, w, 1, s);
            lemma_planar_index(a as int, c as int, w);
        }
    }
    update_box_pairs(
        shape,
        runge_kutta,
        forward,
        ranges.west_east.start..ranges.west_east.end,
        ranges.bottom_top.start..ranges.bottom_top.end,
        ranges.south_north.start..ranges.south_north.end,
        operation,
    );
}

/// One component assembled over `ranges` (west-east, south-north,
/// bottom-top): at every active point, stored at offset `index` with
/// single-level column offset `horizontal` and level `bottom_top`, the
/// forward tendency becomes `add_saved(index, horizontal, forward)` on the
/// first substep and stays as it was on a later one, and the Runge–Kutta
/// tendency becomes `update(index, horizontal, bottom_top, rk, forward)` of
/// that new forward tendency; every other point of both fields keeps its
/// value.
pub open spec fn spec_component_assembled<T, S: Fn(usize, usize, T) -> T, U: Fn(usize, usize, usize, T, T) -> T>(
    region: DryTendencyAssemblyRegion,
    ranges: (Range<usize>, Range<usize>, Range<usize>),
    phase: DryTendencyAssemblyPhase,
    add_saved: S,
    update: U,
    runge_kutta_before: Seq<T>,
    runge_kutta_after: Seq<T>,
    forward_before: Seq<T>,
    forward_after: Seq<T>,
) -> bool {
    &&& runge_kutta_after.len() == runge_kutta_before.len()
    &&& forward_after.len() == forward_before.len()
    &&& forall|i: int| 0 <= i < runge_kutta_after.len() ==> {
        let p = #[trigger] region.spec_point(i);
        if spec_in_box(p, ranges.0, ranges.2, ranges.1) {
            let a = spec_pair_arguments(region.spec_shape(), p.0 as usize, p.1 as usize, p.2 as usize, runge_kutta_before, forward_before);
            &&& a.0 == i
            &&& if phase is FirstSubstep {
                add_saved.ensures((a.0, a.1, forward_before[i]), forward_after[i])
            } else {
                forward_after[i] == forward_before[i]
            }
            &&& update.ensures((a.0, a.1, a.2, runge_kutta_before[i], forward_after[i]), runge_kutta_after[i])
        } else {
            runge_kutta_after[i] == runge_kutta_before[i] && forward_after[i] == forward_before[i]
        }
    }
}

/// On a later substep, assembling a component leaves its forward tendency
/// exactly as it was: saved tendencies are added on the first substep only.
pub proof fn lemma_later_substep_keeps_forward<T, S: Fn(usize, usize, T) -> T, U: Fn(usize, usize, usize, T, T) -> T>(
    region: DryTendencyAssemblyRegion,
    ranges: (Range<usize>, Range<usize>, Range<usize>),
    add_saved: S,
    update: U,
    runge_kutta_before: Seq<T>,
    runge_kutta_after: Seq<T>,
    forward_before: Seq<T>,
    forward_after: Seq<T>,
)
    requires
        runge_kutta_before.len() == forward_before.len(),
        spec_component_assembled(
            region,
            ranges,
            DryTendencyAssemblyPhase::LaterSubstep,
            add_saved,
            update,
            runge_kutta_before,
            runge_kutta_after,
            forward_before,
            forward_after,
        ),
    ensures
        forward_after == forward_before,
{
    assert forall|i: int| 0 <= i < forward_after.len() implies forward_after[i] == forward_before[i] by {
        let p = region.spec_point(i);
        if spec_in_box(p, ranges.0, ranges.2, ranges.1) {
            assert(forward_after[i] == forward_before[i]);
        }
    }
    assert(forward_after =~= forward_before);
}

/// Assembles one component over `ranges`: at every active point the forward
/// tendency takes the saved term on the first substep only, and the
/// Runge–Kutta tendency is updated from the resulting forward tendency; every
/// other point of both fields keeps its value.
pub fn assemble_component<T: Copy, S: Fn(usize, usize, T) -> T, U: Fn(usize, usize, usize, T, T) -> T>(
    region: &DryTendencyAssemblyRegion,
    runge_kutta: &mut Vec<T>,
    forward: &mut Vec<T>,
    ranges: &DryTendencyAssemblyActiveRanges,
    phase: DryTendencyAssemblyPhase,
    add_saved: S,
    update: U,
)
    requires
        old(runge_kutta)@.len() == region.spec_shape().spec_point_count(),
        old(forward)@.len() == region.spec_shape().spec_point_count(),
        spec_ranges_fit(*region, *ranges),
        forall|index: usize, horizontal: usize, fw: T|
            index < region.spec_shape().spec_point_count()
                && horizontal < region.spec_shape().spec_horizontal_shape().spec_point_count()
                ==> #[trigger] add_saved.requires((index, horizontal, fw)),
        forall|index: usize, horizontal: usize, bottom_top: usize, rk: T, fw: T|
            index < region.spec_shape().spec_point_count()
                && horizontal < region.spec_shape().spec_horizontal_shape().spec_point_count()
                && bottom_top < region.spec_shape().spec_bottom_top_points()
                ==> #[trigger] update.requires((index, horizontal, bottom_top, rk, fw)),
    ensures
        spec_component_assembled(
            *region,
            (ranges.west_east, ranges.south_north, ranges.bottom_top),
            phase,
            add_saved,
            update,
            old(runge_kutta)@,
            final(runge_kutta)@,
            old(forward)@,
            final(forward)@,
        ),
{
    proof {
        use_type_invariant(region);
    }
    let adds_saved = phase.adds_saved_tendencies();
    let saved_ref = &add_saved;
    let update_ref = &update;
    let points = Ghost(region.spec_shape().spec_point_count());
    let columns = Ghost(region.spec_shape().spec_horizontal_shape().spec_point_count());
    let levels = Ghost(region.spec_shape().spec_bottom_top_points());
    let operation = |index: usize, horizontal: usize, bottom_top: usize, rk: T, fw: T| -> (r: (T, T))
        requires
            index < points@,
            horizontal < columns@,
            bottom_top < levels@,
            forall|index: usize, horizontal: usize, fw: T|
                index < points@ && horizontal < columns@ ==> #[trigger] saved_ref.requires((index, horizontal, fw)),
            forall|index: usize, horizontal: usize, bottom_top: usize, rk: T, fw: T|
                index < points@ && horizontal < columns@ && bottom_top < levels@
                    ==> #[trigger] update_ref.requires((index, horizontal, bottom_top, rk, fw)),
        ensures
            if adds_saved { saved_ref.ensures((index, horizontal, fw), r.1) } else { r.1 == fw },
            update_ref.ensures((index, horizontal, bottom_top, rk, r.1), r.0),
    {
        let forward_value = if adds_saved { saved_ref(index, horizontal, fw) } else { fw };
        (update_ref(index, horizontal, bottom_top, rk, forward_value), forward_value)
    };
    let ghost runge_kutta_before = runge_kutta@;
    let ghost forward_before = forward@;
    for_each_volume_pair(region, runge_kutta, forward, ranges, operation);
    proof {
        let shape = region.spec_shape();
        let w = shape.spec_west_east_points() as int;
        let b = shape.spec_bottom_top_points() as int;
        assert forall|i: int| 0 <= i < runge_kutta@.len() implies {
            let p = #[trigger] region.spec_point(i);
            if spec_in_box(p, ranges.west_east, ranges.bottom_top, ranges.south_north) {
                let a = spec_pair_arguments(shape, p.0 as usize, p.1 as usize, p.2 as usize, runge_kutta_before, forward_before);
                &&& a.0 == i
                &&& if phase is FirstSubstep {
                    add_saved.ensures((a.0, a.1, forward_before[i]), forward@[i])
                } else {
                    forward@[i] == forward_before[i]
                }
                &&& update.ensures((a.0, a.1, a.2, runge_kutta_before[i], forward@[i]), runge_kutta@[i])
            } else {
                runge_kutta@[i] == runge_kutta_before[i] && forward@[i] == forward_before[i]
            }
        } by {
            crate::sweep::lemma_decode_then_encode(i, w, b, shape.spec_south_north_points() as int);
        }
    }
}

/// Replaces the Runge–Kutta column-mass tendency `v` at every active mass
/// point, stored at offset `i` of the single-level field, by `add(i, v)`;
/// every other point keeps its value.
pub fn accumulate_column_mass_points<T: Copy, F: Fn(usize, T) -> T>(
    region: &DryTendencyAssemblyRegion,
    runge_kutta_mass: &mut Vec<T>,
    add: F,
)
    requires
        old(runge_kutta_mass)@.len() == region.spec_shape().spec_horizontal_shape().spec_point_count(),
        forall|index: usize, v: T| index < region.spec_shape().spec_horizontal_shape().spec_point_count()
            ==> #[trigger] add.requires((index, v)),
    ensures
        spec_column_mass_accumulated(*region, add, old(runge_kutta_mass)@, final(runge_kutta_mass)@),
{
    let shape = region.shape();
    let horizontal_shape = shape.horizontal_shape();
    let ranges = region.mass_ranges();
    update_box_at_offsets(
        horizontal_shape,
        runge_kutta_mass,
        ranges.west_east.start..ranges.west_east.end,
        0..1,
        ranges.south_north.start..ranges.south_north.end,
        add,
    );
}

/// Combines the persistent and substep dry tendencies of one Runge–Kutta
/// substep: checks every field shape and coefficient length in the order of
/// [`validate_dry_tendency_assembly`], then assembles the west-east momentum,
/// south-north momentum, vertical momentum, geopotential and potential
/// temperature components over their active ranges, and finally accumulates
/// the column-mass tendency. On the first substep each component's forward
/// tendency first takes its saved term (`*_saved`); on a later substep the
/// forward tendencies are left as they are. A failed check writes nothing.
pub fn assemble_dry_tendencies<T: Copy, S0, U0, S1, U1, S2, U2, S3, U3, S4, U4, M>(
    region: &DryTendencyAssemblyRegion,
    shapes: &DryTendencyAssemblyFieldShapes,
    runge_kutta: DryTendencyAssemblyRungeKuttaTendencies<'_, Vec<T>>,
    forward: DryTendencyAssemblyForwardTendencies<'_, Vec<T>>,
    phase: DryTendencyAssemblyPhase,
    west_east_saved: S0,
    west_east_update: U0,
    south_north_saved: S1,
    south_north_update: U1,
    vertical_saved: S2,
    vertical_update: U2,
    geopotential_saved: S3,
    geopotential_update: U3,
    potential_temperature_saved: S4,
    potential_temperature_update: U4,
    column_mass: M,
) -> (r: DryTendencyAssemblyResult<()>)
    where
        S0: Fn(usize, usize, T) -> T,
        U0: Fn(usize, usize, usize, T, T) -> T,
        S1: Fn(usize, usize, T) -> T,
        U1: Fn(usize, usize, usize, T, T) -> T,
        S2: Fn(usize, usize, T) -> T,
        U2: Fn(usize, usize, usize, T, T) -> T,
        S3: Fn(usize, usize, T) -> T,
        U3: Fn(usize, usize, usize, T, T) -> T,
        S4: Fn(usize, usize, T) -> T,
        U4: Fn(usize, usize, usize, T, T) -> T,
        M: Fn(usize, T) -> T,
    requires
        (*runge_kutta.west_east_momentum)@.len() == shapes.west_east_runge_kutta_momentum.spec_point_count(),
        (*forward.west_east_momentum)@.len() == shapes.west_east_forward_momentum.spec_point_count(),
        (*runge_kutta.south_north_momentum)@.len() == shapes.south_north_runge_kutta_momentum.spec_point_count(),
        (*forward.south_north_momentum)@.len() == shapes.south_north_forward_momentum.spec_point_count(),
        (*runge_kutta.vertical_momentum)@.len() == shapes.vertical_runge_kutta_momentum.spec_point_count(),
        (*forward.vertical_momentum)@.len() == shapes.vertical_forward_momentum.spec_point_count(),
        (*runge_kutta.geopotential)@.len() == shapes.runge_kutta_geopotential.spec_point_count(),
        (*forward.geopotential)@.len() == shapes.forward_geopotential.spec_point_count(),
        (*runge_kutta.potential_temperature)@.len() == shapes.runge_kutta_potential_temperature.spec_point_count(),
        (*forward.potential_temperature)@.len() == shapes.forward_potential_temperature.spec_point_count(),
        (*runge_kutta.column_mass)@.len() == shapes.runge_kutta_column_mass.spec_point_count(),
        forall|index: usize, horizontal: usize, fw: T|
            index < region.spec_shape().spec_point_count()
                && horizontal < region.spec_shape().spec_horizontal_shape().spec_point_count()
                ==> #[trigger] west_east_saved.requires((index, horizontal, fw)),
        forall|index: usize, horizontal: usize, bottom_top: usize, rk: T, fw: T|
            index < region.spec_shape().spec_point_count()
                && horizontal < region.spec_shape().spec_horizontal_shape().spec_point_count()
                && bottom_top < region.spec_shape().spec_bottom_top_points()
                ==> #[trigger] west_east_update.requires((index, horizontal, bottom_top, rk, fw)),
        forall|index: usize, horizontal: usize, fw: T|
            index < region.spec_shape().spec_point_count()
                && horizontal < region.spec_shape().spec_horizontal_shape().spec_point_count()
                ==> #[trigger] south_north_saved.requires((index, horizontal, fw)),
        forall|index: usize, horizontal: usize, bottom_top: usize, rk: T, fw: T|
            index < region.spec_shape().spec_point_count()
                && horizontal < region.spec_shape().spec_horizontal_shape().spec_point_count()
                && bottom_top < region.spec_shape().spec_bottom_top_points()
                ==> #[trigger] south_north_update.requires((index, horizontal, bottom_top, rk, fw)),
        forall|index: usize, horizontal: usize, fw: T|
            index < region.spec_shape().spec_point_count()
                && horizontal < region.spec_shape().spec_horizontal_shape().spec_point_count()
                ==> #[trigger] vertical_saved.requires((index, horizontal, fw)),
        forall|index: usize, horizontal: usize, bottom_top: usize, rk: T, fw: T|
            index < region.spec_shape().spec_point_count()
                && horizontal < region.spec_shape().spec_horizontal_shape().spec_point_count()
                && bottom_top < region.spec_shape().spec_bottom_top_points()
                ==> #[trigger] vertical_update.requires((index, horizontal, bottom_top, rk, fw)),
        forall|index: usize, horizontal: usize, fw: T|
            index < region.spec_shape().spec_point_count()
                && horizontal < region.spec_shape().spec_horizontal_shape().spec_point_count()
                ==> #[trigger] geopotential_saved.requires((index, horizontal, fw)),
        forall|index: usize, horizontal: usize, bottom_top: usize, rk: T, fw: T|
            index < region.spec_shape().spec_point_count()
                && horizontal < region.spec_shape().spec_horizontal_shape().spec_point_count()
                && bottom_top < region.spec_shape().spec_bottom_top_points()
                ==> #[trigger] geopotential_update.requires((index, horizontal, bottom_top, rk, fw)),
        forall|index: usize, horizontal: usize, fw: T|
            index < region.spec_shape().spec_point_count()
                && horizontal < region.spec_shape().spec_horizontal_shape().spec_point_count()
                ==> #[trigger] potential_temperature_saved.requires((index, horizontal, fw)),
        forall|index: usize, horizontal: usize, bottom_top: usize, rk: T, fw: T|
            index < region.spec_shape().spec_point_count()
                && horizontal < region.spec_shape().spec_horizontal_shape().spec_point_count()
                && bottom_top < region.spec_shape().spec_bottom_top_points()
                ==> #[trigger] potential_temperature_update.requires((index, horizontal, bottom_top, rk, fw)),
        forall|index: usize, v: T| index < region.spec_shape().spec_horizontal_shape().spec_point_count()
            ==> #[trigger] column_mass.requires((index, v)),
    ensures
        spec_assembly_check(*shapes, *region, r),
        r is Err ==> {
            &&& final(runge_kutta.west_east_momentum)@ == old(runge_kutta.west_east_momentum)@
            &&& final(forward.west_east_momentum)@ == old(forward.west_east_momentum)@
            &&& final(runge_kutta.south_north_momentum)@ == old(runge_kutta.south_north_momentum)@
            &&& final(forward.south_north_momentum)@ == old(forward.south_north_momentum)@
            &&& final(runge_kutta.vertical_momentum)@ == old(runge_kutta.vertical_momentum)@
            &&& final(forward.vertical_momentum)@ == old(forward.vertical_momentum)@
            &&& final(runge_kutta.geopotential)@ == old(runge_kutta.geopotential)@
            &&& final(forward.geopotential)@ == old(forward.geopotential)@
            &&& final(runge_kutta.potential_temperature)@ == old(runge_kutta.potential_temperature)@
            &&& final(forward.potential_temperature)@ == old(forward.potential_temperature)@
            &&& final(runge_kutta.column_mass)@ == old(runge_kutta.column_mass)@
        },
        phase is LaterSubstep ==> {
            &&& final(forward.west_east_momentum)@ == old(forward.west_east_momentum)@
            &&& final(forward.south_north_momentum)@ == old(forward.south_north_momentum)@
            &&& final(forward.vertical_momentum)@ == old(forward.vertical_momentum)@
            &&& final(forward.geopotential)@ == old(forward.geopotential)@
            &&& final(forward.potential_temperature)@ == old(forward.potential_temperature)@
        },
        r is Ok ==> {
            &&& spec_component_assembled(
                *region,
                region.spec_ranges(false, true, true),
                phase,
                west_east_saved,
                west_east_update,
                old(runge_kutta.west_east_momentum)@,
                final(runge_kutta.west_east_momentum)@,
                old(forward.west_east_momentum)@,
                final(forward.west_east_momentum)@,
            )
            &&& spec_component_assembled(
                *region,
                region.spec_ranges(true, false, true),
                phase,
                south_north_saved,
                south_north_update,
                old(runge_kutta.south_north_momentum)@,
                final(runge_kutta.south_north_momentum)@,
                old(forward.south_north_momentum)@,
                final(forward.south_north_momentum)@,
            )
            &&& spec_component_assembled(
                *region,
                region.spec_ranges(true, true, false),
                phase,
                vertical_saved,
                vertical_update,
                old(runge_kutta.vertical_momentum)@,
                final(runge_kutta.vertical_momentum)@,
                old(forward.vertical_momentum)@,
                final(forward.vertical_momentum)@,
            )
            &&& spec_component_assembled(
                *region,
                region.spec_ranges(true, true, false),
                phase,
                geopotential_saved,
                geopotential_update,
                old(runge_kutta.geopotential)@,
                final(runge_kutta.geopotential)@,
                old(forward.geopotential)@,
                final(forward.geopotential)@,
            )
            &&& spec_component_assembled(
                *region,
                region.spec_ranges(true, true, true),
                phase,
                potential_temperature_saved,
                potential_temperature_update,
                old(runge_kutta.potential_temperature)@,
                final(runge_kutta.potential_temperature)@,
                old(forward.potential_temperature)@,
                final(forward.potential_temperature)@,
            )
            &&& spec_column_mass_accumulated(*region, column_mass, old(runge_kutta.column_mass)@, final(runge_kutta.column_mass)@)
        },
{
    let ghost runge_kutta_before = (
        *runge_kutta.west_east_momentum,
        *runge_kutta.south_north_momentum,
        *runge_kutta.vertical_momentum,
        *runge_kutta.geopotential,
        *runge_kutta.potential_temperature,
    );
    validate_dry_tendency_assembly(shapes, region)?;
    proof {
        let volume = region.spec_shape();
        let horizontal = volume.spec_horizontal_shape();
        assert forall|i: int| 0 <= i < shapes.spec_volume_fields().len() implies shapes.spec_volume_fields()[i].1 == volume by {
            if shapes.spec_volume_fields()[i].1 != volume {
                assert(spec_has_mismatch(shapes.spec_volume_fields(), volume));
            }
        }
        if shapes.spec_horizontal_fields()[0].1 != horizontal {
            assert(spec_has_mismatch(shapes.spec_horizontal_fields(), horizontal));
        }
    }
    let DryTendencyAssemblyRungeKuttaTendencies {
        west_east_momentum: west_east_runge_kutta,
        south_north_momentum: south_north_runge_kutta,
        vertical_momentum: vertical_runge_kutta,
        geopotential: geopotential_runge_kutta,
        potential_temperature: potential_temperature_runge_kutta,
        column_mass: column_mass_runge_kutta,
    } = runge_kutta;
    let DryTendencyAssemblyForwardTendencies {
        west_east_momentum: west_east_forward,
        south_north_momentum: south_north_forward,
        vertical_momentum: vertical_forward,
        geopotential: geopotential_forward,
        potential_temperature: potential_temperature_forward,
        column_mass: _,
    } = forward;
    let ghost forward_before = (
        *west_east_forward,
        *south_north_forward,
        *vertical_forward,
        *geopotential_forward,
        *potential_temperature_forward,
    );
    assemble_component(region, west_east_runge_kutta, west_east_forward, &region.west_east_momentum_ranges(), phase, west_east_saved, west_east_update);
    assemble_component(region, south_north_runge_kutta, south_north_forward, &region.south_north_momentum_ranges(), phase, south_north_saved, south_north_update);
    assemble_component(region, vertical_runge_kutta, vertical_forward, &region.vertical_ranges(), phase, vertical_saved, vertical_update);
    assemble_component(region, geopotential_runge_kutta, geopotential_forward, &region.vertical_ranges(), phase, geopotential_saved, geopotential_update);
    assemble_component(region, potential_temperature_runge_kutta, potential_temperature_forward, &region.mass_ranges(), phase, potential_temperature_saved, potential_temperature_update);
    accumulate_column_mass_points(region, column_mass_runge_kutta, column_mass);
    proof {
        if phase is LaterSubstep {
            lemma_later_substep_keeps_forward(
                *region,
                region.spec_ranges(false, true, true),
                west_east_saved,
                west_east_update,
                runge_kutta_before.0@,
                west_east_runge_kutta@,
                forward_before.0@,
                west_east_forward@,
            );
            lemma_later_substep_keeps_forward(
                *region,
                region.spec_ranges(true, false, true),
                south_north_saved,
                south_north_update,
                runge_kutta_before.1@,
                south_north_runge_kutta@,
                forward_before.1@,
                south_north_forward@,
            );
            lemma_later_substep_keeps_forward(
                *region,
                region.spec_ranges(true, true, false),
                vertical_saved,
                vertical_update,
                runge_kutta_before.2@,
                vertical_runge_kutta@,
                forward_before.2@,
                vertical_forward@,
            );
            lemma_later_substep_keeps_forward(
                *region,
                region.spec_ranges(true, true, false),
                geopotential_saved,
                geopotential_update,
                runge_kutta_before.3@,
                geopotential_runge_kutta@,
                forward_before.3@,
                geopotential_forward@,
            );
            lemma_later_substep_keeps_forward(
                *region,
                region.spec_ranges(true, true, true),
                potential_temperature_saved,
                potential_temperature_update,
                runge_kutta_before.4@,
                potential_temperature_runge_kutta@,
                forward_before.4@,
                potential_temperature_forward@,
            );
        }
    }
    Ok(())
}

} // verus!
