use vstd::prelude::*;

use crate::grid::{lemma_linear_index_in_bounds, spec_first_failure};
use crate::held_suarez::line_layout::spec_field_shapes_check;
use crate::held_suarez::{
    validate_field_shapes, DampingLineWindows, HeldSuarezDampingRegion, HeldSuarezDampingResult, HeldSuarezDampingShapes,
};
use crate::sweep::{lemma_decode_then_encode, lemma_encode_then_decode, spec_decode, spec_in_box};

verus! {

impl HeldSuarezDampingRegion {
    /// The point `(west-east, bottom-top, south-north)` stored at offset `i`.
    pub open spec fn spec_point(self, i: int) -> (int, int, int) {
        spec_decode(i, self.spec_shape().spec_west_east_points() as int, self.spec_shape().spec_bottom_top_points() as int)
    }

    /// South-north rows damped for one momentum component.
    pub open spec fn spec_component_rows(self, west_east_component: bool) -> std::ops::Range<usize> {
        if west_east_component {
            self.spec_west_east_momentum_south_north_range()
        } else {
            self.spec_south_north_momentum_south_north_range()
        }
    }

    /// Windows of line `(bottom_top_index, south_north_index)` of one
    /// momentum component.
    pub open spec fn spec_component_windows(self, west_east_component: bool, bottom_top_index: int, south_north_index: int) -> DampingLineWindows {
        if west_east_component {
            self.spec_west_east_momentum_windows(bottom_top_index, south_north_index)
        } else {
            self.spec_south_north_momentum_windows(bottom_top_index, south_north_index)
        }
    }

    /// Whether offset `i` lies on a damped line of one component.
    pub open spec fn spec_on_damped_line(self, west_east_component: bool, i: int) -> bool {
        spec_in_box(
            self.spec_point(i),
            self.spec_west_east_range(),
            self.spec_bottom_top_range(),
            self.spec_component_rows(west_east_component),
        )
    }
}

/// Line `(bottom_top_index, south_north_index)` of `after` holds what `damp`
/// returned for the line's windows and its values in `before`.
pub open spec fn spec_line_damped<T, F: Fn(DampingLineWindows, Vec<T>) -> Vec<T>>(
    region: HeldSuarezDampingRegion,
    west_east_component: bool,
    damp: F,
    before: Seq<T>,
    after: Seq<T>,
    bottom_top_index: int,
    south_north_index: int,
) -> bool {
    let w = region.spec_component_windows(west_east_component, bottom_top_index, south_north_index);
    exists|line: Vec<T>, out: Vec<T>|
        #![trigger damp.ensures((w, line), out)]
        line@ == before.subrange(w.line as int, w.line + w.length)
            && damp.ensures((w, line), out)
            && after.subrange(w.line as int, w.line + w.length) == out@
}

/// Every damped line of one component in `after` holds what `damp`
/// returned for it, and every other point keeps its value from `before`.
pub open spec fn spec_lines_damped<T, F: Fn(DampingLineWindows, Vec<T>) -> Vec<T>>(
    region: HeldSuarezDampingRegion,
    west_east_component: bool,
    damp: F,
    before: Seq<T>,
    after: Seq<T>,
) -> bool {
    &&& after.len() == before.len()
    &&& forall|bottom_top_index: int, south_north_index: int|
        region.spec_bottom_top_range().start <= bottom_top_index < region.spec_bottom_top_range().end
            && region.spec_component_rows(west_east_component).start <= south_north_index
            && south_north_index < region.spec_component_rows(west_east_component).end
            ==> #[trigger] spec_line_damped(region, west_east_component, damp, before, after, bottom_top_index, south_north_index)
    &&& forall|i: int| 0 <= i < after.len() && !region.spec_on_damped_line(west_east_component, i) ==> after[i] == before[i]
}

/// The offsets of a damped line decode to the line's own points.
proof fn lemma_line_points(region: HeldSuarezDampingRegion, west_east_component: bool, bottom_top_index: int, south_north_index: int, o: int)
    requires
        region.valid(),
        region.spec_bottom_top_range().start <= bottom_top_index < region.spec_bottom_top_range().end,
        region.spec_component_rows(west_east_component).start <= south_north_index,
        south_north_index < region.spec_component_rows(west_east_component).end,
        0 <= o < region.spec_component_windows(west_east_component, bottom_top_index, south_north_index).length,
    ensures
        ({
            let w = region.spec_component_windows(west_east_component, bottom_top_index, south_north_index);
            &&& region.spec_point(w.line + o) == (region.spec_west_east_range().start + o, bottom_top_index, south_north_index)
            &&& w.line + o < region.spec_shape().spec_point_count()
        }),
{
    let shape = region.spec_shape();
    let width = shape.spec_west_east_points() as int;
    let levels = shape.spec_bottom_top_points() as int;
    let x = region.spec_west_east_range().start + o;
    lemma_encode_then_decode(x, bottom_top_index, south_north_index, width, levels);
    lemma_linear_index_in_bounds(x, bottom_top_index, south_north_index, width, levels, shape.spec_south_north_points() as int);
}

/// Replaces the values of every damped line of one momentum component by
/// what `damp` returns for the line's windows and current values.
fn damp_component_lines<T: Copy, F: Fn(DampingLineWindows, Vec<T>) -> Vec<T>>(
    region: &HeldSuarezDampingRegion,
    west_east_component: bool,
    tendency: &mut Vec<T>,
    damp: F,
)
    requires
        old(tendency)@.len() == region.spec_shape().spec_point_count(),
        forall|w: DampingLineWindows, line: Vec<T>|
            w.within(region.spec_shape().spec_point_count()) && line@.len() == w.length
                ==> #[trigger] damp.requires((w, line)),
        forall|w: DampingLineWindows, line: Vec<T>, out: Vec<T>|
            #[trigger] damp.ensures((w, line), out) ==> out@.len() == line@.len(),
    ensures
        spec_lines_damped(*region, west_east_component, damp, old(tendency)@, final(tendency)@),
{
    proof {
        use_type_invariant(region);
    }
    let ghost initial = tendency@;
    let ghost count = region.spec_shape().spec_point_count();
    let west_east = region.west_east_range();
    let bottom_top = region.bottom_top_range();
    let rows = if west_east_component {
        region.west_east_momentum_south_north_range()
    } else {
        region.south_north_momentum_south_north_range()
    };
    let mut south_north_index = rows.start;
    while south_north_index < rows.end
        invariant
            region.valid(),
            count == region.spec_shape().spec_point_count(),
            initial.len() == count,
            tendency@.len() == count,
            west_east == region.spec_west_east_range(),
            bottom_top == region.spec_bottom_top_range(),
            rows == region.spec_component_rows(west_east_component),
            rows.start <= south_north_index,
            south_north_index <= rows.end || rows.start >= rows.end,
            forall|w: DampingLineWindows, line: Vec<T>|
                w.within(count) && line@.len() == w.length ==> #[trigger] damp.requires((w, line)),
            forall|w: DampingLineWindows, line: Vec<T>, out: Vec<T>|
                #[trigger] damp.ensures((w, line), out) ==> out@.len() == line@.len(),
            forall|k: int, j: int|
                bottom_top.start <= k < bottom_top.end && rows.start <= j < south_north_index
                    ==> #[trigger] spec_line_damped(*region, west_east_component, damp, initial, tendency@, k, j),
            forall|i: int| 0 <= i < count && !spec_in_box(region.spec_point(i), west_east, bottom_top, rows.start..south_north_index)
                ==> tendency@[i] == initial[i],
        decreases rows.end - south_north_index,
    {
        let mut bottom_top_index = bottom_top.start;
        while bottom_top_index < bottom_top.end
            invariant
                region.valid(),
                count == region.spec_shape().spec_point_count(),
                initial.len() == count,
                tendency@.len() == count,
                west_east == region.spec_west_east_range(),
                bottom_top == region.spec_bottom_top_range(),
                rows == region.spec_component_rows(west_east_component),
                rows.start <= south_north_index < rows.end,
                bottom_top.start <= bottom_top_index,
                bottom_top_index <= bottom_top.end || bottom_top.start >= bottom_top.end,
                forall|w: DampingLineWindows, line: Vec<T>|
                    w.within(count) && line@.len() == w.length ==> #[trigger] damp.requires((w, line)),
                forall|w: DampingLineWindows, line: Vec<T>, out: Vec<T>|
                    #[trigger] damp.ensures((w, line), out) ==> out@.len() == line@.len(),
                forall|k: int, j: int|
                    bottom_top.start <= k < bottom_top.end && rows.start <= j < south_north_index
                        ==> #[trigger] spec_line_damped(*region, west_east_component, damp, initial, tendency@, k, j),
                forall|k: int|
                    bottom_top.start <= k < bottom_top_index
                        ==> #[trigger] spec_line_damped(*region, west_east_component, damp, initial, tendency@, k, south_north_index as int),
                forall|i: int| 0 <= i < count ==> {
                    let p = #[trigger] region.spec_point(i);
                    (!spec_in_box(p, west_east, bottom_top, rows.start..south_north_index)
                        && !(spec_in_box(p, west_east, bottom_top, rows) && p.2 == south_north_index && p.1 < bottom_top_index))
                        ==> tendency@[i] == initial[i]
                },
            decreases bottom_top.end - bottom_top_index,
        {
            let windows = if west_east_component {
                region.west_east_momentum_windows(bottom_top_index, south_north_index)
            } else {
                region.south_north_momentum_windows(bottom_top_index, south_north_index)
            };
            let ghost w = windows;
            assert(w == region.spec_component_windows(west_east_component, bottom_top_index as int, south_north_index as int));
            let mut line: Vec<T> = Vec::new();
            let mut offset: usize = 0;
            while offset < windows.length
                invariant
                    region.valid(),
                    w == windows,
                    w == region.spec_component_windows(west_east_component, bottom_top_index as int, south_north_index as int),
                    w.within(count),
                    count == region.spec_shape().spec_point_count(),
                    initial.len() == count,
                    tendency@.len() == count,
                    west_east == region.spec_west_east_range(),
                    bottom_top == region.spec_bottom_top_range(),
                    rows == region.spec_component_rows(west_east_component),
                    rows.start <= south_north_index < rows.end,
                    bottom_top.start <= bottom_top_index < bottom_top.end,
                    offset <= w.length,
                    line@ == initial.subrange(w.line as int, w.line + offset),
                    forall|i: int| 0 <= i < count ==> {
                        let p = #[trigger] region.spec_point(i);
                        (!spec_in_box(p, west_east, bottom_top, rows.start..south_north_index)
                            && !(spec_in_box(p, west_east, bottom_top, rows) && p.2 == south_north_index && p.1 < bottom_top_index))
                            ==> tendency@[i] == initial[i]
                    },
                decreases w.length - offset,
            {
                proof {
                    lemma_line_points(*region, west_east_component, bottom_top_index as int, south_north_index as int, offset as int);
                    assert(region.spec_point(w.line + offset) == (west_east.start + offset, bottom_top_index as int, south_north_index as int));
                }
                line.push(tendency[windows.line + offset]);
                offset = offset + 1;
            }
            let out = damp(windows, line);
            let ghost input = line;
            let ghost result = out;
            let ghost before = tendency@;
            let mut offset: usize = 0;
            while offset < windows.length
                invariant
                    region.valid(),
                    w == windows,
                    w == region.spec_component_windows(west_east_component, bottom_top_index as int, south_north_index as int),
                    w.within(count),
                    count == region.spec_shape().spec_point_count(),
                    tendency@.len() == count,
                    before.len() == count,
                    out@.len() == w.length,
                    offset <= w.length,
                    forall|o: int| 0 <= o < offset ==> tendency@[w.line + o] == out@[o],
                    forall|i: int| 0 <= i < count && !(w.line <= i < w.line + offset) ==> tendency@[i] == before[i],
                decreases w.length - offset,
            {
                tendency.set(windows.line + offset, out[offset]);
                offset = offset + 1;
            }
            proof {
                assert(tendency@.subrange(w.line as int, w.line + w.length) =~= out@);
                assert(spec_line_damped(*region, west_east_component, damp, initial, tendency@, bottom_top_index as int, south_north_index as int));
                // Offsets of the new line belong to no other line and to no untouched point.
                assert forall|i: int| 0 <= i < count && w.line <= i < w.line + w.length implies {
                    let p = #[trigger] region.spec_point(i);
                    p == (west_east.start + (i - w.line), bottom_top_index as int, south_north_index as int)
                } by {
                    lemma_line_points(*region, west_east_component, bottom_top_index as int, south_north_index as int, i - w.line);
                }
                assert forall|k: int, j: int|
                    bottom_top.start <= k < bottom_top.end && rows.start <= j < south_north_index
                        implies #[trigger] spec_line_damped(*region, west_east_component, damp, initial, tendency@, k, j) by {
                    let wk = region.spec_component_windows(west_east_component, k, j);
                    lemma_line_points(*region, west_east_component, k, j, wk.length - 1);
                    assert(spec_line_damped(*region, west_east_component, damp, initial, before, k, j));
                    let (l, o) = choose|l: Vec<T>, o: Vec<T>|
                        #![trigger damp.ensures((wk, l), o)]
                        l@ == initial.subrange(wk.line as int, wk.line + wk.length)
                            && damp.ensures((wk, l), o)
                            && before.subrange(wk.line as int, wk.line + wk.length) == o@;
                    assert forall|x: int| wk.line <= x < wk.line + wk.length implies #[trigger] tendency@[x] == before[x] by {
                        lemma_line_points(*region, west_east_component, k, j, x - wk.line);
                        if w.line <= x < w.line + w.length {
                            lemma_line_points(*region, west_east_component, bottom_top_index as int, south_north_index as int, x - w.line);
                        }
                    }
                    assert(tendency@.subrange(wk.line as int, wk.line + wk.length) =~= before.subrange(wk.line as int, wk.line + wk.length));
                }
                assert forall|k: int|
                    bottom_top.start <= k < bottom_top_index + 1
                        implies #[trigger] spec_line_damped(*region, west_east_component, damp, initial, tendency@, k, south_north_index as int) by {
                    if k < bottom_top_index {
                        let j = south_north_index as int;
                        let wk = region.spec_component_windows(west_east_component, k, j);
                        lemma_line_points(*region, west_east_component, k, j, wk.length - 1);
                        assert(spec_line_damped(*region, west_east_component, damp, initial, before, k, j));
                        let (l, o) = choose|l: Vec<T>, o: Vec<T>|
                            #![trigger damp.ensures((wk, l), o)]
                            l@ == initial.subrange(wk.line as int, wk.line + wk.length)
                                && damp.ensures((wk, l), o)
                                && before.subrange(wk.line as int, wk.line + wk.length) == o@;
                        assert forall|x: int| wk.line <= x < wk.line + wk.length implies #[trigger] tendency@[x] == before[x] by {
                            lemma_line_points(*region, west_east_component, k, j, x - wk.line);
                            if w.line <= x < w.line + w.length {
                                lemma_line_points(*region, west_east_component, bottom_top_index as int, south_north_index as int, x - w.line);
                            }
                        }
                        assert(tendency@.subrange(wk.line as int, wk.line + wk.length) =~= before.subrange(wk.line as int, wk.line + wk.length));
                    }
                }
            }
            bottom_top_index = bottom_top_index + 1;
        }
        proof {
            assert forall|i: int| 0 <= i < count && !spec_in_box(region.spec_point(i), west_east, bottom_top, rows.start..(south_north_index + 1) as usize)
                implies tendency@[i] == initial[i] by {}
        }
        south_north_index = south_north_index + 1;
    }
    proof {
        assert forall|i: int| 0 <= i < tendency@.len() && !region.spec_on_damped_line(west_east_component, i)
            implies tendency@[i] == initial[i] by {
            let p = region.spec_point(i);
            if spec_in_box(p, west_east, bottom_top, rows.start..south_north_index) {
                assert(spec_in_box(p, west_east, bottom_top, rows));
            }
        }
    }
}

/// Replaces every damped west-east momentum tendency line by what `damp`
/// returns for the line's windows and current values; every other point
/// keeps its value.
pub fn damp_west_east_momentum_lines<T: Copy, F: Fn(DampingLineWindows, Vec<T>) -> Vec<T>>(
    region: &HeldSuarezDampingRegion,
    tendency: &mut Vec<T>,
    damp: F,
)
    requires
        old(tendency)@.len() == region.spec_shape().spec_point_count(),
        forall|w: DampingLineWindows, line: Vec<T>|
            w.within(region.spec_shape().spec_point_count()) && line@.len() == w.length
                ==> #[trigger] damp.requires((w, line)),
        forall|w: DampingLineWindows, line: Vec<T>, out: Vec<T>|
            #[trigger] damp.ensures((w, line), out) ==> out@.len() == line@.len(),
    ensures
        spec_lines_damped(*region, true, damp, old(tendency)@, final(tendency)@),
{
    damp_component_lines(region, true, tendency, damp);
}

/// Replaces every damped south-north momentum tendency line by what `damp`
/// returns for the line's windows and current values; every other point
/// keeps its value.
pub fn damp_south_north_momentum_lines<T: Copy, F: Fn(DampingLineWindows, Vec<T>) -> Vec<T>>(
    region: &HeldSuarezDampingRegion,
    tendency: &mut Vec<T>,
    damp: F,
)
    requires
        old(tendency)@.len() == region.spec_shape().spec_point_count(),
        forall|w: DampingLineWindows, line: Vec<T>|
            w.within(region.spec_shape().spec_point_count()) && line@.len() == w.length
                ==> #[trigger] damp.requires((w, line)),
        forall|w: DampingLineWindows, line: Vec<T>, out: Vec<T>|
            #[trigger] damp.ensures((w, line), out) ==> out@.len() == line@.len(),
    ensures
        spec_lines_damped(*region, false, damp, old(tendency)@, final(tendency)@),
{
    damp_component_lines(region, false, tendency, damp);
}

/// Applies pressure-dependent damping to both momentum tendencies: checks
/// the six field shapes in the order of [`validate_field_shapes`], then
/// replaces every damped south-north line and then every damped west-east
/// line by what the matching `damp` closure returns. A failed check writes
/// nothing.
pub fn apply_held_suarez_damping<
    T: Copy,
    F: Fn(DampingLineWindows, Vec<T>) -> Vec<T>,
    G: Fn(DampingLineWindows, Vec<T>) -> Vec<T>,
>(
    region: &HeldSuarezDampingRegion,
    shapes: HeldSuarezDampingShapes,
    west_east_momentum_tendency: &mut Vec<T>,
    south_north_momentum_tendency: &mut Vec<T>,
    damp_west_east: F,
    damp_south_north: G,
) -> (r: HeldSuarezDampingResult<()>)
    requires
        old(west_east_momentum_tendency)@.len() == shapes.west_east_momentum_tendency.spec_point_count(),
        old(south_north_momentum_tendency)@.len() == shapes.south_north_momentum_tendency.spec_point_count(),
        forall|w: DampingLineWindows, line: Vec<T>|
            w.within(region.spec_shape().spec_point_count()) && line@.len() == w.length
                ==> #[trigger] damp_west_east.requires((w, line)),
        forall|w: DampingLineWindows, line: Vec<T>, out: Vec<T>|
            #[trigger] damp_west_east.ensures((w, line), out) ==> out@.len() == line@.len(),
        forall|w: DampingLineWindows, line: Vec<T>|
            w.within(region.spec_shape().spec_point_count()) && line@.len() == w.length
                ==> #[trigger] damp_south_north.requires((w, line)),
        forall|w: DampingLineWindows, line: Vec<T>, out: Vec<T>|
            #[trigger] damp_south_north.ensures((w, line), out) ==> out@.len() == line@.len(),
    ensures
        r == spec_field_shapes_check(
            shapes.west_east_momentum_tendency,
            shapes.south_north_momentum_tendency,
            shapes.west_east_momentum,
            shapes.south_north_momentum,
            shapes.perturbation_pressure,
            shapes.base_pressure,
            *region,
        ),
        r is Err ==> final(west_east_momentum_tendency)@ == old(west_east_momentum_tendency)@
            && final(south_north_momentum_tendency)@ == old(south_north_momentum_tendency)@,
        r is Ok ==> spec_lines_damped(*region, true, damp_west_east, old(west_east_momentum_tendency)@, final(west_east_momentum_tendency)@)
            && spec_lines_damped(*region, false, damp_south_north, old(south_north_momentum_tendency)@, final(south_north_momentum_tendency)@),
{
    validate_field_shapes(
        shapes.west_east_momentum_tendency,
        shapes.south_north_momentum_tendency,
        shapes.west_east_momentum,
        shapes.south_north_momentum,
        shapes.perturbation_pressure,
        shapes.base_pressure,
        region,
    )?;
    proof {
        reveal_with_fuel(spec_first_failure, 7);
    }
    damp_component_lines(region, false, south_north_momentum_tendency, damp_south_north);
    damp_component_lines(region, true, west_east_momentum_tendency, damp_west_east);
    Ok(())
}

} // verus!
