//! Generic sweeps over an active box of field points: each active point is
//! written once from a caller-supplied value, and every other point of the
//! field keeps its value.

use std::ops::Range;

use vstd::prelude::*;

use crate::grid::{lemma_planar_index, spec_linear_index, GridShape};

verus! {

/// The point `(west_east, bottom_top, south_north)` stored at offset `i` of a
/// field whose rows hold `west_east_points` values and whose slabs hold
/// `bottom_top_points` rows.
pub open spec fn spec_decode(i: int, west_east_points: int, bottom_top_points: int) -> (int, int, int) {
    (i % west_east_points, (i / west_east_points) % bottom_top_points, (i / west_east_points) / bottom_top_points)
}

/// Decoding an offset and encoding the point again gives the offset back;
/// the decoded point lies inside the field.
pub proof fn lemma_decode_then_encode(i: int, west_east_points: int, bottom_top_points: int, south_north_points: int)
    requires
        west_east_points > 0,
        bottom_top_points > 0,
        0 <= i < west_east_points * bottom_top_points * south_north_points,
    ensures
        ({
            let c = spec_decode(i, west_east_points, bottom_top_points);
            &&& spec_linear_index(c.0, c.1, c.2, west_east_points, bottom_top_points) == i
            &&& 0 <= c.0 < west_east_points
            &&& 0 <= c.1 < bottom_top_points
            &&& 0 <= c.2 < south_north_points
        }),
{
    let w = west_east_points;
    let b = bottom_top_points;
    let line = i / w;
    vstd::arithmetic::div_mod::lemma_fundamental_div_mod(i, w);
    vstd::arithmetic::div_mod::lemma_fundamental_div_mod(line, b);
    vstd::arithmetic::div_mod::lemma_mod_pos_bound(i, w);
    vstd::arithmetic::div_mod::lemma_mod_pos_bound(line, b);
    vstd::arithmetic::div_mod::lemma_div_pos_is_pos(i, w);
    vstd::arithmetic::div_mod::lemma_div_pos_is_pos(line, b);
    assert(line * w + i % w == i) by (nonlinear_arith)
        requires i == w * line + i % w;
    assert(line / b < south_north_points) by (nonlinear_arith)
        requires
            line == b * (line / b) + line % b,
            0 <= line % b,
            i == line * w + i % w,
            0 <= i % w,
            i < w * b * south_north_points,
            w > 0,
            b > 0;
    assert(((line / b) * b + line % b) * w + i % w == i) by (nonlinear_arith)
        requires
            line == b * (line / b) + line % b,
            line * w + i % w == i;
}

/// Encoding a point of the field and decoding the offset gives the point.
pub proof fn lemma_encode_then_decode(
    west_east_index: int,
    bottom_top_index: int,
    south_north_index: int,
    west_east_points: int,
    bottom_top_points: int,
)
    requires
        0 <= west_east_index < west_east_points,
        0 <= bottom_top_index < bottom_top_points,
        0 <= south_north_index,
    ensures
        spec_decode(
            spec_linear_index(west_east_index, bottom_top_index, south_north_index, west_east_points, bottom_top_points),
            west_east_points,
            bottom_top_points,
        ) == (west_east_index, bottom_top_index, south_north_index),
{
    let line = south_north_index * bottom_top_points + bottom_top_index;
    let i = line * west_east_points + west_east_index;
    vstd::arithmetic::div_mod::lemma_fundamental_div_mod_converse(i, west_east_points, line, west_east_index);
    vstd::arithmetic::div_mod::lemma_fundamental_div_mod_converse(line, bottom_top_points, south_north_index, bottom_top_index);
}

/// Whether a point lies in the active box.
pub open spec fn spec_in_box(
    point: (int, int, int),
    west_east: Range<usize>,
    bottom_top: Range<usize>,
    south_north: Range<usize>,
) -> bool {
    &&& west_east.start <= point.0 < west_east.end
    &&& bottom_top.start <= point.1 < bottom_top.end
    &&& south_north.start <= point.2 < south_north.end
}

/// Whether a point comes before the cursor `(west_east, bottom_top,
/// south_north)` in sweep order (south-north outermost, west-east innermost).
pub open spec fn spec_before(point: (int, int, int), west_east: int, bottom_top: int, south_north: int) -> bool {
    ||| point.2 < south_north
    ||| point.2 == south_north && point.1 < bottom_top
    ||| point.2 == south_north && point.1 == bottom_top && point.0 < west_east
}

/// The box lies inside the field.
pub open spec fn spec_box_in_shape(
    shape: GridShape,
    west_east: Range<usize>,
    bottom_top: Range<usize>,
    south_north: Range<usize>,
) -> bool {
    &&& west_east.end <= shape.spec_west_east_points()
    &&& bottom_top.end <= shape.spec_bottom_top_points()
    &&& south_north.end <= shape.spec_south_north_points()
}

/// Replaces the value `v` at every point `(west_east, bottom_top,
/// south_north)` of the active box by `update(west_east, bottom_top,
/// south_north, v)`; every other point keeps its value.
pub fn update_box<T: Copy, F>(
    shape: GridShape,
    output: &mut Vec<T>,
    west_east: Range<usize>,
    bottom_top: Range<usize>,
    south_north: Range<usize>,
    update: F,
)
    where
        F: Fn(usize, usize, usize, T) -> T,
    requires
        old(output)@.len() == shape.spec_point_count(),
        spec_box_in_shape(shape, west_east, bottom_top, south_north),
        forall|a: usize, b: usize, c: usize|
            spec_in_box((a as int, b as int, c as int), west_east, bottom_top, south_north)
                ==> #[trigger] update.requires((a, b, c, old(output)@[spec_linear_index(a as int, b as int, c as int, shape.spec_west_east_points() as int, shape.spec_bottom_top_points() as int)])),
    ensures
        final(output)@.len() == old(output)@.len(),
        forall|i: int| 0 <= i < final(output)@.len() ==> {
            let p = #[trigger] spec_decode(i, shape.spec_west_east_points() as int, shape.spec_bottom_top_points() as int);
            if spec_in_box(p, west_east, bottom_top, south_north) {
                update.ensures((p.0 as usize, p.1 as usize, p.2 as usize, old(output)@[i]), final(output)@[i])
            } else {
                final(output)@[i] == old(output)@[i]
            }
        },
{
    let ghost w = shape.spec_west_east_points() as int;
    let ghost b = shape.spec_bottom_top_points() as int;
    let ghost s = shape.spec_south_north_points() as int;
    let ghost initial = output@;
    proof {
        use_type_invariant(&shape);
    }
    let mut south_north_index = south_north.start;
    while south_north_index < south_north.end
        invariant
            w == shape.spec_west_east_points(),
            b == shape.spec_bottom_top_points(),
            s == shape.spec_south_north_points(),
            shape.wf(),
            initial.len() == shape.spec_point_count(),
            output@.len() == initial.len(),
            spec_box_in_shape(shape, west_east, bottom_top, south_north),
            south_north.start <= south_north_index,
            south_north_index <= south_north.end || south_north.start >= south_north.end,
            forall|a: usize, bb: usize, c: usize|
                spec_in_box((a as int, bb as int, c as int), west_east, bottom_top, south_north)
                    ==> #[trigger] update.requires((a, bb, c, initial[spec_linear_index(a as int, bb as int, c as int, w, b)])),
            forall|i: int| 0 <= i < output@.len() ==> {
                let p = #[trigger] spec_decode(i, w, b);
                if spec_in_box(p, west_east, bottom_top, south_north)
                    && spec_before(p, west_east.start as int, bottom_top.start as int, south_north_index as int) {
                    update.ensures((p.0 as usize, p.1 as usize, p.2 as usize, initial[i]), output@[i])
                } else {
                    output@[i] == initial[i]
                }
            },
        decreases south_north.end - south_north_index,
    {
        let mut bottom_top_index = bottom_top.start;
        while bottom_top_index < bottom_top.end
            invariant
                w == shape.spec_west_east_points(),
                b == shape.spec_bottom_top_points(),
                s == shape.spec_south_north_points(),
                shape.wf(),
                initial.len() == shape.spec_point_count(),
                output@.len() == initial.len(),
                spec_box_in_shape(shape, west_east, bottom_top, south_north),
                south_north.start <= south_north_index < south_north.end,
                bottom_top.start <= bottom_top_index,
                bottom_top_index <= bottom_top.end || bottom_top.start >= bottom_top.end,
                forall|a: usize, bb: usize, c: usize|
                    spec_in_box((a as int, bb as int, c as int), west_east, bottom_top, south_north)
                        ==> #[trigger] update.requires((a, bb, c, initial[spec_linear_index(a as int, bb as int, c as int, w, b)])),
                forall|i: int| 0 <= i < output@.len() ==> {
                    let p = #[trigger] spec_decode(i, w, b);
                    if spec_in_box(p, west_east, bottom_top, south_north)
                        && spec_before(p, west_east.start as int, bottom_top_index as int, south_north_index as int) {
                        update.ensures((p.0 as usize, p.1 as usize, p.2 as usize, initial[i]), output@[i])
                    } else {
                        output@[i] == initial[i]
                    }
                },
            decreases bottom_top.end - bottom_top_index,
        {
            let mut west_east_index = west_east.start;
            while west_east_index < west_east.end
                invariant
                    w == shape.spec_west_east_points(),
                    b == shape.spec_bottom_top_points(),
                    s == shape.spec_south_north_points(),
                    shape.wf(),
                    initial.len() == shape.spec_point_count(),
                    output@.len() == initial.len(),
                    spec_box_in_shape(shape, west_east, bottom_top, south_north),
                    south_north.start <= south_north_index < south_north.end,
                    bottom_top.start <= bottom_top_index < bottom_top.end,
                    west_east.start <= west_east_index,
                    west_east_index <= west_east.end || west_east.start >= west_east.end,
                    forall|a: usize, bb: usize, c: usize|
                        spec_in_box((a as int, bb as int, c as int), west_east, bottom_top, south_north)
                            ==> #[trigger] update.requires((a, bb, c, initial[spec_linear_index(a as int, bb as int, c as int, w, b)])),
                    forall|i: int| 0 <= i < output@.len() ==> {
                        let p = #[trigger] spec_decode(i, w, b);
                        if spec_in_box(p, west_east, bottom_top, south_north)
                            && spec_before(p, west_east_index as int, bottom_top_index as int, south_north_index as int) {
                            update.ensures((p.0 as usize, p.1 as usize, p.2 as usize, initial[i]), output@[i])
                        } else {
                            output@[i] == initial[i]
                        }
                    },
                decreases west_east.end - west_east_index,
            {
                let index = shape.linear_index(west_east_index, bottom_top_index, south_north_index);
                assert(spec_in_box(
                    (west_east_index as int, bottom_top_index as int, south_north_index as int),
                    west_east, bottom_top, south_north,
                ));
                let current = output[index];
                assert(current == initial[index as int]) by {
                    lemma_encode_then_decode(
                        west_east_index as int, bottom_top_index as int, south_north_index as int, w, b);
                }
                let new_value = update(west_east_index, bottom_top_index, south_north_index, current);
                let ghost before = output@;
                output[index] = new_value;
                proof {
                    lemma_encode_then_decode(
                        west_east_index as int, bottom_top_index as int, south_north_index as int, w, b);
                    assert forall|i: int| 0 <= i < output@.len() implies {
                        let p = #[trigger] spec_decode(i, w, b);
                        if spec_in_box(p, west_east, bottom_top, south_north)
                            && spec_before(p, west_east_index + 1, bottom_top_index as int, south_north_index as int) {
                            update.ensures((p.0 as usize, p.1 as usize, p.2 as usize, initial[i]), output@[i])
                        } else {
                            output@[i] == initial[i]
                        }
                    } by {
                        let p = spec_decode(i, w, b);
                        if i != index {
                            lemma_decode_then_encode(i, w, b, s);
                            assert(p != (west_east_index as int, bottom_top_index as int, south_north_index as int));
                            assert(output@[i] == before[i]);
                        }
                    }
                }
                west_east_index = west_east_index + 1;
            }
            bottom_top_index = bottom_top_index + 1;
        }
        south_north_index = south_north_index + 1;
    }
}

/// Stores `value(i)` at every offset `i` of the active box; every other point
/// keeps its value.
pub fn fill_box<T: Copy, F: Fn(usize) -> T>(
    shape: GridShape,
    output: &mut Vec<T>,
    west_east: Range<usize>,
    bottom_top: Range<usize>,
    south_north: Range<usize>,
    value: F,
)
    requires
        old(output)@.len() == shape.spec_point_count(),
        spec_box_in_shape(shape, west_east, bottom_top, south_north),
        forall|index: usize| index < shape.spec_point_count() ==> #[trigger] value.requires((index,)),
    ensures
        final(output)@.len() == old(output)@.len(),
        forall|i: int| 0 <= i < final(output)@.len() ==> {
            let p = #[trigger] spec_decode(i, shape.spec_west_east_points() as int, shape.spec_bottom_top_points() as int);
            if spec_in_box(p, west_east, bottom_top, south_north) {
                value.ensures((i as usize,), final(output)@[i])
            } else {
                final(output)@[i] == old(output)@[i]
            }
        },
{
    let value_ref = &value;
    let count = Ghost(shape.spec_point_count());
    let step = |west_east_index: usize, bottom_top_index: usize, south_north_index: usize, current: T| -> (r: T)
        requires
            west_east_index < shape.spec_west_east_points(),
            bottom_top_index < shape.spec_bottom_top_points(),
            south_north_index < shape.spec_south_north_points(),
            forall|index: usize| index < count@ ==> #[trigger] value_ref.requires((index,)),
            count@ == shape.spec_point_count(),
        ensures
            value_ref.ensures(
                (spec_linear_index(
                    west_east_index as int,
                    bottom_top_index as int,
                    south_north_index as int,
                    shape.spec_west_east_points() as int,
                    shape.spec_bottom_top_points() as int,
                ) as usize,),
                r,
            ),
    {
        value_ref(shape.linear_index(west_east_index, bottom_top_index, south_north_index))
    };
    let ghost initial = output@;
    update_box(shape, output, west_east, bottom_top, south_north, step);
    proof {
        use_type_invariant(&shape);
        let w = shape.spec_west_east_points() as int;
        let b = shape.spec_bottom_top_points() as int;
        assert forall|i: int| 0 <= i < output@.len() implies {
            let p = #[trigger] spec_decode(i, w, b);
            if spec_in_box(p, west_east, bottom_top, south_north) {
                value.ensures((i as usize,), output@[i])
            } else {
                output@[i] == initial[i]
            }
        } by {
            lemma_decode_then_encode(i, w, b, shape.spec_south_north_points() as int);
        }
    }
}

/// Replaces the value `v` stored at every offset `i` of the active box by
/// `update(i, v)`; every other point keeps its value.
pub fn update_box_at_offsets<T: Copy, F: Fn(usize, T) -> T>(
    shape: GridShape,
    output: &mut Vec<T>,
    west_east: Range<usize>,
    bottom_top: Range<usize>,
    south_north: Range<usize>,
    update: F,
)
    requires
        old(output)@.len() == shape.spec_point_count(),
        spec_box_in_shape(shape, west_east, bottom_top, south_north),
        forall|index: usize, v: T| index < shape.spec_point_count() ==> #[trigger] update.requires((index, v)),
    ensures
        final(output)@.len() == old(output)@.len(),
        forall|i: int| 0 <= i < final(output)@.len() ==> {
            let p = #[trigger] spec_decode(i, shape.spec_west_east_points() as int, shape.spec_bottom_top_points() as int);
            if spec_in_box(p, west_east, bottom_top, south_north) {
                update.ensures((i as usize, old(output)@[i]), final(output)@[i])
            } else {
                final(output)@[i] == old(output)@[i]
            }
        },
{
    let update_ref = &update;
    let count = Ghost(shape.spec_point_count());
    let step = |west_east_index: usize, bottom_top_index: usize, south_north_index: usize, current: T| -> (r: T)
        requires
            west_east_index < shape.spec_west_east_points(),
            bottom_top_index < shape.spec_bottom_top_points(),
            south_north_index < shape.spec_south_north_points(),
            forall|index: usize, v: T| index < count@ ==> #[trigger] update_ref.requires((index, v)),
            count@ == shape.spec_point_count(),
        ensures
            update_ref.ensures(
                (spec_linear_index(
                    west_east_index as int,
                    bottom_top_index as int,
                    south_north_index as int,
                    shape.spec_west_east_points() as int,
                    shape.spec_bottom_top_points() as int,
                ) as usize, current),
                r,
            ),
    {
        update_ref(shape.linear_index(west_east_index, bottom_top_index, south_north_index), current)
    };
    let ghost initial = output@;
    update_box(shape, output, west_east, bottom_top, south_north, step);
    proof {
        use_type_invariant(&shape);
        let w = shape.spec_west_east_points() as int;
        let b = shape.spec_bottom_top_points() as int;
        assert forall|i: int| 0 <= i < output@.len() implies {
            let p = #[trigger] spec_decode(i, w, b);
            if spec_in_box(p, west_east, bottom_top, south_north) {
                update.ensures((i as usize, initial[i]), output@[i])
            } else {
                output@[i] == initial[i]
            }
        } by {
            lemma_decode_then_encode(i, w, b, shape.spec_south_north_points() as int);
        }
    }
}

/// The arguments handed to a pair update at point `(west_east, bottom_top,
/// south_north)`: the point's offset, its single-level column offset, its
/// level, and the two current values.
pub open spec fn spec_pair_arguments<T>(
    shape: GridShape,
    west_east_index: usize,
    bottom_top_index: usize,
    south_north_index: usize,
    first: Seq<T>,
    second: Seq<T>,
) -> (usize, usize, usize, T, T) {
    let w = shape.spec_west_east_points() as int;
    let b = shape.spec_bottom_top_points() as int;
    let index = spec_linear_index(west_east_index as int, bottom_top_index as int, south_north_index as int, w, b);
    (
        index as usize,
        (south_north_index * w + west_east_index) as usize,
        bottom_top_index,
        first[index],
        second[index],
    )
}

/// Updates two fields of the same shape together: at every point of the
/// active box, stored at offset `index`, with horizontal offset
/// `horizontal` (the same column of a single-level field) and level
/// `bottom_top`, the values `(u, v)` become `update(index, horizontal,
/// bottom_top, u, v)`; every other point of both fields keeps its value.
pub fn update_box_pairs<T: Copy, F>(
    shape: GridShape,
    first: &mut Vec<T>,
    second: &mut Vec<T>,
    west_east: Range<usize>,
    bottom_top: Range<usize>,
    south_north: Range<usize>,
    update: F,
)
    where
        F: Fn(usize, usize, usize, T, T) -> (T, T),
    requires
        old(first)@.len() == shape.spec_point_count(),
        old(second)@.len() == shape.spec_point_count(),
        spec_box_in_shape(shape, west_east, bottom_top, south_north),
        forall|a: usize, b: usize, c: usize|
            spec_in_box((a as int, b as int, c as int), west_east, bottom_top, south_north)
                ==> #[trigger] update.requires(spec_pair_arguments(shape, a, b, c, old(first)@, old(second)@)),
    ensures
        final(first)@.len() == old(first)@.len(),
        final(second)@.len() == old(second)@.len(),
        forall|i: int| 0 <= i < final(first)@.len() ==> {
            let p = #[trigger] spec_decode(i, shape.spec_west_east_points() as int, shape.spec_bottom_top_points() as int);
            if spec_in_box(p, west_east, bottom_top, south_north) {
                update.ensures(
                    spec_pair_arguments(shape, p.0 as usize, p.1 as usize, p.2 as usize, old(first)@, old(second)@),
                    (final(first)@[i], final(second)@[i]),
                )
            } else {
                &&& final(first)@[i] == old(first)@[i]
                &&& final(second)@[i] == old(second)@[i]
            }
        },
{
    let ghost w = shape.spec_west_east_points() as int;
    let ghost b = shape.spec_bottom_top_points() as int;
    let ghost s = shape.spec_south_north_points() as int;
    let ghost initial_first = first@;
    let ghost initial_second = second@;
    proof {
        use_type_invariant(&shape);
    }
    let mut south_north_index = south_north.start;
    while south_north_index < south_north.end
        invariant
            w == shape.spec_west_east_points(),
            b == shape.spec_bottom_top_points(),
            s == shape.spec_south_north_points(),
            shape.wf(),
            initial_first.len() == shape.spec_point_count(),
            initial_second.len() == shape.spec_point_count(),
            first@.len() == initial_first.len(),
            second@.len() == initial_second.len(),
            spec_box_in_shape(shape, west_east, bottom_top, south_north),
            south_north.start <= south_north_index,
            south_north_index <= south_north.end || south_north.start >= south_north.end,
            forall|a: usize, bb: usize, c: usize|
                spec_in_box((a as int, bb as int, c as int), west_east, bottom_top, south_north)
                    ==> #[trigger] update.requires(spec_pair_arguments(shape, a, bb, c, initial_first, initial_second)),
            forall|i: int| 0 <= i < first@.len() ==> {
                let p = #[trigger] spec_decode(i, w, b);
                if spec_in_box(p, west_east, bottom_top, south_north)
                    && spec_before(p, west_east.start as int, bottom_top.start as int, south_north_index as int) {
                    update.ensures(
                        spec_pair_arguments(shape, p.0 as usize, p.1 as usize, p.2 as usize, initial_first, initial_second),
                        (first@[i], second@[i]),
                    )
                } else {
                    first@[i] == initial_first[i] && second@[i] == initial_second[i]
                }
            },
        decreases south_north.end - south_north_index,
    {
        let mut bottom_top_index = bottom_top.start;
        while bottom_top_index < bottom_top.end
            invariant
                w == shape.spec_west_east_points(),
                b == shape.spec_bottom_top_points(),
                s == shape.spec_south_north_points(),
                shape.wf(),
                initial_first.len() == shape.spec_point_count(),
                initial_second.len() == shape.spec_point_count(),
                first@.len() == initial_first.len(),
                second@.len() == initial_second.len(),
                spec_box_in_shape(shape, west_east, bottom_top, south_north),
                south_north.start <= south_north_index < south_north.end,
                bottom_top.start <= bottom_top_index,
                bottom_top_index <= bottom_top.end || bottom_top.start >= bottom_top.end,
                forall|a: usize, bb: usize, c: usize|
                    spec_in_box((a as int, bb as int, c as int), west_east, bottom_top, south_north)
                        ==> #[trigger] update.requires(spec_pair_arguments(shape, a, bb, c, initial_first, initial_second)),
                forall|i: int| 0 <= i < first@.len() ==> {
                    let p = #[trigger] spec_decode(i, w, b);
                    if spec_in_box(p, west_east, bottom_top, south_north)
                        && spec_before(p, west_east.start as int, bottom_top_index as int, south_north_index as int) {
                        update.ensures(
                        spec_pair_arguments(shape, p.0 as usize, p.1 as usize, p.2 as usize, initial_first, initial_second),
                        (first@[i], second@[i]),
                    )
                    } else {
                        first@[i] == initial_first[i] && second@[i] == initial_second[i]
                    }
                },
            decreases bottom_top.end - bottom_top_index,
        {
            let mut west_east_index = west_east.start;
            while west_east_index < west_east.end
                invariant
                    w == shape.spec_west_east_points(),
                    b == shape.spec_bottom_top_points(),
                    s == shape.spec_south_north_points(),
                    shape.wf(),
                    initial_first.len() == shape.spec_point_count(),
                    initial_second.len() == shape.spec_point_count(),
                    first@.len() == initial_first.len(),
                    second@.len() == initial_second.len(),
                    spec_box_in_shape(shape, west_east, bottom_top, south_north),
                    south_north.start <= south_north_index < south_north.end,
                    bottom_top.start <= bottom_top_index < bottom_top.end,
                    west_east.start <= west_east_index,
                    west_east_index <= west_east.end || west_east.start >= west_east.end,
                    forall|a: usize, bb: usize, c: usize|
                        spec_in_box((a as int, bb as int, c as int), west_east, bottom_top, south_north)
                            ==> #[trigger] update.requires(spec_pair_arguments(shape, a, bb, c, initial_first, initial_second)),
                    forall|i: int| 0 <= i < first@.len() ==> {
                        let p = #[trigger] spec_decode(i, w, b);
                        if spec_in_box(p, west_east, bottom_top, south_north)
                            && spec_before(p, west_east_index as int, bottom_top_index as int, south_north_index as int) {
                            update.ensures(
                        spec_pair_arguments(shape, p.0 as usize, p.1 as usize, p.2 as usize, initial_first, initial_second),
                        (first@[i], second@[i]),
                    )
                        } else {
                            first@[i] == initial_first[i] && second@[i] == initial_second[i]
                        }
                    },
                decreases west_east.end - west_east_index,
            {
                let index = shape.linear_index(west_east_index, bottom_top_index, south_north_index);
                assert(spec_in_box(
                    (west_east_index as int, bottom_top_index as int, south_north_index as int),
                    west_east, bottom_top, south_north,
                ));
                let horizontal = shape.horizontal_shape().linear_index(west_east_index, 0, south_north_index);
                let current_first = first[index];
                let current_second = second[index];
                assert(current_first == initial_first[index as int] && current_second == initial_second[index as int]) by {
                    lemma_encode_then_decode(
                        west_east_index as int, bottom_top_index as int, south_north_index as int, w, b);
                }
                proof {
                    lemma_planar_index(west_east_index as int, south_north_index as int, w);
                }
                assert(update.requires(spec_pair_arguments(
                    shape, west_east_index, bottom_top_index, south_north_index, initial_first, initial_second)));
                assert(spec_pair_arguments(shape, west_east_index, bottom_top_index, south_north_index, initial_first, initial_second)
                    == (index, horizontal, bottom_top_index, current_first, current_second));
                let (new_first, new_second) = update(index, horizontal, bottom_top_index, current_first, current_second);
                let ghost before_first = first@;
                let ghost before_second = second@;
                first[index] = new_first;
                second[index] = new_second;
                proof {
                    lemma_encode_then_decode(
                        west_east_index as int, bottom_top_index as int, south_north_index as int, w, b);
                    assert forall|i: int| 0 <= i < first@.len() implies {
                        let p = #[trigger] spec_decode(i, w, b);
                        if spec_in_box(p, west_east, bottom_top, south_north)
                            && spec_before(p, west_east_index + 1, bottom_top_index as int, south_north_index as int) {
                            update.ensures(
                        spec_pair_arguments(shape, p.0 as usize, p.1 as usize, p.2 as usize, initial_first, initial_second),
                        (first@[i], second@[i]),
                    )
                        } else {
                            first@[i] == initial_first[i] && second@[i] == initial_second[i]
                        }
                    } by {
                        let p = spec_decode(i, w, b);
                        if i != index {
                            lemma_decode_then_encode(i, w, b, s);
                            assert(p != (west_east_index as int, bottom_top_index as int, south_north_index as int));
                            assert(first@[i] == before_first[i] && second@[i] == before_second[i]);
                        }
                    }
                }
                west_east_index = west_east_index + 1;
            }
            bottom_top_index = bottom_top_index + 1;
        }
        south_north_index = south_north_index + 1;
    }
}

} // verus!
