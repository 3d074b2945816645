use vstd::prelude::*;

use crate::text::{push_decimal, spec_decimal};

verus! {

/// Reason why a grid shape was refused.
#[derive(Clone, Copy, Debug, PartialEq, Eq)]
pub enum GridShapeError {
    /// One of the three extents is zero.
    ZeroExtent,
    /// The number of points does not fit in `usize`.
    PointCountOverflow,
}

/// Extents of a contiguous field stored with west-east varying fastest,
/// then bottom-top, then south-north (WRF's `(i, k, j)` memory order).
#[derive(Clone, Copy, Debug, PartialEq, Eq, Structural)]
pub struct GridShape {
    west_east_points: usize,
    south_north_points: usize,
    bottom_top_points: usize,
}

/// Offset of point `(west_east, bottom_top, south_north)` in a field whose
/// rows hold `west_east_points` values and whose slabs hold
/// `bottom_top_points` rows.
pub open spec fn spec_linear_index(
    west_east_index: int,
    bottom_top_index: int,
    south_north_index: int,
    west_east_points: int,
    bottom_top_points: int,
) -> int {
    (south_north_index * bottom_top_points + bottom_top_index) * west_east_points + west_east_index
}

impl GridShape {
    pub closed spec fn spec_west_east_points(&self) -> usize {
        self.west_east_points
    }

    pub closed spec fn spec_south_north_points(&self) -> usize {
        self.south_north_points
    }

    pub closed spec fn spec_bottom_top_points(&self) -> usize {
        self.bottom_top_points
    }

    /// Total number of points.
    pub open spec fn spec_point_count(self) -> nat {
        (self.spec_west_east_points() * self.spec_bottom_top_points() * self.spec_south_north_points()) as nat
    }

    /// A shape is well formed when no extent is zero and its point count fits.
    #[verifier::type_invariant]
    pub open spec fn wf(self) -> bool {
        &&& self.spec_west_east_points() > 0
        &&& self.spec_south_north_points() > 0
        &&& self.spec_bottom_top_points() > 0
        &&& self.spec_point_count() <= usize::MAX
    }

    /// Validates the three memory extents.
    pub fn try_new(west_east_points: usize, south_north_points: usize, bottom_top_points: usize) -> (r: Result<GridShape, GridShapeError>)
        ensures
            match r {
                Ok(s) => {
                    &&& s.spec_west_east_points() == west_east_points
                    &&& s.spec_south_north_points() == south_north_points
                    &&& s.spec_bottom_top_points() == bottom_top_points
                    &&& s.wf()
                },
                Err(GridShapeError::ZeroExtent) => west_east_points == 0 || south_north_points == 0 || bottom_top_points == 0,
                Err(GridShapeError::PointCountOverflow) => {
                    &&& west_east_points > 0
                    &&& south_north_points > 0
                    &&& bottom_top_points > 0
                    &&& west_east_points * bottom_top_points * south_north_points > usize::MAX
                },
            },
    {
        if west_east_points == 0 || south_north_points == 0 || bottom_top_points == 0 {
            return Err(GridShapeError::ZeroExtent);
        }
        match west_east_points.checked_mul(bottom_top_points) {
            None => {
                assert(west_east_points * bottom_top_points * south_north_points >= west_east_points * bottom_top_points) by (nonlinear_arith)
                    requires south_north_points > 0;
                Err(GridShapeError::PointCountOverflow)
            },
            Some(plane) => match plane.checked_mul(south_north_points) {
                None => Err(GridShapeError::PointCountOverflow),
                Some(_) => Ok(GridShape { west_east_points, south_north_points, bottom_top_points }),
            },
        }
    }

    /// Number of points along the west-east axis.
    #[verifier::when_used_as_spec(spec_west_east_points)]
    pub fn west_east_points(&self) -> (r: usize)
        ensures r == self.spec_west_east_points(),
    {
        self.west_east_points
    }

    /// Number of points along the south-north axis.
    #[verifier::when_used_as_spec(spec_south_north_points)]
    pub fn south_north_points(&self) -> (r: usize)
        ensures r == self.spec_south_north_points(),
    {
        self.south_north_points
    }

    /// Number of points along the bottom-top axis.
    #[verifier::when_used_as_spec(spec_bottom_top_points)]
    pub fn bottom_top_points(&self) -> (r: usize)
        ensures r == self.spec_bottom_top_points(),
    {
        self.bottom_top_points
    }

    /// The single-level shape with the same horizontal extents.
    pub closed spec fn spec_horizontal_shape(self) -> GridShape {
        GridShape { west_east_points: self.west_east_points, south_north_points: self.south_north_points, bottom_top_points: 1 }
    }

    /// The single-level shape with the same horizontal extents.
    pub fn horizontal_shape(&self) -> (r: GridShape)
        ensures
            r == self.spec_horizontal_shape(),
            r.spec_west_east_points() == self.spec_west_east_points(),
            r.spec_south_north_points() == self.spec_south_north_points(),
            r.spec_bottom_top_points() == 1,
            r.wf(),
    {
        proof {
            use_type_invariant(self);
            lemma_mul_le_factor(self.west_east_points as int, self.bottom_top_points as int, self.south_north_points as int);
        }
        GridShape { west_east_points: self.west_east_points, south_north_points: self.south_north_points, bottom_top_points: 1 }
    }

    /// Memory offset of an in-range point of a field with this shape.
    pub fn linear_index(&self, west_east_index: usize, bottom_top_index: usize, south_north_index: usize) -> (r: usize)
        requires
            west_east_index < self.spec_west_east_points(),
            bottom_top_index < self.spec_bottom_top_points(),
            south_north_index < self.spec_south_north_points(),
        ensures
            r == spec_linear_index(
                west_east_index as int,
                bottom_top_index as int,
                south_north_index as int,
                self.spec_west_east_points() as int,
                self.spec_bottom_top_points() as int,
            ),
            r < self.spec_point_count(),
    {
        proof {
            use_type_invariant(self);
            lemma_linear_index_in_bounds(
                west_east_index as int,
                bottom_top_index as int,
                south_north_index as int,
                self.west_east_points as int,
                self.bottom_top_points as int,
                self.south_north_points as int,
            );
            let line = south_north_index * self.bottom_top_points + bottom_top_index;
            assert(line < self.south_north_points * self.bottom_top_points
                && self.south_north_points * self.bottom_top_points <= self.west_east_points * self.bottom_top_points * self.south_north_points
                && line * self.west_east_points <= line * self.west_east_points + west_east_index)
                by (nonlinear_arith)
                requires
                    line == south_north_index * self.bottom_top_points + bottom_top_index,
                    bottom_top_index < self.bottom_top_points,
                    south_north_index < self.south_north_points,
                    self.west_east_points >= 1;
        }
        (south_north_index * self.bottom_top_points + bottom_top_index) * self.west_east_points + west_east_index
    }

    /// Total number of points stored by a field of this shape.
    pub fn point_count(&self) -> (r: usize)
        ensures r == self.spec_point_count(),
    {
        proof {
            use_type_invariant(self);
            assert(self.west_east_points * self.bottom_top_points <= self.west_east_points * self.bottom_top_points * self.south_north_points)
                by (nonlinear_arith) requires self.south_north_points >= 1;
        }
        self.west_east_points * self.bottom_top_points * self.south_north_points
    }
}

/// The first failure among checks run in order, or success when all pass.
pub open spec fn spec_first_failure<E>(checks: Seq<Result<(), E>>) -> Result<(), E>
    decreases checks.len(),
{
    if checks.len() == 0 {
        Ok(())
    } else if checks[0] is Err {
        checks[0]
    } else {
        spec_first_failure(checks.drop_first())
    }
}

/// The smaller of two offsets.
pub open spec fn spec_min(a: usize, b: usize) -> usize {
    if a <= b { a } else { b }
}
/// The minimum is one of its arguments and is at most both; a range clipped
/// to an end at or past its own keeps it.
pub proof fn lemma_min_is_least(a: usize, b: usize)
    ensures
        spec_min(a, b) <= a,
        spec_min(a, b) <= b,
        spec_min(a, b) == a || spec_min(a, b) == b,
        a <= b ==> spec_min(a, b) == a,
{
}


/// The smaller of two offsets.
pub fn min_usize(a: usize, b: usize) -> (r: usize)
    ensures r == spec_min(a, b),
{
    if a <= b { a } else { b }
}

/// `a * c <= a * b * c` when `b >= 1`.
proof fn lemma_mul_le_factor(a: int, b: int, c: int)
    requires a >= 0, b >= 1, c >= 0,
    ensures a * c <= a * b * c,
{
    assert(a * c <= a * b * c) by (nonlinear_arith) requires a >= 0, b >= 1, c >= 0;
}

/// Offsets in a single-level field: the point `(west_east, south_north)`
/// lies `west_east` past the start of row `south_north`, and rows are
/// `west_east_points` apart.
pub proof fn lemma_planar_index(west_east_index: int, south_north_index: int, west_east_points: int)
    requires
        0 <= west_east_index,
        0 <= south_north_index,
        0 <= west_east_points,
    ensures
        spec_linear_index(west_east_index, 0, south_north_index, west_east_points, 1)
            == south_north_index * west_east_points + west_east_index,
        south_north_index >= 1 ==> south_north_index * west_east_points >= west_east_points,
        (south_north_index - 1) * west_east_points == south_north_index * west_east_points - west_east_points,
{
    assert(spec_linear_index(west_east_index, 0, south_north_index, west_east_points, 1)
        == south_north_index * west_east_points + west_east_index) by (nonlinear_arith);
    assert(south_north_index >= 1 ==> south_north_index * west_east_points >= west_east_points) by (nonlinear_arith)
        requires 0 <= west_east_points;
    assert((south_north_index - 1) * west_east_points == south_north_index * west_east_points - west_east_points)
        by (nonlinear_arith);
}

/// Every in-range point of a box has an offset below the box's point count.
pub proof fn lemma_linear_index_in_bounds(
    west_east_index: int,
    bottom_top_index: int,
    south_north_index: int,
    west_east_points: int,
    bottom_top_points: int,
    south_north_points: int,
)
    requires
        0 <= west_east_index < west_east_points,
        0 <= bottom_top_index < bottom_top_points,
        0 <= south_north_index < south_north_points,
    ensures
        0 <= spec_linear_index(west_east_index, bottom_top_index, south_north_index, west_east_points, bottom_top_points),
        spec_linear_index(west_east_index, bottom_top_index, south_north_index, west_east_points, bottom_top_points)
            < west_east_points * bottom_top_points * south_north_points,
{
    let line = south_north_index * bottom_top_points + bottom_top_index;
    assert(0 <= line < south_north_points * bottom_top_points) by (nonlinear_arith)
        requires
            0 <= bottom_top_index < bottom_top_points,
            0 <= south_north_index < south_north_points,
            line == south_north_index * bottom_top_points + bottom_top_index;
    assert(0 <= line * west_east_points + west_east_index < west_east_points * bottom_top_points * south_north_points) by (nonlinear_arith)
        requires
            0 <= west_east_index < west_east_points,
            0 <= line < south_north_points * bottom_top_points;
}

/// Two in-range points share an offset only when they are the same point.
pub proof fn lemma_linear_index_injective(
    i1: int, k1: int, j1: int,
    i2: int, k2: int, j2: int,
    west_east_points: int,
    bottom_top_points: int,
)
    requires
        0 <= i1 < west_east_points,
        0 <= i2 < west_east_points,
        0 <= k1 < bottom_top_points,
        0 <= k2 < bottom_top_points,
        0 <= j1,
        0 <= j2,
        spec_linear_index(i1, k1, j1, west_east_points, bottom_top_points)
            == spec_linear_index(i2, k2, j2, west_east_points, bottom_top_points),
    ensures
        i1 == i2,
        k1 == k2,
        j1 == j2,
{
    let l1 = j1 * bottom_top_points + k1;
    let l2 = j2 * bottom_top_points + k2;
    assert(l1 == l2 && i1 == i2) by (nonlinear_arith)
        requires
            0 <= i1 < west_east_points,
            0 <= i2 < west_east_points,
            l1 >= 0,
            l2 >= 0,
            l1 * west_east_points + i1 == l2 * west_east_points + i2;
    assert(j1 == j2 && k1 == k2) by (nonlinear_arith)
        requires
            0 <= k1 < bottom_top_points,
            0 <= k2 < bottom_top_points,
            j1 >= 0,
            j2 >= 0,
            j1 * bottom_top_points + k1 == j2 * bottom_top_points + k2;
}

/// Finds the first field, in the order given, whose shape is not `expected`.
pub fn first_mismatched_shape<R>(fields: &Vec<(R, GridShape)>, expected: GridShape) -> (r: Option<usize>)
    ensures
        match r {
            Some(i) => {
                &&& i < fields@.len()
                &&& fields@[i as int].1 != expected
                &&& forall|j: int| 0 <= j < i ==> fields@[j].1 == expected
            },
            None => forall|j: int| 0 <= j < fields@.len() ==> fields@[j].1 == expected,
        },
{
    let mut i: usize = 0;
    while i < fields.len()
        invariant
            i <= fields@.len(),
            forall|j: int| 0 <= j < i ==> fields@[j].1 == expected,
        decreases fields@.len() - i,
    {
        if fields[i].1 != expected {
            return Some(i);
        }
        i = i + 1;
    }
    None
}

impl GridShape {
    /// The shape as its derived `Debug` output writes it.
    pub open spec fn spec_debug_text(self) -> Seq<char> {
        "GridShape { west_east_points: "@ + spec_decimal(self.spec_west_east_points() as nat)
            + ", south_north_points: "@ + spec_decimal(self.spec_south_north_points() as nat)
            + ", bottom_top_points: "@ + spec_decimal(self.spec_bottom_top_points() as nat) + " }"@
    }

    /// The shape as its derived `Debug` output writes it.
    pub fn debug_text(&self) -> (r: String)
        ensures
            r@ == self.spec_debug_text(),
    {
        let mut text = String::new();
        text.append("GridShape { west_east_points: ");
        push_decimal(&mut text, self.west_east_points);
        text.append(", south_north_points: ");
        push_decimal(&mut text, self.south_north_points);
        text.append(", bottom_top_points: ");
        push_decimal(&mut text, self.bottom_top_points);
        text.append(" }");
        text
    }
}

} // verus!
