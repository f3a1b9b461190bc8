//! The integer side of geometry reconstruction: coordinate-array parity,
//! slicing a flat coordinate array into rings, and grouping rings into
//! polygons by their winding order.
//!
//! Coordinates are interleaved `x, y` scalars, so a ring of `k` points takes
//! `2 * k` consecutive entries.
use vstd::prelude::*;

verus! {

/// Why a coordinate array cannot be turned into geometry.
#[derive(PartialEq, Eq, Structural, Clone, Copy, Debug)]
pub enum GeometryError {
    /// The array has an odd number of scalars, so its last `x` has no `y`.
    OddLength,
    /// A ring has fewer than three points.
    TooFewPoints,
    /// The ring sizes ask for more coordinates than the array holds.
    SliceOutOfBounds,
}

impl GeometryError {
    pub open spec fn spec_message(&self) -> Seq<char> {
        match self {
            GeometryError::OddLength => "Coordinates array must have even length"@,
            GeometryError::TooFewPoints => "Ring must have at least 3 points"@,
            GeometryError::SliceOutOfBounds => "Ring sizes exceed coordinates array length"@,
        }
    }

    /// A readable description of the error.
    pub fn message(&self) -> (r: &'static str)
        ensures
            r@ == self.spec_message(),
    {
        match self {
            GeometryError::OddLength => "Coordinates array must have even length",
            GeometryError::TooFewPoints => "Ring must have at least 3 points",
            GeometryError::SliceOutOfBounds => "Ring sizes exceed coordinates array length",
        }
    }
}

/// Number of points in an interleaved array of `coord_count` scalars.
pub open spec fn pair_count_spec(coord_count: int) -> Result<int, GeometryError> {
    if coord_count % 2 != 0 {
        Err(GeometryError::OddLength)
    } else {
        Ok(coord_count / 2)
    }
}

/// Number of points in an interleaved coordinate array of `coord_count` scalars;
/// an odd count is refused rather than truncated.
pub fn pair_count(coord_count: usize) -> (r: Result<usize, GeometryError>)
    ensures
        r is Ok <==> pair_count_spec(coord_count as int) is Ok,
        r matches Ok(n) ==> pair_count_spec(coord_count as int) == Ok::<int, GeometryError>(n as int),
        r matches Err(e) ==> pair_count_spec(coord_count as int) == Err::<int, GeometryError>(e),
{
    if coord_count % 2 != 0 {
        return Err(GeometryError::OddLength);
    }
    Ok(coord_count / 2)
}

/// Number of points of a ring given as `coord_count` interleaved scalars: at
/// least three points are needed to tell its orientation.
pub fn ring_point_count(coord_count: usize) -> (r: Result<usize, GeometryError>)
    ensures
        coord_count < 6 ==> r == Err::<usize, GeometryError>(GeometryError::TooFewPoints),
        coord_count >= 6 && coord_count % 2 != 0 ==> r == Err::<usize, GeometryError>(
            GeometryError::OddLength,
        ),
        coord_count >= 6 && coord_count % 2 == 0 ==> r == Ok::<usize, GeometryError>(
            coord_count / 2,
        ),
{
    if coord_count < 6 {
        return Err(GeometryError::TooFewPoints);
    }
    pair_count(coord_count)
}

/// Total number of points over a sequence of ring sizes.
pub open spec fn sizes_sum(sizes: Seq<usize>) -> int
    decreases sizes.len(),
{
    if sizes.len() == 0 {
        0
    } else {
        sizes_sum(sizes.drop_last()) + sizes.last()
    }
}

/// Index of the first scalar of ring `i`: the rings before it, two scalars per point.
pub open spec fn ring_start(sizes: Seq<usize>, i: int) -> int {
    2 * sizes_sum(sizes.take(i))
}

/// What slicing `coord_count` scalars into rings of the given point counts
/// yields: the half-open scalar range of each ring, in order, or the reason it
/// cannot be done.
pub open spec fn ring_slices_spec(coord_count: int, sizes: Seq<usize>) -> Result<
    Seq<(usize, usize)>,
    GeometryError,
> {
    if coord_count % 2 != 0 {
        Err(GeometryError::OddLength)
    } else if 2 * sizes_sum(sizes) > coord_count {
        Err(GeometryError::SliceOutOfBounds)
    } else if exists|i: int| 0 <= i < sizes.len() && sizes[i] < 3 {
        Err(GeometryError::TooFewPoints)
    } else {
        Ok(
            Seq::new(
                sizes.len(),
                |i: int| (ring_start(sizes, i) as usize, ring_start(sizes, i + 1) as usize),
            ),
        )
    }
}

proof fn lemma_sizes_sum_take_step(sizes: Seq<usize>, i: int)
    requires
        0 <= i < sizes.len(),
    ensures
        sizes_sum(sizes.take(i + 1)) == sizes_sum(sizes.take(i)) + sizes[i],
{
    assert(sizes.take(i + 1).drop_last() =~= sizes.take(i));
}

proof fn lemma_sizes_sum_monotone(sizes: Seq<usize>, i: int, j: int)
    requires
        0 <= i <= j <= sizes.len(),
    ensures
        sizes_sum(sizes.take(i)) <= sizes_sum(sizes.take(j)),
    decreases j - i,
{
    if i < j {
        lemma_sizes_sum_take_step(sizes, j - 1);
        lemma_sizes_sum_monotone(sizes, i, j - 1);
    }
}

/// Cuts a flat array of `coord_count` scalars into consecutive rings of the
/// given point counts, returning each ring's scalar range.
pub fn slice_rings(coord_count: usize, ring_sizes: &Vec<usize>) -> (r: Result<
    Vec<(usize, usize)>,
    GeometryError,
>)
    ensures
        ring_slices_spec(coord_count as int, ring_sizes@) matches Err(e) ==> r == Err::<
            Vec<(usize, usize)>,
            GeometryError,
        >(e),
        ring_slices_spec(coord_count as int, ring_sizes@) matches Ok(s) ==> r matches Ok(v)
            && v@ == s,
{
    if coord_count % 2 != 0 {
        return Err(GeometryError::OddLength);
    }
    let ghost sizes = ring_sizes@;
    let mut ranges: Vec<(usize, usize)> = Vec::new();
    let mut offset: usize = 0;
    let mut short = false;
    let mut i: usize = 0;
    while i < ring_sizes.len()
        invariant
            i <= sizes.len(),
            sizes == ring_sizes@,
            coord_count % 2 == 0,
            offset as int == ring_start(sizes, i as int),
            offset <= coord_count,
            short <==> exists|j: int| 0 <= j < i && sizes[j] < 3,
            ranges@ =~= Seq::new(
                i as nat,
                |j: int| (ring_start(sizes, j) as usize, ring_start(sizes, j + 1) as usize),
            ),
        decreases sizes.len() - i,
    {
        let size = ring_sizes[i];
        proof {
            lemma_sizes_sum_take_step(sizes, i as int);
        }
        if size > (coord_count - offset) / 2 {
            proof {
                lemma_sizes_sum_monotone(sizes, i as int + 1, sizes.len() as int);
                assert(sizes.take(sizes.len() as int) =~= sizes);
            }
            return Err(GeometryError::SliceOutOfBounds);
        }
        let end = offset + 2 * size;
        ranges.push((offset, end));
        if size < 3 {
            short = true;
        }
        offset = end;
        i = i + 1;
    }
    assert(sizes.take(sizes.len() as int) =~= sizes);
    if short {
        return Err(GeometryError::TooFewPoints);
    }
    Ok(ranges)
}

/// The rings that open a polygon: the first ring, and every clockwise ring.
/// Each polygon runs from its opening ring up to the next opening ring; the
/// counter-clockwise rings in between are its holes.
pub open spec fn opens_polygon(clockwise: Seq<bool>, i: int) -> bool {
    i == 0 || clockwise[i]
}

/// Groups rings into polygons by winding order. Each polygon is returned as
/// the half-open range of ring indices it covers: its opening ring, then the
/// counter-clockwise rings that follow it, which are its holes.
pub fn group_rings(clockwise: &Vec<bool>) -> (r: Vec<(usize, usize)>)
    ensures
        clockwise.len() == 0 <==> r.len() == 0,
        r.len() > 0 ==> r[0].0 == 0 && r[r.len() - 1].1 == clockwise.len(),
        forall|k: int| 0 <= k < r.len() ==> r[k].0 < r[k].1 && opens_polygon(clockwise@, r[k].0 as int),
        forall|k: int| 0 <= k < r.len() - 1 ==> r[k].1 == r[k + 1].0,
        forall|k: int, i: int|
            #![trigger r[k], opens_polygon(clockwise@, i)]
            0 <= k < r.len() && r[k].0 < i < r[k].1 ==> !opens_polygon(clockwise@, i),
{
    let mut groups: Vec<(usize, usize)> = Vec::new();
    let n = clockwise.len();
    if n == 0 {
        return groups;
    }
    let mut start: usize = 0;
    let mut i: usize = 1;
    while i < n
        invariant
            n == clockwise.len(),
            start < i <= n,
            opens_polygon(clockwise@, start as int),
            forall|j: int| start < j < i ==> !opens_polygon(clockwise@, j),
            groups.len() == 0 ==> start == 0,
            groups.len() > 0 ==> groups[0].0 == 0 && groups[groups.len() - 1].1 == start,
            forall|k: int|
                0 <= k < groups.len() ==> groups[k].0 < groups[k].1 && opens_polygon(
                    clockwise@,
                    groups[k].0 as int,
                ),
            forall|k: int| 0 <= k < groups.len() - 1 ==> groups[k].1 == groups[k + 1].0,
            forall|k: int, j: int|
                #![trigger groups[k], opens_polygon(clockwise@, j)]
                0 <= k < groups.len() && groups[k].0 < j < groups[k].1 ==> !opens_polygon(
                    clockwise@,
                    j,
                ),
        decreases n - i,
    {
        if clockwise[i] {
            groups.push((start, i));
            start = i;
        }
        i = i + 1;
    }
    groups.push((start, n));
    groups
}

/// An array of odd length is refused by every conversion that reads it as points
/// or as rings, whatever the ring sizes.
pub proof fn lemma_odd_length_refused(coord_count: int, ring_sizes: Seq<usize>)
    requires
        coord_count % 2 != 0,
    ensures
        pair_count_spec(coord_count) == Err::<int, GeometryError>(GeometryError::OddLength),
        ring_slices_spec(coord_count, ring_sizes) == Err::<Seq<(usize, usize)>, GeometryError>(
            GeometryError::OddLength,
        ),
{
}

} // verus!
