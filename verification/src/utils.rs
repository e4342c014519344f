use vstd::prelude::*;

use crate::figure::PlotError;

verus! {

/// A point in the raw sample plane. Coordinates are integers in the caller's
/// own fixed-point unit; the normalizer works on them exactly.
#[derive(Copy, Clone, Debug, PartialEq, Eq, Structural)]
pub struct Point2D {
    pub x: i32,
    pub y: i32,
}

impl Point2D {
    pub fn new(x: i32, y: i32) -> (p: Point2D)
        ensures
            p == (Point2D { x, y }),
    {
        Point2D { x, y }
    }
}

/// The sample values of a sequence, as mathematical integers.
pub open spec fn ints_of(s: Seq<i32>) -> Seq<int> {
    s.map_values(|v: i32| v as int)
}

/// The x components of a point sequence, as mathematical integers.
pub open spec fn xs_of(points: Seq<Point2D>) -> Seq<int> {
    points.map_values(|p: Point2D| p.x as int)
}

/// The y components of a point sequence, as mathematical integers.
pub open spec fn ys_of(points: Seq<Point2D>) -> Seq<int> {
    points.map_values(|p: Point2D| p.y as int)
}

/// Smallest and largest value of a non-empty slice of samples; the extent a
/// dynamic axis is re-fitted to on every frame. An empty slice has no extent.
pub fn calc_min_max(values: &[i32]) -> (r: Result<[i32; 2], PlotError>)
    ensures
        match r {
            Ok(mm) => values@.len() > 0 && mm[0] == ints_of(values@).min() && mm[1] == ints_of(
                values@,
            ).max(),
            Err(e) => values@.len() == 0 && e == PlotError::EmptyInput,
        },
{
    let n: usize = values.len();
    if n == 0 {
        return Err(PlotError::EmptyInput);
    }
    let ghost s: Seq<int> = ints_of(values@);
    let mut i: usize = n - 1;
    let mut mn: i32 = values[n - 1];
    let mut mx: i32 = values[n - 1];
    proof {
        assert(s.skip(i as int).len() == 1);
        assert(s.skip(i as int)[0] == s[i as int]);
    }
    while i > 0
        invariant
            0 <= i < n,
            n == values@.len(),
            s == ints_of(values@),
            mn == s.skip(i as int).min(),
            mx == s.skip(i as int).max(),
        decreases i,
    {
        i = i - 1;
        proof {
            assert(s.skip(i as int).drop_first() =~= s.skip(i as int + 1));
            assert(s.skip(i as int)[0] == s[i as int]);
            assert(s.skip(i as int).len() == n - i);
        }
        if values[i] < mn {
            mn = values[i];
        }
        if values[i] > mx {
            mx = values[i];
        }
    }
    proof {
        assert(s.skip(0) =~= s);
    }
    Ok([mn, mx])
}

/// The x extent of a point set: `extent` applied to the projected x values.
pub fn calc_xlims(points: &[Point2D]) -> (r: Result<[i32; 2], PlotError>)
    ensures
        match r {
            Ok(mm) => points@.len() > 0 && mm[0] == xs_of(points@).min() && mm[1] == xs_of(
                points@,
            ).max(),
            Err(e) => points@.len() == 0 && e == PlotError::EmptyInput,
        },
{
    let mut xs: Vec<i32> = Vec::new();
    let n: usize = points.len();
    let mut i: usize = 0;
    while i < n
        invariant
            0 <= i <= n,
            n == points@.len(),
            xs@.len() == i,
            forall|j: int| 0 <= j < i ==> xs@[j] == points@[j].x,
        decreases n - i,
    {
        xs.push(points[i].x);
        i = i + 1;
    }
    proof {
        assert(ints_of(xs@) =~= xs_of(points@));
    }
    calc_min_max(xs.as_slice())
}

/// The y extent of a point set: `extent` applied to the projected y values.
pub fn calc_ylims(points: &[Point2D]) -> (r: Result<[i32; 2], PlotError>)
    ensures
        match r {
            Ok(mm) => points@.len() > 0 && mm[0] == ys_of(points@).min() && mm[1] == ys_of(
                points@,
            ).max(),
            Err(e) => points@.len() == 0 && e == PlotError::EmptyInput,
        },
{
    let mut ys: Vec<i32> = Vec::new();
    let n: usize = points.len();
    let mut i: usize = 0;
    while i < n
        invariant
            0 <= i <= n,
            n == points@.len(),
            ys@.len() == i,
            forall|j: int| 0 <= j < i ==> ys@[j] == points@[j].y,
        decreases n - i,
    {
        ys.push(points[i].y);
        i = i + 1;
    }
    proof {
        assert(ints_of(ys@) =~= ys_of(points@));
    }
    calc_min_max(ys.as_slice())
}

} // verus!
