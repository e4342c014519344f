use vstd::prelude::*;

use crate::utils::Point2D;

verus! {

/// An exact clip-space coordinate: the fraction `num / den`, with `den > 0`.
/// The normalizer produces these instead of rounded values, so every frame
/// is reproducible bit for bit and free of division by zero.
#[derive(Copy, Clone, Debug, PartialEq, Eq, Structural)]
pub struct Ratio {
    pub num: i64,
    pub den: i64,
}

impl Ratio {
    /// A well-formed coordinate keeps its denominator positive.
    pub open spec fn wf(self) -> bool {
        self.den > 0
    }

    /// The value of `self` as a comparison against `num / den`, exactly.
    pub fn same_value(self, num: i64, den: i64) -> (r: bool)
        ensures
            r == rat_is(self, num as int, den as int),
    {
        wide_mul(self.num, den) == wide_mul(num, self.den)
    }
}

/// The exact product of two machine words, in a type wide enough to hold it.
fn wide_mul(x: i64, y: i64) -> (r: i128)
    ensures
        r == (x as int) * (y as int),
{
    proof {
        assert((x as int) * (y as int) <= i128::MAX && (x as int) * (y as int)
            >= i128::MIN) by (nonlinear_arith)
            requires
                i64::MIN <= x as int <= i64::MAX,
                i64::MIN <= y as int <= i64::MAX,
        ;
    }
    (x as i128) * (y as i128)
}

/// `a == num / den` as fractions, assuming positive denominators.
pub open spec fn rat_is(a: Ratio, num: int, den: int) -> bool {
    a.num * den == num * a.den
}

/// Numerator of the normalized coordinate. For a proper range the map is
/// `1.5 * (v - mn) / (mx - mn) - 0.75`, written over a common denominator;
/// for a degenerate range it falls back to `1.5 * v - 0.75`, treating the
/// raw value as already lying in a roughly unit-sized range.
pub open spec fn norm_num(v: int, mn: int, mx: int) -> int {
    if mx != mn {
        6 * (v - mn) - 3 * (mx - mn)
    } else {
        6 * v - 3
    }
}

/// Denominator of the normalized coordinate; positive whenever `mn < mx`,
/// and positive (namely 4) in the degenerate fallback.
pub open spec fn norm_den(mn: int, mx: int) -> int {
    if mx != mn {
        4 * (mx - mn)
    } else {
        4
    }
}

/// Maps one coordinate into the clip interval `[-0.75, 0.75]`, exactly.
pub fn normalize_coord(v: i32, mn: i32, mx: i32) -> (r: Ratio)
    requires
        mn <= v <= mx,
    ensures
        r.num == norm_num(v as int, mn as int, mx as int),
        r.den == norm_den(mn as int, mx as int),
        r.wf(),
{
    if mx != mn {
        let num: i64 = 6 * (v as i64 - mn as i64) - 3 * (mx as i64 - mn as i64);
        let den: i64 = 4 * (mx as i64 - mn as i64);
        Ratio { num, den }
    } else {
        Ratio { num: 6 * (v as i64) - 3, den: 4 }
    }
}

/// A vertex handed to the display surface: an exact clip-space position and
/// a color, three bytes per channel.
#[derive(Copy, Clone, Debug, PartialEq, Eq)]
pub struct Vertex {
    pub x: Ratio,
    pub y: Ratio,
    pub rgb: [u8; 3],
}

impl Vertex {
    pub fn new(x: Ratio, y: Ratio, rgb: [u8; 3]) -> (v: Vertex)
        ensures
            v == (Vertex { x, y, rgb }),
    {
        Vertex { x, y, rgb }
    }
}

/// Whether a raw point lies inside the view window on both axes.
pub open spec fn point_in_bounds(p: Point2D, xmn: int, xmx: int, ymn: int, ymx: int) -> bool {
    xmn <= p.x as int <= xmx && ymn <= p.y as int <= ymx
}

/// The vertex a surviving point becomes.
pub open spec fn norm_vertex(p: Point2D, xmn: int, xmx: int, ymn: int, ymx: int, rgb: [u8; 3]) -> Vertex {
    Vertex {
        x: Ratio {
            num: norm_num(p.x as int, xmn, xmx) as i64,
            den: norm_den(xmn, xmx) as i64,
        },
        y: Ratio {
            num: norm_num(p.y as int, ymn, ymx) as i64,
            den: norm_den(ymn, ymx) as i64,
        },
        rgb,
    }
}

/// The points that survive culling, oldest first: exactly those inside the
/// view window, in their input order.
pub open spec fn culled_points(pts: Seq<Point2D>, xmn: int, xmx: int, ymn: int, ymx: int) -> Seq<
    Point2D,
>
    decreases pts.len(),
{
    if pts.len() == 0 {
        Seq::empty()
    } else {
        let rest = culled_points(pts.drop_last(), xmn, xmx, ymn, ymx);
        if point_in_bounds(pts.last(), xmn, xmx, ymn, ymx) {
            rest.push(pts.last())
        } else {
            rest
        }
    }
}

/// How many points of the input lie inside the view window.
pub open spec fn count_in_bounds(pts: Seq<Point2D>, xmn: int, xmx: int, ymn: int, ymx: int) -> nat
    decreases pts.len(),
{
    if pts.len() == 0 {
        0
    } else {
        count_in_bounds(pts.drop_last(), xmn, xmx, ymn, ymx) + if point_in_bounds(
            pts.last(),
            xmn,
            xmx,
            ymn,
            ymx,
        ) {
            1nat
        } else {
            0nat
        }
    }
}

/// The full frame a point set normalizes to under resolved limits.
pub open spec fn norm_vertices(
    pts: Seq<Point2D>,
    xmn: int,
    xmx: int,
    ymn: int,
    ymx: int,
    rgb: [u8; 3],
) -> Seq<Vertex> {
    culled_points(pts, xmn, xmx, ymn, ymx).map_values(
        |p: Point2D| norm_vertex(p, xmn, xmx, ymn, ymx, rgb),
    )
}

/// One unfolding step of `culled_points`, peeling the newest point.
proof fn lemma_culled_unfold(pts: Seq<Point2D>, xmn: int, xmx: int, ymn: int, ymx: int)
    requires
        pts.len() > 0,
    ensures
        point_in_bounds(pts.last(), xmn, xmx, ymn, ymx) ==> culled_points(pts, xmn, xmx, ymn, ymx)
            == culled_points(pts.drop_last(), xmn, xmx, ymn, ymx).push(pts.last()),
        !point_in_bounds(pts.last(), xmn, xmx, ymn, ymx) ==> culled_points(pts, xmn, xmx, ymn, ymx)
            == culled_points(pts.drop_last(), xmn, xmx, ymn, ymx),
{
}

/// Converts a point set plus resolved axis limits into clip-space vertices:
/// points outside the window are dropped, never clamped; the rest keep their
/// order and are mapped exactly.
pub fn normalize_points(
    points: &[Point2D],
    xmn: i32,
    xmx: i32,
    ymn: i32,
    ymx: i32,
    rgb: [u8; 3],
) -> (out: Vec<Vertex>)
    ensures
        out@ == norm_vertices(
            points@,
            xmn as int,
            xmx as int,
            ymn as int,
            ymx as int,
            rgb,
        ),
{
    let ghost xmni: int = xmn as int;
    let ghost xmxi: int = xmx as int;
    let ghost ymni: int = ymn as int;
    let ghost ymxi: int = ymx as int;
    let mut out: Vec<Vertex> = Vec::new();
    let n: usize = points.len();
    let mut i: usize = 0;
    proof {
        assert(points@.take(0) =~= Seq::<Point2D>::empty());
    }
    while i < n
        invariant
            0 <= i <= n,
            n == points@.len(),
            xmni == xmn as int,
            xmxi == xmx as int,
            ymni == ymn as int,
            ymxi == ymx as int,
            out@ == norm_vertices(points@.take(i as int), xmni, xmxi, ymni, ymxi, rgb),
        decreases n - i,
    {
        let p = points[i];
        let ghost pts1 = points@.take(i as int + 1);
        proof {
            assert(pts1.drop_last() =~= points@.take(i as int));
            assert(pts1.last() == p);
            lemma_culled_unfold(pts1, xmni, xmxi, ymni, ymxi);
        }
        if p.x >= xmn && p.x <= xmx && p.y >= ymn && p.y <= ymx {
            let vx = normalize_coord(p.x, xmn, xmx);
            let vy = normalize_coord(p.y, ymn, ymx);
            out.push(Vertex { x: vx, y: vy, rgb });
            proof {
                assert(point_in_bounds(p, xmni, xmxi, ymni, ymxi));
                let prev = culled_points(points@.take(i as int), xmni, xmxi, ymni, ymxi);
                assert(culled_points(pts1, xmni, xmxi, ymni, ymxi) == prev.push(p));
                assert(Vertex { x: vx, y: vy, rgb } == norm_vertex(p, xmni, xmxi, ymni, ymxi, rgb));
                assert(out@ =~= norm_vertices(pts1, xmni, xmxi, ymni, ymxi, rgb));
            }
        } else {
            proof {
                assert(!point_in_bounds(p, xmni, xmxi, ymni, ymxi));
                assert(out@ =~= norm_vertices(pts1, xmni, xmxi, ymni, ymxi, rgb));
            }
        }
        i = i + 1;
    }
    proof {
        assert(points@.take(n as int) =~= points@);
    }
    out
}

/// Culling keeps exactly the in-window points: the frame has one vertex per
/// surviving point, survivors keep their relative order, and each maps to
/// its own vertex.
pub proof fn lemma_culling_counts(pts: Seq<Point2D>, xmn: int, xmx: int, ymn: int, ymx: int, rgb: [u8; 3])
    ensures
        culled_points(pts, xmn, xmx, ymn, ymx).len() == count_in_bounds(pts, xmn, xmx, ymn, ymx),
        norm_vertices(pts, xmn, xmx, ymn, ymx, rgb).len() == count_in_bounds(
            pts,
            xmn,
            xmx,
            ymn,
            ymx,
        ),
        forall|i: int|
            0 <= i < culled_points(pts, xmn, xmx, ymn, ymx).len() ==> point_in_bounds(
                #[trigger] culled_points(pts, xmn, xmx, ymn, ymx)[i],
                xmn,
                xmx,
                ymn,
                ymx,
            ),
    decreases pts.len(),
{
    if pts.len() > 0 {
        lemma_culling_counts(pts.drop_last(), xmn, xmx, ymn, ymx, rgb);
    }
}

/// With a proper range (`mn < mx`) normalization is strictly monotonic:
/// strictly increasing raw values map to strictly increasing clip-space
/// fractions.
pub proof fn lemma_normalize_monotonic(v1: int, v2: int, mn: int, mx: int)
    requires
        mn < mx,
        v1 < v2,
    ensures
        norm_num(v1, mn, mx) * norm_den(mn, mx) < norm_num(v2, mn, mx) * norm_den(mn, mx),
{
    let n1 = norm_num(v1, mn, mx);
    let n2 = norm_num(v2, mn, mx);
    let d = norm_den(mn, mx);
    assert(n1 < n2);
    assert(d > 0);
    assert(n1 * d < n2 * d) by (nonlinear_arith)
        requires
            n1 < n2,
            d > 0,
    ;
}

/// With a proper range the endpoints land exactly on the ends of the clip
/// interval: `mn` maps to `-3/4` and `mx` maps to `3/4`.
pub proof fn lemma_normalize_endpoints(mn: int, mx: int)
    requires
        mn < mx,
    ensures
        norm_num(mn, mn, mx) * 4 == -3 * norm_den(mn, mx),
        norm_num(mx, mn, mx) * 4 == 3 * norm_den(mn, mx),
{
}

/// A degenerate range (`mx == mn`) never divides by zero: the fallback keeps
/// a positive denominator for every finite input.
pub proof fn lemma_normalize_degenerate(v: int, mn: int)
    ensures
        norm_den(mn, mn) == 4,
        norm_num(v, mn, mn) == 6 * v - 3,
{
}

} // verus!
