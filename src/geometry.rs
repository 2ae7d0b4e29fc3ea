//! Vertex layout: every 2D point is widened to three components, the third
//! a fixed pad, in input order.
use vstd::prelude::*;

verus! {

/// A point of the plane, over any scalar (the GPU side uses 32-bit floats).
#[derive(Clone, Copy, Debug)]
pub struct Point2<T> {
    pub x: T,
    pub y: T,
}

/// Components written for each point.
pub const COMPONENTS_PER_POINT: usize = 3;

/// The flat component sequence of a point sequence: index `3k` holds the x
/// of point `k`, `3k + 1` its y, and `3k + 2` the pad.
pub open spec fn components<T>(points: Seq<Point2<T>>, pad: T) -> Seq<T> {
    Seq::new(
        3 * points.len(),
        |i: int|
            if i % 3 == 0 {
                points[i / 3].x
            } else if i % 3 == 1 {
                points[i / 3].y
            } else {
                pad
            },
    )
}

/// Lays a point sequence out as vertex components, three per point.
pub fn vertex_components<T: Copy>(points: &Vec<Point2<T>>, pad: T) -> (r: Vec<T>)
    requires
        3 * points.len() <= usize::MAX,
    ensures
        r.len() == COMPONENTS_PER_POINT * points.len(),
        r@ == components(points@, pad),
{
    let n = points.len();
    let mut r: Vec<T> = Vec::with_capacity(3 * n);
    let mut k: usize = 0;
    while k < n
        invariant
            n == points.len(),
            3 * n <= usize::MAX,
            k <= n,
            r.len() == 3 * k,
            forall|j: int|
                0 <= j < k ==> r@[3 * j] == (#[trigger] points@[j]).x && r@[3 * j + 1]
                    == points@[j].y && r@[3 * j + 2] == pad,
        decreases n - k,
    {
        let p = points[k];
        r.push(p.x);
        r.push(p.y);
        r.push(pad);
        k = k + 1;
    }
    assert forall|i: int| 0 <= i < r.len() implies r@[i] == #[trigger] components(
        points@,
        pad,
    )[i] by {
        let j = i / 3;
        assert(i == 3 * j + i % 3);
        assert(r@[3 * j] == points@[j].x);
    }
    assert(r@ =~= components(points@, pad));
    r
}

/// Vertices over a list of polygons.
pub open spec fn total_vertices<T>(polygons: Seq<Seq<Point2<T>>>) -> nat
    decreases polygons.len(),
{
    if polygons.len() == 0 {
        0
    } else {
        total_vertices(polygons.drop_last()) + polygons.last().len()
    }
}

/// Components over the buffers laid out from a list of polygons.
pub open spec fn total_components<T>(polygons: Seq<Seq<Point2<T>>>, pad: T) -> nat
    decreases polygons.len(),
{
    if polygons.len() == 0 {
        0
    } else {
        total_components(polygons.drop_last(), pad) + components(polygons.last(), pad).len()
    }
}

/// Laying out each polygon of a list gives buffers whose lengths are each a
/// multiple of three and together three times the number of vertices.
pub proof fn lemma_polygon_buffers<T>(polygons: Seq<Seq<Point2<T>>>, pad: T)
    ensures
        forall|i: int|
            0 <= i < polygons.len() ==> #[trigger] components(polygons[i], pad).len() % 3 == 0,
        total_components(polygons, pad) == 3 * total_vertices(polygons),
    decreases polygons.len(),
{
    assert forall|i: int| 0 <= i < polygons.len() implies #[trigger] components(
        polygons[i],
        pad,
    ).len() % 3 == 0 by {
        assert(components(polygons[i], pad).len() == 3 * polygons[i].len());
    }
    if polygons.len() > 0 {
        lemma_polygon_buffers(polygons.drop_last(), pad);
    }
}

} // verus!
