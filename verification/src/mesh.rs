//! Render-facing output: the polygon data a face contributes to an
//! external mesh system, and vertex deduplication for display markers.

use vstd::prelude::*;

use crate::vec3_rounded::Vec3Rounded;
use crate::components::{Face, coords_of};

verus! {

/// Removes repeated points, keeping the first occurrence of each and the
/// order of first occurrences. This serves the display-marker path,
/// where rounding to the grid is itself the identification rule, so
/// repetition means exact grid equality (unlike the same-vertex
/// tolerance the extrusion engine applies).
pub open spec fn dedup_seq(ps: Seq<Vec3Rounded>) -> Seq<Vec3Rounded>
    decreases ps.len(),
{
    if ps.len() == 0 {
        Seq::empty()
    } else {
        let prev = dedup_seq(ps.drop_last());
        if prev.contains(ps.last()) {
            prev
        } else {
            prev.push(ps.last())
        }
    }
}

/// Law: deduplication returns each point of the input exactly once —
/// the result has no repeated point, and it holds a point if and only
/// if the input does.
pub proof fn lemma_dedup_seq_unique(ps: Seq<Vec3Rounded>)
    ensures
        dedup_seq(ps).no_duplicates(),
        forall|x: Vec3Rounded| #[trigger] dedup_seq(ps).contains(x) <==> ps.contains(x),
    decreases ps.len(),
{
    if ps.len() > 0 {
        let front = ps.drop_last();
        let last = ps.last();
        lemma_dedup_seq_unique(front);
        let prev = dedup_seq(front);
        assert forall|x: Vec3Rounded| #[trigger] dedup_seq(ps).contains(x) <==> ps.contains(
            x,
        ) by {
            assert(front.push(last) =~= ps);
            vstd::seq_lib::lemma_seq_contains_after_push(front, last, x);
            assert(prev.contains(x) == front.contains(x));
            if !prev.contains(last) {
                vstd::seq_lib::lemma_seq_contains_after_push(prev, last, x);
            } else {
                assert(prev.contains(last) == front.contains(last));
            }
        }
        if !prev.contains(last) {
            assert forall|i: int, j: int|
                0 <= i < j < dedup_seq(ps).len() implies dedup_seq(ps)[i] != dedup_seq(ps)[j] by {
                if j == prev.len() {
                    assert(dedup_seq(ps)[j] == last);
                    if dedup_seq(ps)[i] == last {
                        assert(prev[i] == last);
                        assert(prev.contains(last));
                    }
                }
            }
        }
    }
}

/// Decides whether the list holds this exact point.
pub fn contains_point(ps: &Vec<Vec3Rounded>, p: &Vec3Rounded) -> (r: bool)
    ensures
        r == ps@.contains(*p),
{
    let mut j: usize = 0;
    while j < ps.len()
        invariant
            j <= ps@.len(),
            forall|jj: int| 0 <= jj < j ==> ps@[jj] != *p,
        decreases ps@.len() - j,
    {
        if ps[j] == *p {
            return true;
        }
        j = j + 1;
    }
    false
}

/// Returns the unique points of a list, first occurrences in order.
pub fn dedup_points(points: &Vec<Vec3Rounded>) -> (r: Vec<Vec3Rounded>)
    ensures
        r@ == dedup_seq(points@),
{
    let mut r: Vec<Vec3Rounded> = Vec::new();
    let mut i: usize = 0;
    while i < points.len()
        invariant
            i <= points@.len(),
            r@ == dedup_seq(points@.take(i as int)),
        decreases points@.len() - i,
    {
        proof {
            assert(points@.take(i + 1).drop_last() =~= points@.take(i as int));
            assert(points@.take(i + 1).last() == points@[i as int]);
        }
        let p = points[i];
        if !contains_point(&r, &p) {
            r.push(p);
        }
        i = i + 1;
    }
    proof {
        assert(points@.take(points@.len() as int) =~= points@);
    }
    r
}

/// The data an external mesh system needs for one quad face: the corner
/// positions, the two triangles of the quad split, and the face normal.
pub fn face_mesh_data(face: &Face) -> (r: (Vec<Vec3Rounded>, Vec<u32>, Vec3Rounded))
    requires
        face@.wf(),
        face@.vertices.len() == 4,
    ensures
        r.0@ == coords_of(face@.vertices),
        r.1@ =~= seq![0u32, 1u32, 2u32, 2u32, 3u32, 0u32],
        r.2 == face@.normal,
{
    let mut positions: Vec<Vec3Rounded> = Vec::new();
    let mut i: usize = 0;
    while i < face.vertices.len()
        invariant
            i <= face@.vertices.len(),
            positions@ =~= coords_of(face@.vertices).take(i as int),
        decreases face@.vertices.len() - i,
    {
        positions.push(face.vertices[i].coordinates);
        i = i + 1;
    }
    proof {
        assert(positions@ =~= coords_of(face@.vertices));
    }
    let mut indices: Vec<u32> = Vec::new();
    indices.push(0);
    indices.push(1);
    indices.push(2);
    indices.push(2);
    indices.push(3);
    indices.push(0);
    (positions, indices, face.normal)
}

} // verus!
