//! The facets of a groove mesh.
//!
//! A tool path is turned into a solid groove by hanging a vertical wall under
//! every segment of the path: the two end points of the segment at the
//! surface, and the same two points at the bottom of the cut.  Each wall is
//! two triangles.  There are no mitre joints and no adaptive tessellation, so
//! a path of `n` points always gives `2 * (n - 1)` facets.

use vstd::prelude::*;

verus! {

/// One corner of a facet: a point of the path, at the surface or sunk to the
/// bottom of the cut.
#[derive(Debug, Clone, Copy, PartialEq, Eq, Structural)]
pub struct Corner {
    /// Index of the point in the tool path.
    pub point: usize,
    /// Whether the corner lies at the bottom of the cut.
    pub sunk: bool,
}

/// A triangle, by its three corners in winding order.
#[derive(Debug, Clone, Copy, PartialEq, Eq, Structural)]
pub struct Facet {
    pub a: Corner,
    pub b: Corner,
    pub c: Corner,
}

/// Number of facets of the groove under a path of `num_points` points.
pub open spec fn facet_count(num_points: nat) -> nat {
    if num_points == 0 {
        0
    } else {
        (2 * (num_points - 1)) as nat
    }
}

/// Facet `k` of a groove: the facets `2i` and `2i + 1` are the upper and the
/// lower triangle of the wall under the segment from point `i` to point
/// `i + 1`.
pub open spec fn facet_at(k: nat) -> Facet {
    let i = (k / 2) as usize;
    let next = (k / 2 + 1) as usize;
    if k % 2 == 0 {
        Facet {
            a: Corner { point: i, sunk: false },
            b: Corner { point: next, sunk: false },
            c: Corner { point: i, sunk: true },
        }
    } else {
        Facet {
            a: Corner { point: next, sunk: false },
            b: Corner { point: next, sunk: true },
            c: Corner { point: i, sunk: true },
        }
    }
}

/// All facets of the groove under a path of `num_points` points.
pub open spec fn groove(num_points: nat) -> Seq<Facet> {
    Seq::new(facet_count(num_points), |k: int| facet_at(k as nat))
}

/// Every corner of a groove is a point of the path.
pub proof fn lemma_corners_on_path(num_points: nat, k: int)
    requires
        num_points <= usize::MAX,
        0 <= k < groove(num_points).len(),
    ensures
        groove(num_points)[k].a.point < num_points,
        groove(num_points)[k].b.point < num_points,
        groove(num_points)[k].c.point < num_points,
{
}

/// The facets of the groove under a path of `num_points` points, in the order
/// of the path.
pub fn groove_facets(num_points: usize) -> (facets: Vec<Facet>)
    ensures
        facets@ == groove(num_points as nat),
{
    let mut facets: Vec<Facet> = Vec::new();
    if num_points == 0 {
        return facets;
    }
    let mut i: usize = 0;
    while i < num_points - 1
        invariant
            i < num_points,
            facets@.len() == 2 * i,
            forall|k: int| 0 <= k < facets@.len() ==> facets@[k] == facet_at(k as nat),
        decreases num_points - i,
    {
        let top_here = Corner { point: i, sunk: false };
        let top_next = Corner { point: i + 1, sunk: false };
        let low_here = Corner { point: i, sunk: true };
        let low_next = Corner { point: i + 1, sunk: true };
        facets.push(Facet { a: top_here, b: top_next, c: low_here });
        facets.push(Facet { a: top_next, b: low_next, c: low_here });
        i = i + 1;
    }
    facets
}

} // verus!
