//! Where each curve of a lemniscate set is turned to.
//!
//! The curves of a set are either spread evenly over the full turn, or
//! gathered into clusters: the turn is divided into as many sectors as there
//! are clusters, and the curves of one cluster fan out around the start of its
//! sector.  The curves are dealt to the clusters as evenly as possible, the
//! leading clusters taking one more where the division leaves a remainder.
//! This module decides, for every curve, which place it takes; turning a place
//! into an angle is left to the caller.

use vstd::prelude::*;
use vstd::arithmetic::div_mod::lemma_fundamental_div_mod;
use vstd::arithmetic::div_mod::lemma_fundamental_div_mod_converse;

verus! {

/// The place of one curve in a set.
#[derive(Debug, Clone, Copy, PartialEq, Eq, Structural)]
pub enum Rotation {
    /// Step `index` of `steps` equal steps around the full turn.
    Uniform { index: usize, steps: usize },
    /// Curve `position` of the `size` curves of cluster `cluster`, out of
    /// `clusters` clusters.
    Clustered { cluster: usize, clusters: usize, position: usize, size: usize },
}

/// Where an item lies in a row of items that are spread evenly from one end
/// of a span to the other.
#[derive(Debug, Clone, Copy, PartialEq, Eq, Structural)]
pub enum Share {
    /// The only item of its row: it lies in the middle of the span.
    Centre,
    /// `numerator / denominator` of the way from the first end to the last.
    Part { numerator: usize, denominator: usize },
}

/// The share of item `position` of a row of `size` items.
pub open spec fn share_of(position: nat, size: nat) -> Share {
    if size > 1 {
        Share::Part { numerator: position as usize, denominator: (size - 1) as usize }
    } else {
        Share::Centre
    }
}

/// The share of item `position` of a row of `size` items: the first item
/// lies at one end of the span, the last at the other, and a single item in
/// the middle.
pub fn spread(position: usize, size: usize) -> (s: Share)
    requires
        position < size,
    ensures
        s == share_of(position as nat, size as nat),
        s matches Share::Part { numerator, denominator } ==> numerator <= denominator
            && denominator >= 1,
{
    if size > 1 {
        Share::Part { numerator: position, denominator: size - 1 }
    } else {
        Share::Centre
    }
}

/// Whether `num_curves` curves in `num_clusters` clusters are gathered at
/// all: a cluster count of zero, or one that leaves no cluster with more than
/// one curve, spreads the curves evenly.
pub open spec fn is_clustered(num_curves: nat, num_clusters: nat) -> bool {
    0 < num_clusters < num_curves
}

/// Number of curves in cluster `cluster`.
pub open spec fn cluster_size(num_curves: nat, num_clusters: nat, cluster: nat) -> nat {
    if cluster < num_curves % num_clusters {
        num_curves / num_clusters + 1
    } else {
        num_curves / num_clusters
    }
}

/// Number of curves in the clusters before `cluster`.
pub open spec fn cluster_start(num_curves: nat, num_clusters: nat, cluster: nat) -> nat {
    let base = num_curves / num_clusters;
    let extra = num_curves % num_clusters;
    if cluster <= extra {
        cluster * (base + 1)
    } else {
        (extra * (base + 1) + (cluster - extra) * base) as nat
    }
}

/// The place of curve `j` of a set.
pub open spec fn rotation_at(num_curves: nat, num_clusters: nat, j: nat) -> Rotation {
    if is_clustered(num_curves, num_clusters) {
        let base = num_curves / num_clusters;
        let extra = num_curves % num_clusters;
        let wide = extra * (base + 1);
        if j < wide {
            Rotation::Clustered {
                cluster: (j / (base + 1)) as usize,
                clusters: num_clusters as usize,
                position: (j % (base + 1)) as usize,
                size: (base + 1) as usize,
            }
        } else {
            Rotation::Clustered {
                cluster: (extra + (j - wide) / base as int) as usize,
                clusters: num_clusters as usize,
                position: ((j - wide) % base as int) as usize,
                size: base as usize,
            }
        }
    } else {
        Rotation::Uniform { index: j as usize, steps: num_curves as usize }
    }
}

/// The places of all curves of a set, in the order in which they are drawn.
pub open spec fn rotations(num_curves: nat, num_clusters: nat) -> Seq<Rotation> {
    Seq::new(num_curves, |j: int| rotation_at(num_curves, num_clusters, j as nat))
}

/// The clusters take up all curves: the first curve after the last cluster is
/// the end of the set, and each cluster starts where the one before it ends.
pub proof fn lemma_clusters_cover(num_curves: nat, num_clusters: nat, cluster: nat)
    requires
        is_clustered(num_curves, num_clusters),
        cluster < num_clusters,
    ensures
        cluster_start(num_curves, num_clusters, num_clusters) == num_curves,
        cluster_start(num_curves, num_clusters, 0) == 0,
        cluster_start(num_curves, num_clusters, cluster + 1) == cluster_start(
            num_curves,
            num_clusters,
            cluster,
        ) + cluster_size(num_curves, num_clusters, cluster),
        cluster_size(num_curves, num_clusters, cluster) >= 1,
{
    let base = num_curves / num_clusters;
    let extra = num_curves % num_clusters;
    lemma_fundamental_div_mod(num_curves as int, num_clusters as int);
    assert(extra * (base + 1) + (num_clusters - extra) * base == num_clusters * base + extra)
        by (nonlinear_arith);
    assert((cluster + 1) * (base + 1) == cluster * (base + 1) + (base + 1)) by (nonlinear_arith);
    assert((cluster + 1 - extra) * base == (cluster - extra) * base + base) by (nonlinear_arith);
    assert((extra - extra) * base == 0) by (nonlinear_arith);
    if base == 0 {
        assert(num_clusters * base == 0) by (nonlinear_arith)
            requires
                base == 0,
        ;
    }
}

/// Curve `position` of cluster `cluster` is curve
/// `cluster_start(cluster) + position` of the set.
pub proof fn lemma_place_in_cluster(
    num_curves: nat,
    num_clusters: nat,
    cluster: nat,
    position: nat,
)
    requires
        is_clustered(num_curves, num_clusters),
        num_curves <= usize::MAX,
        cluster < num_clusters,
        position < cluster_size(num_curves, num_clusters, cluster),
    ensures
        cluster_start(num_curves, num_clusters, cluster) + position < num_curves,
        rotation_at(
            num_curves,
            num_clusters,
            cluster_start(num_curves, num_clusters, cluster) + position,
        ) == (Rotation::Clustered {
            cluster: cluster as usize,
            clusters: num_clusters as usize,
            position: position as usize,
            size: cluster_size(num_curves, num_clusters, cluster) as usize,
        }),
{
    let base = num_curves / num_clusters;
    let extra = num_curves % num_clusters;
    let wide = extra * (base + 1);
    let j = cluster_start(num_curves, num_clusters, cluster) + position;
    lemma_fundamental_div_mod(num_curves as int, num_clusters as int);
    lemma_clusters_cover(num_curves, num_clusters, cluster);
    lemma_cluster_start_grows(num_curves, num_clusters, cluster + 1, num_clusters);
    assert(base <= num_curves) by {
        vstd::arithmetic::div_mod::lemma_div_is_ordered_by_denominator(
            num_curves as int,
            1,
            num_clusters as int,
        );
    }
    if cluster < extra {
        assert((cluster + 1) * (base + 1) <= extra * (base + 1)) by (nonlinear_arith)
            requires
                cluster + 1 <= extra,
        ;
        assert((cluster + 1) * (base + 1) == cluster * (base + 1) + (base + 1))
            by (nonlinear_arith);
        lemma_fundamental_div_mod_converse(
            j as int,
            (base + 1) as int,
            cluster as int,
            position as int,
        );
    } else {
        assert((cluster - extra) * base >= 0 && (cluster == extra ==> (cluster - extra) * base
            == 0)) by (nonlinear_arith)
            requires
                cluster >= extra,
                base >= 0,
        ;
        lemma_fundamental_div_mod_converse(
            j - wide,
            base as int,
            cluster - extra,
            position as int,
        );
    }
}

/// No cluster holds more curves than the set.
pub proof fn lemma_cluster_size_bound(num_curves: nat, num_clusters: nat, cluster: nat)
    requires
        is_clustered(num_curves, num_clusters),
        cluster < num_clusters,
    ensures
        1 <= cluster_size(num_curves, num_clusters, cluster) <= num_curves,
{
    lemma_clusters_cover(num_curves, num_clusters, cluster);
    lemma_cluster_start_grows(num_curves, num_clusters, cluster + 1, num_clusters);
}

/// Later clusters start later.
pub proof fn lemma_cluster_start_grows(num_curves: nat, num_clusters: nat, a: nat, b: nat)
    requires
        is_clustered(num_curves, num_clusters),
        a <= b <= num_clusters,
    ensures
        cluster_start(num_curves, num_clusters, a) <= cluster_start(num_curves, num_clusters, b),
    decreases b - a,
{
    if a < b {
        lemma_clusters_cover(num_curves, num_clusters, a);
        lemma_cluster_start_grows(num_curves, num_clusters, a + 1, b);
    }
}

/// Deals `num_curves` curves to their places: evenly around the turn, or into
/// `num_clusters` clusters where that number is positive and smaller than the
/// number of curves.
pub fn rotation_plan(num_curves: usize, num_clusters: usize) -> (plan: Vec<Rotation>)
    ensures
        plan@ == rotations(num_curves as nat, num_clusters as nat),
{
    let mut plan: Vec<Rotation> = Vec::new();
    if num_clusters > 0 && num_clusters < num_curves {
        let base: usize = num_curves / num_clusters;
        let extra: usize = num_curves % num_clusters;
        let mut cluster: usize = 0;
        proof {
            lemma_clusters_cover(num_curves as nat, num_clusters as nat, 0);
        }
        while cluster < num_clusters
            invariant
                is_clustered(num_curves as nat, num_clusters as nat),
                base == num_curves / num_clusters,
                extra == num_curves % num_clusters,
                cluster <= num_clusters,
                plan@.len() == cluster_start(
                    num_curves as nat,
                    num_clusters as nat,
                    cluster as nat,
                ),
                forall|j: int|
                    0 <= j < plan@.len() ==> plan@[j] == rotation_at(
                        num_curves as nat,
                        num_clusters as nat,
                        j as nat,
                    ),
            decreases num_clusters - cluster,
        {
            proof {
                lemma_clusters_cover(num_curves as nat, num_clusters as nat, cluster as nat);
                lemma_cluster_size_bound(num_curves as nat, num_clusters as nat, cluster as nat);
            }
            let size: usize = if cluster < extra {
                base + 1
            } else {
                base
            };
            let ghost start = plan@.len();
            let mut position: usize = 0;
            while position < size
                invariant
                    is_clustered(num_curves as nat, num_clusters as nat),
                    cluster < num_clusters,
                    size == cluster_size(
                        num_curves as nat,
                        num_clusters as nat,
                        cluster as nat,
                    ),
                    position <= size,
                    start == cluster_start(
                        num_curves as nat,
                        num_clusters as nat,
                        cluster as nat,
                    ),
                    plan@.len() == start + position,
                    forall|j: int|
                        0 <= j < plan@.len() ==> plan@[j] == rotation_at(
                            num_curves as nat,
                            num_clusters as nat,
                            j as nat,
                        ),
                decreases size - position,
            {
                proof {
                    lemma_place_in_cluster(
                        num_curves as nat,
                        num_clusters as nat,
                        cluster as nat,
                        position as nat,
                    );
                }
                plan.push(
                    Rotation::Clustered { cluster, clusters: num_clusters, position, size },
                );
                position = position + 1;
            }
            cluster = cluster + 1;
        }
        proof {
            lemma_clusters_cover(num_curves as nat, num_clusters as nat, 0);
        }
    } else {
        let mut index: usize = 0;
        while index < num_curves
            invariant
                !is_clustered(num_curves as nat, num_clusters as nat),
                index <= num_curves,
                plan@.len() == index,
                forall|j: int|
                    0 <= j < plan@.len() ==> plan@[j] == rotation_at(
                        num_curves as nat,
                        num_clusters as nat,
                        j as nat,
                    ),
            decreases num_curves - index,
        {
            plan.push(Rotation::Uniform { index, steps: num_curves });
            index = index + 1;
        }
    }
    plan
}

} // verus!
