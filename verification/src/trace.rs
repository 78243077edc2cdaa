//! Walking along a curve.
//!
//! Every curve of the lathe is a list of samples taken at step 0, step 1 and
//! so on up to the last step, both ends included.  What a sample is, and how
//! it is computed from the number of its step, is the caller's business: the
//! functions here take the computation as a function value, and promise how
//! often and in which order they call it and where each result ends up.

use vstd::prelude::*;
use crate::lathe::neighbourhood;
use crate::lathe::neighbourhood_at;
use crate::lathe::Neighbourhood;

verus! {

/// The samples that are there, in order, without the missing ones.
pub open spec fn present<P>(samples: Seq<Option<P>>) -> Seq<P>
    decreases samples.len(),
{
    if samples.len() == 0 {
        Seq::empty()
    } else {
        match samples.last() {
            Some(p) => present(samples.drop_last()).push(p),
            None => present(samples.drop_last()),
        }
    }
}

/// Whether `samples` holds, for each step from 0 to `steps`, a value that
/// `sample` may return for that step.
pub open spec fn sampled_by<P, F: Fn(usize) -> P>(samples: Seq<P>, steps: usize, sample: F) -> bool {
    &&& samples.len() == steps + 1
    &&& forall|i: int| 0 <= i <= steps ==> call_ensures(sample, (i as usize,), #[trigger] samples[i])
}

/// Nothing is present that was not sampled, and no more than was sampled.
pub proof fn lemma_present_is_no_longer<P>(samples: Seq<Option<P>>)
    ensures
        present(samples).len() <= samples.len(),
        (forall|i: int| 0 <= i < samples.len() ==> samples[i] is Some) ==> present(samples).len()
            == samples.len(),
    decreases samples.len(),
{
    if samples.len() > 0 {
        lemma_present_is_no_longer(samples.drop_last());
    }
}

/// Samples a curve of `steps` steps: the result holds the samples of the
/// steps 0 to `steps`, in this order, so one more than there are steps.
pub fn trace<P, F: Fn(usize) -> P>(steps: usize, sample: &F) -> (curve: Vec<P>)
    requires
        steps < usize::MAX,
        forall|i: usize| i <= steps ==> call_requires(*sample, (i,)),
    ensures
        sampled_by(curve@, steps, *sample),
        curve@.len() == steps + 1,
{
    let mut curve: Vec<P> = Vec::new();
    let mut step: usize = 0;
    while step <= steps
        invariant
            steps < usize::MAX,
            step <= steps + 1,
            curve@.len() == step,
            forall|i: usize| i <= steps ==> call_requires(*sample, (i,)),
            forall|i: int|
                0 <= i < step ==> call_ensures(*sample, (i as usize,), #[trigger] curve@[i]),
        decreases steps + 1 - step,
    {
        let point: P = sample(step);
        curve.push(point);
        step = step + 1;
    }
    curve
}

/// Samples a curve of `steps` steps of which some samples may be missing, and
/// keeps those that are there, in order.
pub fn trace_present<P, F: Fn(usize) -> Option<P>>(steps: usize, sample: &F) -> (curve: Vec<P>)
    requires
        steps < usize::MAX,
        forall|i: usize| i <= steps ==> call_requires(*sample, (i,)),
    ensures
        exists|samples: Seq<Option<P>>|
            sampled_by(samples, steps, *sample) && curve@ == present(samples),
        curve@.len() <= steps + 1,
{
    let mut curve: Vec<P> = Vec::new();
    let ghost mut samples: Seq<Option<P>> = Seq::empty();
    let mut step: usize = 0;
    while step <= steps
        invariant
            steps < usize::MAX,
            step <= steps + 1,
            samples.len() == step,
            curve@ == present(samples),
            forall|i: usize| i <= steps ==> call_requires(*sample, (i,)),
            forall|i: int|
                0 <= i < step ==> call_ensures(*sample, (i as usize,), #[trigger] samples[i]),
        decreases steps + 1 - step,
    {
        let candidate: Option<P> = sample(step);
        proof {
            assert(samples.push(candidate).drop_last() =~= samples);
            samples = samples.push(candidate);
        }
        match candidate {
            Some(point) => {
                curve.push(point);
            },
            None => {},
        }
        step = step + 1;
    }
    proof {
        lemma_present_is_no_longer(samples);
    }
    curve
}

/// Whether `left` and `right` hold, for each point of `path`, the pair that
/// `edge` may return for the neighbourhood of that point.
pub open spec fn edged_by<P, F: Fn(Neighbourhood<P>) -> (P, P)>(
    left: Seq<P>,
    right: Seq<P>,
    path: Seq<P>,
    edge: F,
) -> bool {
    &&& left.len() == path.len()
    &&& right.len() == path.len()
    &&& forall|i: int|
        0 <= i < path.len() ==> call_ensures(
            edge,
            (neighbourhood_at(path, i),),
            (#[trigger] left[i], right[i]),
        )
}

/// The two cut edges of `path`: the left one, then the right one, each with
/// one point per point of the path.  A path of fewer than two points has no
/// direction and gets no edges.
pub fn offset_edges<P: Copy, F: Fn(Neighbourhood<P>) -> (P, P)>(path: &[P], edge: &F) -> (edges:
    Vec<Vec<P>>)
    requires
        forall|n: Neighbourhood<P>| call_requires(*edge, (n,)),
    ensures
        path@.len() < 2 ==> edges@.len() == 0,
        path@.len() >= 2 ==> edges@.len() == 2 && edged_by(edges@[0]@, edges@[1]@, path@, *edge),
{
    let mut edges: Vec<Vec<P>> = Vec::new();
    let path_len: usize = path.len();
    if path_len < 2 {
        return edges;
    }
    let mut left: Vec<P> = Vec::new();
    let mut right: Vec<P> = Vec::new();
    let mut index: usize = 0;
    while index < path_len
        invariant
            path_len == path@.len(),
            path_len >= 2,
            index <= path_len,
            left@.len() == index,
            right@.len() == index,
            forall|n: Neighbourhood<P>| call_requires(*edge, (n,)),
            forall|i: int|
                0 <= i < index ==> call_ensures(
                    *edge,
                    (neighbourhood_at(path@, i),),
                    (#[trigger] left@[i], right@[i]),
                ),
        decreases path_len - index,
    {
        let around: Neighbourhood<P> = neighbourhood(path, index);
        let (l, r): (P, P) = edge(around);
        left.push(l);
        right.push(r);
        index = index + 1;
    }
    edges.push(left);
    edges.push(right);
    edges
}

} // verus!
