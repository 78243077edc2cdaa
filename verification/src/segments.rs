//! Cutting the closed path of one pass into drawn arcs and gaps.
//!
//! A path of `n` samples, cut into `k` segments, is divided into `k` cycles of
//! `n / k` samples each.  Of every cycle the leading seven tenths are drawn
//! and the rest is a gap.  With `k == 1` the whole path is drawn unbroken.
//! The samples themselves are never looked at, so they may be of any type.

use vstd::prelude::*;
use crate::binary64::drawn_points;
use crate::binary64::lemma_drawn_points_below;
use crate::binary64::lemma_drawn_points_is_seven_tenths;
use crate::binary64::seventy_percent;

verus! {

/// The curves held by a list of polylines, as sequences of samples.
pub open spec fn curves<T>(lines: Seq<Vec<T>>) -> Seq<Seq<T>> {
    Seq::new(lines.len(), |i: int| lines[i]@)
}

/// Number of samples in one cycle when `total` samples are cut into `k`
/// segments.
pub open spec fn cycle_length(total: nat, k: nat) -> nat {
    if k == 0 {
        0
    } else {
        total / k
    }
}

/// The drawn arcs of `path` when it is cut into `k` segments.
pub open spec fn segments_of<T>(path: Seq<T>, k: nat) -> Seq<Seq<T>> {
    if path.len() == 0 || k == 0 {
        Seq::empty()
    } else if k == 1 {
        seq![path]
    } else {
        let cycle = cycle_length(path.len(), k);
        let drawn = drawn_points(cycle);
        if drawn == 0 {
            Seq::empty()
        } else {
            Seq::new(k, |i: int| path.subrange(i * cycle, i * cycle + drawn))
        }
    }
}

/// `k` cycles fit into the path, so every arc lies inside it.
pub proof fn lemma_cycles_fit(total: nat, k: nat, i: nat)
    requires
        k >= 1,
        i < k,
    ensures
        i * cycle_length(total, k) + cycle_length(total, k) <= total,
        (i + 1) * cycle_length(total, k) == i * cycle_length(total, k) + cycle_length(total, k),
{
    let c = cycle_length(total, k);
    vstd::arithmetic::div_mod::lemma_fundamental_div_mod(total as int, k as int);
    assert((i + 1) * c <= k * c) by (nonlinear_arith)
        requires
            i + 1 <= k,
            c >= 0,
    ;
    assert((i + 1) * c == i * c + c) by (nonlinear_arith);
}

/// With one segment per pass, a pass that has any sample yields exactly one
/// polyline: its whole path, unbroken.
pub proof fn lemma_single_segment_is_whole_path<T>(path: Seq<T>)
    requires
        path.len() > 0,
    ensures
        segments_of(path, 1) == seq![path],
{
}

/// With `k > 1` segments per pass, a pass yields no polyline or exactly `k`.
/// Arc `i` is the run of `drawn_points(n / k)` samples that starts at sample
/// `i * (n / k)`; it lies inside the path and is followed by a gap of at
/// least one sample before the next arc starts.
pub proof fn lemma_segments_have_gaps<T>(path: Seq<T>, k: nat, i: int)
    requires
        k > 1,
        0 <= i < segments_of(path, k).len(),
    ensures
        segments_of(path, k).len() == k,
        segments_of(path, k)[i].len() == drawn_points(cycle_length(path.len(), k)),
        segments_of(path, k)[i] == path.subrange(
            i * cycle_length(path.len(), k),
            i * cycle_length(path.len(), k) + drawn_points(cycle_length(path.len(), k)),
        ),
        1 <= drawn_points(cycle_length(path.len(), k)) < cycle_length(path.len(), k),
        i * cycle_length(path.len(), k) + cycle_length(path.len(), k) <= path.len(),
{
    let cycle = cycle_length(path.len(), k);
    assert(cycle <= path.len()) by {
        vstd::arithmetic::div_mod::lemma_div_is_ordered_by_denominator(
            path.len() as int,
            1,
            k as int,
        );
    }
    lemma_drawn_points_below(cycle);
    lemma_cycles_fit(path.len(), k, i as nat);
}

/// With `k > 1` segments per pass, every arc of a path of up to `2^51`
/// samples holds seven tenths of a cycle, rounded down, or one sample less.
pub proof fn lemma_segments_are_seven_tenths<T>(path: Seq<T>, k: nat, i: int)
    requires
        k > 1,
        path.len() <= 2251799813685248,
        0 <= i < segments_of(path, k).len(),
    ensures
        10 * segments_of(path, k)[i].len() <= 7 * cycle_length(path.len(), k),
        7 * cycle_length(path.len(), k) < 10 * (segments_of(path, k)[i].len() + 2),
{
    let cycle = cycle_length(path.len(), k);
    assert(cycle <= path.len()) by {
        vstd::arithmetic::div_mod::lemma_div_is_ordered_by_denominator(
            path.len() as int,
            1,
            k as int,
        );
    }
    lemma_segments_have_gaps(path, k, i);
    lemma_drawn_points_is_seven_tenths(cycle);
}

/// Copies the samples `from .. to` of `path` into a polyline of their own.
pub fn copy_arc<T: Copy>(path: &[T], from: usize, to: usize) -> (arc: Vec<T>)
    requires
        from <= to <= path@.len(),
    ensures
        arc@ == path@.subrange(from as int, to as int),
{
    let mut arc: Vec<T> = Vec::new();
    let mut j: usize = from;
    while j < to
        invariant
            from <= j <= to <= path@.len(),
            arc@ == path@.subrange(from as int, j as int),
        decreases to - j,
    {
        arc.push(path[j]);
        j = j + 1;
    }
    arc
}

/// Cuts `path` into `segments_per_pass` arcs with gaps and appends the arcs to
/// `lines`, in the order in which they lie on the path.
pub fn segment_path<T: Copy>(lines: &mut Vec<Vec<T>>, path: &[T], segments_per_pass: usize)
    ensures
        curves(final(lines)@) == curves(old(lines)@) + segments_of(
            path@,
            segments_per_pass as nat,
        ),
{
    let total: usize = path.len();
    if total == 0 || segments_per_pass == 0 {
        return ;
    }
    if segments_per_pass == 1 {
        let whole: Vec<T> = copy_arc(path, 0, total);
        lines.push(whole);
        assert(path@.subrange(0, total as int) =~= path@);
        return ;
    }
    let cycle: usize = total / segments_per_pass;
    let drawn: usize = seventy_percent(cycle);
    let ghost expected = segments_of(path@, segments_per_pass as nat);
    if drawn == 0 {
        return ;
    }
    let mut index: usize = 0;
    let mut start: usize = 0;
    while index < segments_per_pass
        invariant
            index <= segments_per_pass,
            total == path@.len(),
            segments_per_pass > 1,
            cycle == cycle_length(total as nat, segments_per_pass as nat),
            drawn == drawn_points(cycle as nat),
            1 <= drawn <= cycle,
            index < segments_per_pass ==> start == index * cycle && start + cycle <= total,
            expected == segments_of(path@, segments_per_pass as nat),
            expected.len() == segments_per_pass,
            curves(lines@) == curves(old(lines)@) + expected.subrange(0, index as int),
        decreases segments_per_pass - index,
    {
        let end: usize = if start + drawn < total {
            start + drawn
        } else {
            total
        };
        if start < total && end > start {
            let arc: Vec<T> = copy_arc(path, start, end);
            let ghost before = lines@;
            lines.push(arc);
            assert(curves(lines@) =~= curves(before).push(arc@));
        }
        proof {
            assert(expected.subrange(0, index + 1) =~= expected.subrange(0, index as int).push(
                expected[index as int],
            ));
            if index + 1 < segments_per_pass {
                lemma_cycles_fit(total as nat, segments_per_pass as nat, (index + 1) as nat);
            }
            lemma_cycles_fit(total as nat, segments_per_pass as nat, index as nat);
        }
        index = index + 1;
        if index < segments_per_pass {
            start = start + cycle;
        }
    }
}

} // verus!
