//! One pass of the lathe: what it checks, and how much it produces.
//!
//! A pass samples the radius at `resolution + 1` angles, evenly spread from
//! the start angle to the end angle, both included.  Beside this tool path it
//! produces two cut edges, one on each side of the path, and, where the depth
//! of the cut is modulated, one depth sample and one shading sample per angle.
//! A pass is either fresh, with nothing produced, or generated.

use vstd::prelude::*;
use crate::error::ErrorKind;
use crate::error::SpirographError;
use crate::segments::copy_arc;
use crate::segments::curves;
use crate::trace::edged_by;
use crate::trace::offset_edges;
use crate::trace::sampled_by;
use crate::trace::trace;

verus! {

/// Smallest number of steps that a pass accepts.
pub const MIN_RESOLUTION: usize = 10;

/// A point of a path together with the neighbours from which the direction
/// of the path at that point is estimated.
#[derive(Debug, Clone, Copy)]
pub enum Neighbourhood<P> {
    /// The first point of a path: the direction is that towards the next
    /// point.
    First { here: P, next: P },
    /// The last point of a path: the direction is that from the point before.
    Last { before: P, here: P },
    /// A point in between: the direction is the mean of the unit vectors of
    /// the two segments that meet at the point.
    Inner { before: P, here: P, next: P },
}

/// The neighbourhood of point `index` of `path`.
pub open spec fn neighbourhood_at<P>(path: Seq<P>, index: int) -> Neighbourhood<P>
    recommends
        path.len() >= 2,
        0 <= index < path.len(),
{
    if index == 0 {
        Neighbourhood::First { here: path[0], next: path[1] }
    } else if index + 1 == path.len() {
        Neighbourhood::Last { before: path[index - 1], here: path[index] }
    } else {
        Neighbourhood::Inner { before: path[index - 1], here: path[index], next: path[index + 1] }
    }
}

/// The neighbourhood of point `index` of `path`.
pub fn neighbourhood<P: Copy>(path: &[P], index: usize) -> (n: Neighbourhood<P>)
    requires
        path@.len() >= 2,
        index < path@.len(),
    ensures
        n == neighbourhood_at(path@, index as int),
{
    if index == 0 {
        Neighbourhood::First { here: path[0], next: path[1] }
    } else if index == path.len() - 1 {
        Neighbourhood::Last { before: path[index - 1], here: path[index] }
    } else {
        Neighbourhood::Inner { before: path[index - 1], here: path[index], next: path[index + 1] }
    }
}

/// How many values each sequence of a pass holds.
#[derive(Debug, Clone, Copy, PartialEq, Eq, Structural)]
pub struct PassLayout {
    /// Points of the tool path.
    pub path_points: usize,
    /// Cut edges: two, or none where the path is too short to have a
    /// direction.
    pub cut_edges: usize,
    /// Points of each cut edge.
    pub edge_points: usize,
    /// Polylines handed to a renderer: the tool path, then the cut edges.
    pub rendered_lines: usize,
    /// Depth samples, and as many shading samples.
    pub depth_samples: usize,
}

/// The layout of a pass on which nothing was generated yet.
pub open spec fn empty_layout() -> PassLayout {
    PassLayout { path_points: 0, cut_edges: 0, edge_points: 0, rendered_lines: 0, depth_samples: 0 }
}

/// The layout of a generated pass of `resolution` steps.
pub open spec fn layout_of(resolution: usize, depth_modulation: bool) -> PassLayout
    recommends
        resolution < usize::MAX,
{
    let points = (resolution + 1) as usize;
    PassLayout {
        path_points: points,
        cut_edges: if points >= 2 {
            2
        } else {
            0
        },
        edge_points: if points >= 2 {
            points
        } else {
            0
        },
        rendered_lines: if points >= 2 {
            3
        } else {
            1
        },
        depth_samples: if depth_modulation {
            points
        } else {
            0
        },
    }
}

/// Why a pass with these parameters is refused, if it is: the first of the
/// three conditions that fails, in this order.
pub open spec fn pass_fault(
    base_radius_positive: bool,
    amplitude_non_negative: bool,
    resolution: usize,
) -> Option<Seq<char>> {
    if !base_radius_positive {
        Some("base_radius must be positive"@)
    } else if !amplitude_non_negative {
        Some("amplitude must be non-negative"@)
    } else if resolution < 10 {
        Some("resolution must be at least 10"@)
    } else {
        None
    }
}

/// What one generation of a pass produces.  `P` is the type of a point and
/// `D` that of a depth or shading value.
#[derive(Debug, Clone)]
pub struct PassOutput<P, D> {
    /// The tool path: the centre line that the bit follows.
    pub tool_path: Vec<P>,
    /// The left and the right edge of the cut, or nothing where the path has
    /// no direction.
    pub cut_edges: Vec<Vec<P>>,
    /// The polylines handed to a renderer: the tool path, then the cut edges.
    pub rendered_lines: Vec<Vec<P>>,
    /// The depth at each angle, where the depth is modulated.
    pub depth_map: Vec<D>,
    /// The shading at each angle, where the depth is modulated.
    pub shading: Vec<D>,
}

/// Whether `depth_map` and `shading` hold, for each step from 0 to `steps`,
/// the pair that `depth` may return for that step.
pub open spec fn depth_sampled_by<D, Q: Fn(usize) -> (D, D)>(
    depth_map: Seq<D>,
    shading: Seq<D>,
    steps: usize,
    depth: Q,
) -> bool {
    &&& depth_map.len() == steps + 1
    &&& shading.len() == steps + 1
    &&& forall|i: int|
        0 <= i <= steps ==> call_ensures(depth, (i as usize,), (#[trigger] depth_map[i], shading[i]))
}

/// Whether `out` is what a pass of `resolution` steps produces from the three
/// computations: the path is sampled by `sample`, the edges are offset from
/// the path by `edge`, the rendered lines are the path and the edges, and the
/// depth and shading are sampled by `depth` where the depth is modulated and
/// empty where it is not.
pub open spec fn produced_by<
    P,
    D,
    S: Fn(usize) -> P,
    E: Fn(Neighbourhood<P>) -> (P, P),
    Q: Fn(usize) -> (D, D),
>(
    out: PassOutput<P, D>,
    resolution: usize,
    depth_modulation: bool,
    sample: S,
    edge: E,
    depth: Q,
) -> bool {
    &&& sampled_by(out.tool_path@, resolution, sample)
    &&& resolution == 0 ==> out.cut_edges@.len() == 0
    &&& resolution >= 1 ==> out.cut_edges@.len() == 2 && edged_by(
        out.cut_edges@[0]@,
        out.cut_edges@[1]@,
        out.tool_path@,
        edge,
    )
    &&& curves(out.rendered_lines@) == seq![out.tool_path@] + curves(out.cut_edges@)
    &&& depth_modulation ==> depth_sampled_by(out.depth_map@, out.shading@, resolution, depth)
    &&& !depth_modulation ==> out.depth_map@.len() == 0 && out.shading@.len() == 0
}

/// Whether `layout` counts what `out` holds.
pub open spec fn describes<P, D>(layout: PassLayout, out: PassOutput<P, D>) -> bool {
    &&& layout.path_points == out.tool_path@.len()
    &&& layout.cut_edges == out.cut_edges@.len()
    &&& forall|i: int|
        0 <= i < out.cut_edges@.len() ==> layout.edge_points == (#[trigger] out.cut_edges@[i])@.len()
    &&& layout.rendered_lines == out.rendered_lines@.len()
    &&& layout.depth_samples == out.depth_map@.len()
    &&& layout.depth_samples == out.shading@.len()
}

/// The countable part of a single-pass lathe.
#[derive(Debug, Clone, Copy, PartialEq, Eq, Structural)]
pub struct LathePass {
    /// Number of steps along the path.
    pub resolution: usize,
    /// Whether the depth of the cut varies with the angle.
    pub depth_modulation: bool,
    /// What the last generation produced.
    pub layout: PassLayout,
    /// Whether anything was generated.
    pub generated: bool,
}

impl LathePass {
    /// The pass after a generation: the layout is that of its resolution, and
    /// the configuration is as it was.
    pub open spec fn after_generate(self) -> LathePass {
        LathePass {
            resolution: self.resolution,
            depth_modulation: self.depth_modulation,
            layout: layout_of(self.resolution, self.depth_modulation),
            generated: true,
        }
    }

    /// A fresh pass.  The two flags say how the caller's tests on the base
    /// radius (above zero) and on the amplitude (not below zero) came out.
    pub fn new(
        base_radius_positive: bool,
        amplitude_non_negative: bool,
        resolution: usize,
        depth_modulation: bool,
    ) -> (r: Result<LathePass, SpirographError>)
        ensures
            match r {
                Ok(pass) => pass_fault(base_radius_positive, amplitude_non_negative, resolution)
                    is None && pass == (LathePass {
                    resolution,
                    depth_modulation,
                    layout: empty_layout(),
                    generated: false,
                }),
                Err(e) => e.kind_spec() == ErrorKind::InvalidParameter && pass_fault(
                    base_radius_positive,
                    amplitude_non_negative,
                    resolution,
                ) == Some(e.detail_spec()),
            },
    {
        if !base_radius_positive {
            return Err(SpirographError::invalid_parameter("base_radius must be positive"));
        }
        if !amplitude_non_negative {
            return Err(SpirographError::invalid_parameter("amplitude must be non-negative"));
        }
        if resolution < MIN_RESOLUTION {
            return Err(SpirographError::invalid_parameter("resolution must be at least 10"));
        }
        Ok(
            LathePass {
                resolution,
                depth_modulation,
                layout: PassLayout {
                    path_points: 0,
                    cut_edges: 0,
                    edge_points: 0,
                    rendered_lines: 0,
                    depth_samples: 0,
                },
                generated: false,
            },
        )
    }

    /// Generates the pass: whatever was there is replaced by the layout of
    /// the current resolution.
    pub fn generate(&mut self)
        requires
            old(self).resolution < usize::MAX,
        ensures
            *final(self) == old(self).after_generate(),
            final(self).layout.path_points == old(self).resolution + 1,
    {
        let points: usize = self.resolution + 1;
        let has_direction: bool = points >= 2;
        self.layout = PassLayout {
            path_points: points,
            cut_edges: if has_direction {
                2
            } else {
                0
            },
            edge_points: if has_direction {
                points
            } else {
                0
            },
            rendered_lines: if has_direction {
                3
            } else {
                1
            },
            depth_samples: if self.depth_modulation {
                points
            } else {
                0
            },
        };
        self.generated = true;
    }

    /// Generates the pass and its geometry.  `sample` gives the point of the
    /// path at a step, `edge` the two edge points at a point of the path, and
    /// `depth` the depth and the shading at a step.  The path has one point
    /// more than the pass has steps, and the layout of the pass counts what
    /// is returned.
    pub fn generate_with<
        P: Copy,
        D,
        S: Fn(usize) -> P,
        E: Fn(Neighbourhood<P>) -> (P, P),
        Q: Fn(usize) -> (D, D),
    >(&mut self, sample: &S, edge: &E, depth: &Q) -> (out: PassOutput<P, D>)
        requires
            old(self).resolution < usize::MAX,
            forall|i: usize| i <= old(self).resolution ==> call_requires(*sample, (i,)),
            forall|n: Neighbourhood<P>| call_requires(*edge, (n,)),
            forall|i: usize| i <= old(self).resolution ==> call_requires(*depth, (i,)),
        ensures
            *final(self) == old(self).after_generate(),
            produced_by(
                out,
                old(self).resolution,
                old(self).depth_modulation,
                *sample,
                *edge,
                *depth,
            ),
            out.tool_path@.len() == old(self).resolution + 1,
            describes(final(self).layout, out),
    {
        let resolution: usize = self.resolution;
        let tool_path: Vec<P> = trace(resolution, sample);
        let cut_edges: Vec<Vec<P>> = offset_edges(tool_path.as_slice(), edge);

        let mut rendered_lines: Vec<Vec<P>> = Vec::new();
        rendered_lines.push(copy_arc(tool_path.as_slice(), 0, tool_path.len()));
        assert(tool_path@.subrange(0, tool_path@.len() as int) =~= tool_path@);
        let mut side: usize = 0;
        while side < cut_edges.len()
            invariant
                side <= cut_edges@.len(),
                curves(rendered_lines@) == seq![tool_path@] + curves(cut_edges@).subrange(
                    0,
                    side as int,
                ),
            decreases cut_edges@.len() - side,
        {
            let line: &Vec<P> = &cut_edges[side];
            let copy: Vec<P> = copy_arc(line.as_slice(), 0, line.len());
            assert(line@.subrange(0, line@.len() as int) =~= line@);
            let ghost before = curves(rendered_lines@);
            rendered_lines.push(copy);
            assert(curves(rendered_lines@) =~= before.push(line@));
            assert(curves(cut_edges@).subrange(0, side + 1) =~= curves(cut_edges@).subrange(
                0,
                side as int,
            ).push(line@));
            side = side + 1;
        }
        assert(curves(cut_edges@).subrange(0, cut_edges@.len() as int) =~= curves(cut_edges@));

        let mut depth_map: Vec<D> = Vec::new();
        let mut shading: Vec<D> = Vec::new();
        if self.depth_modulation {
            let mut step: usize = 0;
            while step <= resolution
                invariant
                    resolution < usize::MAX,
                    step <= resolution + 1,
                    depth_map@.len() == step,
                    shading@.len() == step,
                    forall|i: usize| i <= resolution ==> call_requires(*depth, (i,)),
                    forall|i: int|
                        0 <= i < step ==> call_ensures(
                            *depth,
                            (i as usize,),
                            (#[trigger] depth_map@[i], shading@[i]),
                        ),
                decreases resolution + 1 - step,
            {
                let (deep, shade): (D, D) = depth(step);
                depth_map.push(deep);
                shading.push(shade);
                step = step + 1;
            }
        }
        self.generate();
        PassOutput { tool_path, cut_edges, rendered_lines, depth_map, shading }
    }

    /// Lets an export go ahead only once the pass has been generated.
    pub fn check_exportable(&self) -> (r: Result<(), SpirographError>)
        ensures
            r is Ok <==> self.generated,
            r is Err ==> r->Err_0.kind_spec() == ErrorKind::ExportError
                && r->Err_0.detail_spec() == crate::error::not_generated_message(),
    {
        crate::error::check_generated(self.generated)
    }
}

/// Generating a pass a second time changes nothing.
pub proof fn lemma_generate_pass_idempotent(pass: LathePass)
    ensures
        pass.after_generate().after_generate() == pass.after_generate(),
{
}

/// Where each of the three computations has one outcome only, so has the
/// generation: two generations of the same pass produce the same path, the
/// same edges, the same rendered lines and the same depth and shading.
pub proof fn lemma_generation_is_determined<
    P,
    D,
    S: Fn(usize) -> P,
    E: Fn(Neighbourhood<P>) -> (P, P),
    Q: Fn(usize) -> (D, D),
>(
    first: PassOutput<P, D>,
    second: PassOutput<P, D>,
    resolution: usize,
    depth_modulation: bool,
    sample: S,
    edge: E,
    depth: Q,
)
    requires
        produced_by(first, resolution, depth_modulation, sample, edge, depth),
        produced_by(second, resolution, depth_modulation, sample, edge, depth),
        forall|i: usize, a: P, b: P|
            call_ensures(sample, (i,), a) && call_ensures(sample, (i,), b) ==> a == b,
        forall|n: Neighbourhood<P>, a: (P, P), b: (P, P)|
            call_ensures(edge, (n,), a) && call_ensures(edge, (n,), b) ==> a == b,
        forall|i: usize, a: (D, D), b: (D, D)|
            call_ensures(depth, (i,), a) && call_ensures(depth, (i,), b) ==> a == b,
    ensures
        first.tool_path@ == second.tool_path@,
        curves(first.cut_edges@) == curves(second.cut_edges@),
        curves(first.rendered_lines@) == curves(second.rendered_lines@),
        first.depth_map@ == second.depth_map@,
        first.shading@ == second.shading@,
{
    assert forall|i: int| 0 <= i <= resolution implies first.tool_path@[i]
        == second.tool_path@[i] by {
        assert(call_ensures(sample, (i as usize,), first.tool_path@[i]));
        assert(call_ensures(sample, (i as usize,), second.tool_path@[i]));
    }
    assert(first.tool_path@ =~= second.tool_path@);
    let path = first.tool_path@;
    if resolution >= 1 {
        let (l1, r1) = (first.cut_edges@[0]@, first.cut_edges@[1]@);
        let (l2, r2) = (second.cut_edges@[0]@, second.cut_edges@[1]@);
        assert forall|i: int| 0 <= i < path.len() implies l1[i] == l2[i] && r1[i] == r2[i] by {
            assert(call_ensures(edge, (neighbourhood_at(path, i),), (l1[i], r1[i])));
            assert(call_ensures(edge, (neighbourhood_at(path, i),), (l2[i], r2[i])));
        }
        assert(l1 =~= l2);
        assert(r1 =~= r2);
    }
    assert(curves(first.cut_edges@) =~= curves(second.cut_edges@));
    if depth_modulation {
        assert forall|i: int| 0 <= i <= resolution implies first.depth_map@[i]
            == second.depth_map@[i] && first.shading@[i] == second.shading@[i] by {
            assert(call_ensures(
                depth,
                (i as usize,),
                (first.depth_map@[i], first.shading@[i]),
            ));
            assert(call_ensures(
                depth,
                (i as usize,),
                (second.depth_map@[i], second.shading@[i]),
            ));
        }
    }
    assert(first.depth_map@ =~= second.depth_map@);
    assert(first.shading@ =~= second.shading@);
}

/// A generated pass has one path point more than it has steps, an edge on
/// each side with as many points as the path, and depth samples only where
/// the depth is modulated.
pub proof fn lemma_generated_pass_layout(pass: LathePass)
    requires
        pass.resolution < usize::MAX,
    ensures
        pass.after_generate().generated,
        pass.after_generate().layout.path_points == pass.resolution + 1,
        pass.after_generate().layout.cut_edges == 2 <==> pass.resolution >= 1,
        pass.resolution >= 1 ==> pass.after_generate().layout.edge_points == pass.resolution + 1,
        pass.after_generate().layout.rendered_lines == 1
            + pass.after_generate().layout.cut_edges,
        pass.after_generate().layout.depth_samples == (if pass.depth_modulation {
            pass.resolution + 1
        } else {
            0
        }),
{
}

} // verus!
