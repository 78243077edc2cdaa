//! A run of many passes: what it checks, which generator it uses, and which
//! curves it draws in which order.
//!
//! A run draws with exactly one generator.  The two general ones send the
//! lathe round once per pass, turning the pattern a little further each time
//! (phase rotation) or moving to the next ring (concentric rings), and cut
//! every pass into arcs.  The four special ones trace a closed form directly:
//! circles through the centre, lemniscates, chevron rings, and a fan of lines
//! from a vanishing point.  This module holds the plan of a run: the list of
//! curves to trace.  Tracing them is the caller's part.

use vstd::prelude::*;
use crate::clusters::rotation_plan;
use crate::clusters::rotations;
use crate::clusters::Rotation;
use crate::error::ErrorKind;
use crate::error::SpirographError;
use crate::segments::curves;
use crate::segments::segment_path;
use crate::segments::segments_of;

verus! {

/// Segments per pass where the caller names none.
pub const DEFAULT_SEGMENTS: usize = 24;

/// Steps along a chevron ring for each of its petals.
pub const CHEVRON_STEPS_PER_PETAL: usize = 80;

/// The generator of a run.
#[derive(Debug, Clone, Copy, PartialEq, Eq, Structural)]
pub enum Generator {
    /// One pass per step of the full turn, each with its phase turned on.
    PhaseRotation,
    /// One pass per ring, each with its own base radius and phase.
    ConcentricRing,
    /// Circles of one radius whose centres lie evenly on a circle of that
    /// radius round the centre.
    TangentCircles { num_circles: usize, resolution: usize },
    /// Lemniscates through the centre, spread evenly or in clusters.
    Lemniscates { num_curves: usize, resolution: usize, num_clusters: usize },
    /// Closed rings with one chevron per petal, between an inner and an outer
    /// radius.
    ChevronRings { num_petals: usize, num_waves: usize },
    /// Lines that fan out from a vanishing point.
    Fan { num_lines: usize, resolution: usize },
}

/// One curve of a run.
#[derive(Debug, Clone, Copy, PartialEq, Eq, Structural)]
pub enum Curve {
    /// Pass `index` of `passes` of a general generator.
    Pass { index: usize, passes: usize },
    /// Circle `index` of `circles`.
    Circle { index: usize, circles: usize },
    /// A lemniscate at the given place.
    Lemniscate { rotation: Rotation },
    /// Ring `ring` of `rings`, counted from the inside.
    ChevronRing { ring: usize, rings: usize },
    /// Line `line` of `lines` of a fan.
    FanLine { line: usize, lines: usize },
}

impl Generator {
    /// Whether the generator is one of the four that trace a closed form.
    pub open spec fn is_special(self) -> bool {
        !(self is PhaseRotation || self is ConcentricRing)
    }

    /// Number of samples of each curve, where a pass of a general generator
    /// has `pass_resolution` steps.  A curve of `n` steps has `n + 1` samples:
    /// both ends are sampled.
    pub open spec fn samples(self, pass_resolution: usize) -> int {
        match self {
            Generator::PhaseRotation => pass_resolution + 1,
            Generator::ConcentricRing => pass_resolution + 1,
            Generator::TangentCircles { resolution, .. } => resolution + 1,
            Generator::Lemniscates { resolution, .. } => resolution + 1,
            Generator::ChevronRings { num_petals, .. } => num_petals * 80 + 1,
            Generator::Fan { resolution, .. } => resolution + 1,
        }
    }

    /// Number of samples of each curve, or `None` where the number does not
    /// fit the machine.
    pub fn samples_per_curve(self, pass_resolution: usize) -> (n: Option<usize>)
        ensures
            match n {
                Some(n) => n == self.samples(pass_resolution),
                None => self.samples(pass_resolution) > usize::MAX,
            },
    {
        let steps: Option<usize> = match self {
            Generator::PhaseRotation => Some(pass_resolution),
            Generator::ConcentricRing => Some(pass_resolution),
            Generator::TangentCircles { num_circles: _, resolution } => Some(resolution),
            Generator::Lemniscates { num_curves: _, resolution, num_clusters: _ } => Some(
                resolution,
            ),
            Generator::ChevronRings { num_petals, num_waves: _ } => num_petals.checked_mul(
                CHEVRON_STEPS_PER_PETAL,
            ),
            Generator::Fan { num_lines: _, resolution } => Some(resolution),
        };
        match steps {
            Some(s) => s.checked_add(1),
            None => None,
        }
    }
}

/// The curves that a generator draws, in order.  The general generators draw
/// `num_passes` passes; the special ones go by their own counts.
pub open spec fn schedule_of(generator: Generator, num_passes: usize) -> Seq<Curve> {
    match generator {
        Generator::PhaseRotation => Seq::new(
            num_passes as nat,
            |i: int| Curve::Pass { index: i as usize, passes: num_passes },
        ),
        Generator::ConcentricRing => Seq::new(
            num_passes as nat,
            |i: int| Curve::Pass { index: i as usize, passes: num_passes },
        ),
        Generator::TangentCircles { num_circles, .. } => Seq::new(
            num_circles as nat,
            |i: int| Curve::Circle { index: i as usize, circles: num_circles },
        ),
        Generator::Lemniscates { num_curves, num_clusters, .. } => Seq::new(
            num_curves as nat,
            |i: int|
                Curve::Lemniscate {
                    rotation: rotations(num_curves as nat, num_clusters as nat)[i],
                },
        ),
        Generator::ChevronRings { num_waves, .. } => Seq::new(
            num_waves as nat,
            |i: int| Curve::ChevronRing { ring: i as usize, rings: num_waves },
        ),
        Generator::Fan { num_lines, .. } => Seq::new(
            num_lines as nat,
            |i: int| Curve::FanLine { line: i as usize, lines: num_lines },
        ),
    }
}

/// Why a run with these parameters is refused, if it is: the first of the
/// three conditions that fails, in this order.
pub open spec fn run_fault(
    num_passes: usize,
    segments_per_pass: usize,
    base_radius_positive: bool,
) -> Option<Seq<char>> {
    if num_passes == 0 {
        Some("num_passes must be at least 1"@)
    } else if segments_per_pass == 0 {
        Some("segments_per_pass must be at least 1"@)
    } else if !base_radius_positive {
        Some("base_radius must be positive"@)
    } else {
        None
    }
}

/// Refuses a run without passes, without segments, or without a positive
/// base radius.
pub fn check_run_parameters(
    num_passes: usize,
    segments_per_pass: usize,
    base_radius_positive: bool,
) -> (r: Result<(), SpirographError>)
    ensures
        match r {
            Ok(_) => run_fault(num_passes, segments_per_pass, base_radius_positive) is None,
            Err(e) => e.kind_spec() == ErrorKind::InvalidParameter && run_fault(
                num_passes,
                segments_per_pass,
                base_radius_positive,
            ) == Some(e.detail_spec()),
        },
{
    if num_passes == 0 {
        return Err(SpirographError::invalid_parameter("num_passes must be at least 1"));
    }
    if segments_per_pass == 0 {
        return Err(SpirographError::invalid_parameter("segments_per_pass must be at least 1"));
    }
    if !base_radius_positive {
        return Err(SpirographError::invalid_parameter("base_radius must be positive"));
    }
    Ok(())
}

/// Twice the distance of ring `index` from the middle of a stack of `passes`
/// rings, counted in ring steps.  The rings lie symmetrically round the
/// configured radius, so the distance itself may be half a step.
pub open spec fn doubled_offset(index: nat, passes: nat) -> int {
    2 * index - (passes - 1)
}

/// Twice the distance of ring `index` from the middle of a stack of `passes`
/// rings.
pub fn ring_offset_doubled(index: usize, passes: usize) -> (d: i128)
    requires
        index < passes,
    ensures
        d == doubled_offset(index as nat, passes as nat),
{
    let twice: i128 = 2 * (index as i128);
    twice - ((passes - 1) as i128)
}

/// The rings of a stack lie symmetrically round its middle, one ring step
/// apart: the ring as far from the outside as ring `index` is from the inside
/// has the opposite offset, and each ring lies a step further out than the
/// one before.
pub proof fn lemma_rings_are_centred(index: nat, passes: nat)
    requires
        index < passes,
    ensures
        doubled_offset(index, passes) + doubled_offset((passes - 1 - index) as nat, passes) == 0,
        index + 1 < passes ==> doubled_offset(index + 1, passes) == doubled_offset(index, passes)
            + 2,
        -(passes - 1) <= doubled_offset(index, passes) <= passes - 1,
{
}

/// The polylines that one traced curve adds to the pattern.  A curve that
/// was not traced adds none.  A pass of a general generator is cut into arcs.
/// A curve of a special generator is taken whole; only a fan line of fewer
/// than two points is dropped.
pub open spec fn lines_of<P>(generator: Generator, segments_per_pass: usize, path: Option<Seq<P>>) -> Seq<
    Seq<P>,
> {
    match path {
        None => Seq::empty(),
        Some(p) => if !generator.is_special() {
            segments_of(p, segments_per_pass as nat)
        } else if generator is Fan && p.len() < 2 {
            Seq::empty()
        } else {
            seq![p]
        },
    }
}

/// The pattern: the polylines of all traced curves, in the order of the
/// curves.
pub open spec fn assembled<P>(
    generator: Generator,
    segments_per_pass: usize,
    paths: Seq<Option<Seq<P>>>,
) -> Seq<Seq<P>>
    decreases paths.len(),
{
    if paths.len() == 0 {
        Seq::empty()
    } else {
        assembled(generator, segments_per_pass, paths.drop_last()) + lines_of(
            generator,
            segments_per_pass,
            paths.last(),
        )
    }
}

/// The paths as sequences of samples.
pub open spec fn path_views<P>(paths: Seq<Option<Vec<P>>>) -> Seq<Option<Seq<P>>> {
    Seq::new(
        paths.len(),
        |i: int|
            match paths[i] {
                Some(v) => Some(v@),
                None => None,
            },
    )
}

/// Whether `paths` holds, for each curve, a value that `trace_curve` may
/// return for it.
pub open spec fn traced_by<P, F: Fn(Curve) -> Option<Vec<P>>>(
    paths: Seq<Option<Vec<P>>>,
    schedule: Seq<Curve>,
    trace_curve: F,
) -> bool {
    &&& paths.len() == schedule.len()
    &&& forall|i: int|
        0 <= i < schedule.len() ==> call_ensures(trace_curve, (schedule[i],), #[trigger] paths[i])
}

/// What a plan holds, as plain values.
pub struct RunView {
    /// Number of passes of a general generator.
    pub num_passes: usize,
    /// Number of arcs that each pass of a general generator is cut into.
    pub segments_per_pass: usize,
    /// The generator.
    pub generator: Generator,
    /// The curves of the last generation, in order.
    pub curves: Seq<Curve>,
    /// Whether anything was generated.
    pub generated: bool,
}

impl RunView {
    /// A plan as construction leaves it: the given configuration, and nothing
    /// generated.
    pub open spec fn fresh(
        num_passes: usize,
        segments_per_pass: usize,
        generator: Generator,
    ) -> RunView {
        RunView {
            num_passes,
            segments_per_pass,
            generator,
            curves: Seq::empty(),
            generated: false,
        }
    }

    /// The plan after a generation: the configuration is kept and the curves
    /// are those of the generator.
    pub open spec fn after_generate(self) -> RunView {
        RunView {
            num_passes: self.num_passes,
            segments_per_pass: self.segments_per_pass,
            generator: self.generator,
            curves: schedule_of(self.generator, self.num_passes),
            generated: true,
        }
    }
}

/// The plan of a run.
#[derive(Debug, Clone)]
pub struct RunPlan {
    num_passes: usize,
    segments_per_pass: usize,
    generator: Generator,
    schedule: Vec<Curve>,
    generated: bool,
}

impl View for RunPlan {
    type V = RunView;

    closed spec fn view(&self) -> RunView {
        RunView {
            num_passes: self.num_passes,
            segments_per_pass: self.segments_per_pass,
            generator: self.generator,
            curves: self.schedule@,
            generated: self.generated,
        }
    }
}

impl RunPlan {
    /// What construction returns for the given parameters: the error of the
    /// first failing condition, or a fresh plan.
    pub open spec fn constructed(
        r: Result<RunPlan, SpirographError>,
        num_passes: usize,
        segments_per_pass: usize,
        base_radius_positive: bool,
        generator: Generator,
    ) -> bool {
        match r {
            Ok(plan) => run_fault(num_passes, segments_per_pass, base_radius_positive) is None
                && plan@ == RunView::fresh(num_passes, segments_per_pass, generator),
            Err(e) => e.kind_spec() == ErrorKind::InvalidParameter && run_fault(
                num_passes,
                segments_per_pass,
                base_radius_positive,
            ) == Some(e.detail_spec()),
        }
    }

    fn build(
        num_passes: usize,
        segments_per_pass: usize,
        base_radius_positive: bool,
        generator: Generator,
    ) -> (r: Result<RunPlan, SpirographError>)
        ensures
            RunPlan::constructed(
                r,
                num_passes,
                segments_per_pass,
                base_radius_positive,
                generator,
            ),
    {
        match check_run_parameters(num_passes, segments_per_pass, base_radius_positive) {
            Err(e) => Err(e),
            Ok(_) => Ok(
                RunPlan {
                    num_passes,
                    segments_per_pass,
                    generator,
                    schedule: Vec::new(),
                    generated: false,
                },
            ),
        }
    }

    /// A phase-rotation run cut into 24 arcs per pass.  The flag says how the
    /// caller's test on the base radius (above zero) came out.
    pub fn new(num_passes: usize, base_radius_positive: bool) -> (r: Result<
        RunPlan,
        SpirographError,
    >)
        ensures
            RunPlan::constructed(
                r,
                num_passes,
                24,
                base_radius_positive,
                Generator::PhaseRotation,
            ),
    {
        RunPlan::build(
            num_passes,
            DEFAULT_SEGMENTS,
            base_radius_positive,
            Generator::PhaseRotation,
        )
    }

    /// A phase-rotation run cut into `segments_per_pass` arcs per pass.
    pub fn new_with_segments(
        num_passes: usize,
        segments_per_pass: usize,
        base_radius_positive: bool,
    ) -> (r: Result<RunPlan, SpirographError>)
        ensures
            RunPlan::constructed(
                r,
                num_passes,
                segments_per_pass,
                base_radius_positive,
                Generator::PhaseRotation,
            ),
    {
        RunPlan::build(
            num_passes,
            segments_per_pass,
            base_radius_positive,
            Generator::PhaseRotation,
        )
    }

    /// A run of `num_rings` unbroken concentric rings.
    pub fn concentric_rings(num_rings: usize, base_radius_positive: bool) -> (r: Result<
        RunPlan,
        SpirographError,
    >)
        ensures
            RunPlan::constructed(
                r,
                num_rings,
                1,
                base_radius_positive,
                Generator::ConcentricRing,
            ),
    {
        RunPlan::build(num_rings, 1, base_radius_positive, Generator::ConcentricRing)
    }

    /// A run of `num_circles` circles through the centre, of `resolution`
    /// steps each.
    pub fn tangent_circles(num_circles: usize, resolution: usize, radius_positive: bool) -> (r:
        Result<RunPlan, SpirographError>)
        ensures
            RunPlan::constructed(
                r,
                num_circles,
                1,
                radius_positive,
                Generator::TangentCircles { num_circles, resolution },
            ),
    {
        RunPlan::build(
            num_circles,
            1,
            radius_positive,
            Generator::TangentCircles { num_circles, resolution },
        )
    }

    /// A run of `num_curves` lemniscates of `resolution` steps each, in
    /// `num_clusters` clusters (or spread evenly, see
    /// [`crate::clusters::is_clustered`]).
    pub fn lemniscates(
        num_curves: usize,
        resolution: usize,
        num_clusters: usize,
        scale_positive: bool,
    ) -> (r: Result<RunPlan, SpirographError>)
        ensures
            RunPlan::constructed(
                r,
                num_curves,
                1,
                scale_positive,
                Generator::Lemniscates { num_curves, resolution, num_clusters },
            ),
    {
        RunPlan::build(
            num_curves,
            1,
            scale_positive,
            Generator::Lemniscates { num_curves, resolution, num_clusters },
        )
    }

    /// A run of `num_waves` chevron rings of `num_petals` petals each.
    pub fn chevron_rings(num_petals: usize, num_waves: usize, radius_positive: bool) -> (r:
        Result<RunPlan, SpirographError>)
        ensures
            RunPlan::constructed(
                r,
                num_waves,
                1,
                radius_positive,
                Generator::ChevronRings { num_petals, num_waves },
            ),
    {
        RunPlan::build(
            num_waves,
            1,
            radius_positive,
            Generator::ChevronRings { num_petals, num_waves },
        )
    }

    /// A fan of `num_lines` lines with `resolution` steps each.
    pub fn fan(num_lines: usize, resolution: usize, radius_positive: bool) -> (r: Result<
        RunPlan,
        SpirographError,
    >)
        ensures
            RunPlan::constructed(
                r,
                num_lines,
                1,
                radius_positive,
                Generator::Fan { num_lines, resolution },
            ),
    {
        RunPlan::build(num_lines, 1, radius_positive, Generator::Fan { num_lines, resolution })
    }

    /// Chooses between the two general generators: concentric rings where the
    /// radius step is not zero, phase rotation where it is.  A special
    /// generator stays: it always takes precedence.
    pub fn set_ring_mode(&mut self, radius_step_nonzero: bool)
        ensures
            final(self)@ == (RunView {
                generator: if old(self)@.generator.is_special() {
                    old(self)@.generator
                } else if radius_step_nonzero {
                    Generator::ConcentricRing
                } else {
                    Generator::PhaseRotation
                },
                ..old(self)@
            }),
    {
        match self.generator {
            Generator::PhaseRotation | Generator::ConcentricRing => {
                self.generator = if radius_step_nonzero {
                    Generator::ConcentricRing
                } else {
                    Generator::PhaseRotation
                };
            },
            _ => {},
        }
    }

    /// Generates the run: whatever was there is replaced by the curves of the
    /// generator.
    pub fn generate(&mut self)
        ensures
            final(self)@ == old(self)@.after_generate(),
    {
        let mut schedule: Vec<Curve> = Vec::new();
        match self.generator {
            Generator::PhaseRotation | Generator::ConcentricRing => {
                let passes: usize = self.num_passes;
                let mut index: usize = 0;
                while index < passes
                    invariant
                        index <= passes,
                        schedule@.len() == index,
                        forall|i: int|
                            0 <= i < index ==> schedule@[i] == (Curve::Pass {
                                index: i as usize,
                                passes,
                            }),
                    decreases passes - index,
                {
                    schedule.push(Curve::Pass { index, passes });
                    index = index + 1;
                }
            },
            Generator::TangentCircles { num_circles, resolution: _ } => {
                let mut index: usize = 0;
                while index < num_circles
                    invariant
                        index <= num_circles,
                        schedule@.len() == index,
                        forall|i: int|
                            0 <= i < index ==> schedule@[i] == (Curve::Circle {
                                index: i as usize,
                                circles: num_circles,
                            }),
                    decreases num_circles - index,
                {
                    schedule.push(Curve::Circle { index, circles: num_circles });
                    index = index + 1;
                }
            },
            Generator::Lemniscates { num_curves, resolution: _, num_clusters } => {
                let places: Vec<Rotation> = rotation_plan(num_curves, num_clusters);
                let mut index: usize = 0;
                while index < places.len()
                    invariant
                        index <= places@.len(),
                        places@ == rotations(num_curves as nat, num_clusters as nat),
                        schedule@.len() == index,
                        forall|i: int|
                            0 <= i < index ==> schedule@[i] == (Curve::Lemniscate {
                                rotation: places@[i],
                            }),
                    decreases places@.len() - index,
                {
                    schedule.push(Curve::Lemniscate { rotation: places[index] });
                    index = index + 1;
                }
            },
            Generator::ChevronRings { num_petals: _, num_waves } => {
                let mut ring: usize = 0;
                while ring < num_waves
                    invariant
                        ring <= num_waves,
                        schedule@.len() == ring,
                        forall|i: int|
                            0 <= i < ring ==> schedule@[i] == (Curve::ChevronRing {
                                ring: i as usize,
                                rings: num_waves,
                            }),
                    decreases num_waves - ring,
                {
                    schedule.push(Curve::ChevronRing { ring, rings: num_waves });
                    ring = ring + 1;
                }
            },
            Generator::Fan { num_lines, resolution: _ } => {
                let mut line: usize = 0;
                while line < num_lines
                    invariant
                        line <= num_lines,
                        schedule@.len() == line,
                        forall|i: int|
                            0 <= i < line ==> schedule@[i] == (Curve::FanLine {
                                line: i as usize,
                                lines: num_lines,
                            }),
                    decreases num_lines - line,
                {
                    schedule.push(Curve::FanLine { line, lines: num_lines });
                    line = line + 1;
                }
            },
        }
        assert(schedule@ =~= schedule_of(self.generator, self.num_passes));
        self.schedule = schedule;
        self.generated = true;
    }

    /// Draws the pattern: has every curve of the last generation traced by
    /// `trace_curve`, in order, and puts together what comes back.  Where
    /// `trace_curve` returns `None` the curve is left out.
    pub fn draw<P: Copy, F: Fn(Curve) -> Option<Vec<P>>>(&self, trace_curve: &F) -> (lines: Vec<
        Vec<P>,
    >)
        requires
            forall|i: int|
                0 <= i < self@.curves.len() ==> call_requires(
                    *trace_curve,
                    (#[trigger] self@.curves[i],),
                ),
        ensures
            exists|paths: Seq<Option<Vec<P>>>|
                traced_by(paths, self@.curves, *trace_curve) && curves(lines@) == assembled(
                    self@.generator,
                    self@.segments_per_pass,
                    path_views(paths),
                ),
    {
        let mut lines: Vec<Vec<P>> = Vec::new();
        let ghost mut paths: Seq<Option<Vec<P>>> = Seq::empty();
        let special: bool = match self.generator {
            Generator::PhaseRotation | Generator::ConcentricRing => false,
            _ => true,
        };
        let fan: bool = match self.generator {
            Generator::Fan { num_lines: _, resolution: _ } => true,
            _ => false,
        };
        let mut index: usize = 0;
        assert(curves(lines@) =~= assembled(
            self@.generator,
            self@.segments_per_pass,
            path_views(paths),
        ));
        while index < self.schedule.len()
            invariant
                index <= self.schedule@.len(),
                special == self.generator.is_special(),
                fan == (self.generator is Fan),
                paths.len() == index,
                forall|i: int|
                    0 <= i < self@.curves.len() ==> call_requires(
                        *trace_curve,
                        (#[trigger] self@.curves[i],),
                    ),
                forall|i: int|
                    0 <= i < index ==> call_ensures(
                        *trace_curve,
                        (self.schedule@[i],),
                        #[trigger] paths[i],
                    ),
                curves(lines@) == assembled(
                    self.generator,
                    self.segments_per_pass,
                    path_views(paths),
                ),
            decreases self.schedule@.len() - index,
        {
            assert(self@.curves[index as int] == self.schedule@[index as int]);
            let traced: Option<Vec<P>> = trace_curve(self.schedule[index]);
            let ghost before = curves(lines@);
            proof {
                assert(paths.push(traced).drop_last() =~= paths);
                assert(path_views(paths.push(traced)).drop_last() =~= path_views(paths));
                paths = paths.push(traced);
            }
            match traced {
                None => {
                    assert(curves(lines@) =~= before + Seq::<Seq<P>>::empty());
                },
                Some(path) => {
                    if !special {
                        segment_path(&mut lines, path.as_slice(), self.segments_per_pass);
                    } else if fan && path.len() < 2 {
                        assert(curves(lines@) =~= before + Seq::<Seq<P>>::empty());
                    } else {
                        lines.push(path);
                        assert(curves(lines@) =~= before + seq![path@]);
                    }
                },
            }
            index = index + 1;
        }
        proof {
            assert(traced_by(paths, self@.curves, *trace_curve));
        }
        lines
    }

    /// The number of passes.
    pub fn num_passes(&self) -> (n: usize)
        ensures
            n == self@.num_passes,
    {
        self.num_passes
    }

    /// The number of arcs per pass.
    pub fn segments_per_pass(&self) -> (n: usize)
        ensures
            n == self@.segments_per_pass,
    {
        self.segments_per_pass
    }

    /// The generator.
    pub fn generator(&self) -> (g: Generator)
        ensures
            g == self@.generator,
    {
        self.generator
    }

    /// Changes the number of passes.  Nothing is checked and nothing is
    /// generated anew: a run without passes draws nothing.
    pub fn set_num_passes(&mut self, num_passes: usize)
        ensures
            final(self)@ == (RunView { num_passes, ..old(self)@ }),
    {
        self.num_passes = num_passes;
    }

    /// Changes the number of arcs per pass.  Nothing is checked and nothing
    /// is generated anew: a pass cut into no arcs draws nothing.
    pub fn set_segments_per_pass(&mut self, segments_per_pass: usize)
        ensures
            final(self)@ == (RunView { segments_per_pass, ..old(self)@ }),
    {
        self.segments_per_pass = segments_per_pass;
    }

    /// Whether anything was generated.
    pub fn generated(&self) -> (g: bool)
        ensures
            g == self@.generated,
    {
        self.generated
    }

    /// The curves of the last generation, in order.
    pub fn schedule(&self) -> (s: &Vec<Curve>)
        ensures
            s@ == self@.curves,
    {
        &self.schedule
    }

    /// Lets an export go ahead only once the run has been generated.
    pub fn check_exportable(&self) -> (r: Result<(), SpirographError>)
        ensures
            r is Ok <==> self@.generated,
            r is Err ==> r->Err_0.kind_spec() == ErrorKind::ExportError
                && r->Err_0.detail_spec() == crate::error::not_generated_message(),
    {
        crate::error::check_generated(self.generated)
    }
}

/// Construction refuses a run without passes, a run without segments and a
/// run without a positive base radius, and accepts every other.
pub proof fn lemma_construction_rejects(
    num_passes: usize,
    segments_per_pass: usize,
    base_radius_positive: bool,
)
    ensures
        run_fault(num_passes, segments_per_pass, base_radius_positive) is Some <==> (num_passes
            == 0 || segments_per_pass == 0 || !base_radius_positive),
{
}

/// Generating twice without a change in between gives what generating once
/// gives.
pub proof fn lemma_generate_idempotent(plan: RunView)
    ensures
        plan.after_generate().after_generate() == plan.after_generate(),
{
}

/// Whether a traced curve is taken into the pattern as it is: every curve of
/// a special generator but a fan line of fewer than two points, and every
/// pass of a general generator that has a sample and is left unbroken.
pub open spec fn taken_whole<P>(
    generator: Generator,
    segments_per_pass: usize,
    path: Option<Seq<P>>,
) -> bool {
    match path {
        None => false,
        Some(p) => if !generator.is_special() {
            segments_per_pass == 1 && p.len() > 0
        } else {
            !(generator is Fan) || p.len() >= 2
        },
    }
}

/// Where every traced curve is taken whole, the pattern is the traced
/// curves: as many polylines as curves, each with the samples of its curve.
pub proof fn lemma_whole_curves<P>(
    generator: Generator,
    segments_per_pass: usize,
    paths: Seq<Option<Seq<P>>>,
)
    requires
        forall|i: int|
            0 <= i < paths.len() ==> taken_whole(generator, segments_per_pass, #[trigger] paths[i]),
    ensures
        assembled(generator, segments_per_pass, paths).len() == paths.len(),
        forall|i: int|
            0 <= i < paths.len() ==> Some(
                #[trigger] assembled(generator, segments_per_pass, paths)[i],
            ) == paths[i],
    decreases paths.len(),
{
    if paths.len() > 0 {
        let front = paths.drop_last();
        assert forall|i: int| 0 <= i < front.len() implies taken_whole(
            generator,
            segments_per_pass,
            #[trigger] front[i],
        ) by {
            assert(front[i] == paths[i]);
        }
        lemma_whole_curves(generator, segments_per_pass, front);
        let last = paths.last();
        assert(taken_whole(generator, segments_per_pass, paths[paths.len() - 1]));
        assert(lines_of(generator, segments_per_pass, last) == seq![last->Some_0]);
        let whole = assembled(generator, segments_per_pass, paths);
        assert forall|i: int| 0 <= i < paths.len() implies Some(#[trigger] whole[i])
            == paths[i] by {
            if i < front.len() {
                assert(whole[i] == assembled(generator, segments_per_pass, front)[i]);
                assert(front[i] == paths[i]);
            }
        }
    }
}

/// A run whose curves are all taken whole draws as many polylines as its
/// generator counts curves, and where every curve was traced with the number
/// of samples of the generator, each polyline has that number of points.
pub proof fn lemma_pattern_shape<P>(
    generator: Generator,
    num_passes: usize,
    segments_per_pass: usize,
    pass_resolution: usize,
    paths: Seq<Option<Seq<P>>>,
)
    requires
        paths.len() == schedule_of(generator, num_passes).len(),
        forall|i: int|
            0 <= i < paths.len() ==> taken_whole(generator, segments_per_pass, #[trigger] paths[i]),
        forall|i: int|
            0 <= i < paths.len() ==> (#[trigger] paths[i])->Some_0.len() == generator.samples(
                pass_resolution,
            ),
    ensures
        assembled(generator, segments_per_pass, paths).len() == schedule_of(
            generator,
            num_passes,
        ).len(),
        forall|i: int|
            0 <= i < paths.len() ==> (#[trigger] assembled(
                generator,
                segments_per_pass,
                paths,
            )[i]).len() == generator.samples(pass_resolution),
{
    lemma_whole_curves(generator, segments_per_pass, paths);
    let whole = assembled(generator, segments_per_pass, paths);
    assert forall|i: int| 0 <= i < paths.len() implies (#[trigger] whole[i]).len()
        == generator.samples(pass_resolution) by {
        assert(Some(whole[i]) == paths[i]);
    }
}

/// Where the tracing of a curve has one outcome only, so has the drawing of
/// the pattern: two drawings of the same curves by the same tracing are the
/// same pattern.
pub proof fn lemma_drawing_is_determined<P, F: Fn(Curve) -> Option<Vec<P>>>(
    generator: Generator,
    segments_per_pass: usize,
    schedule: Seq<Curve>,
    trace_curve: F,
    first: Seq<Option<Vec<P>>>,
    second: Seq<Option<Vec<P>>>,
)
    requires
        traced_by(first, schedule, trace_curve),
        traced_by(second, schedule, trace_curve),
        forall|c: Curve, a: Option<Vec<P>>, b: Option<Vec<P>>|
            call_ensures(trace_curve, (c,), a) && call_ensures(trace_curve, (c,), b) ==> match (
                a,
                b,
            ) {
                (Some(x), Some(y)) => x@ == y@,
                (None, None) => true,
                _ => false,
            },
    ensures
        assembled(generator, segments_per_pass, path_views(first)) == assembled(
            generator,
            segments_per_pass,
            path_views(second),
        ),
{
    assert forall|i: int| 0 <= i < schedule.len() implies path_views(first)[i] == path_views(
        second,
    )[i] by {
        assert(call_ensures(trace_curve, (schedule[i],), first[i]));
        assert(call_ensures(trace_curve, (schedule[i],), second[i]));
    }
    assert(path_views(first) =~= path_views(second));
}

/// A run draws as many curves as its generator counts: the passes of a
/// general generator, the circles, curves, rings or lines of a special one.
pub proof fn lemma_schedule_length(generator: Generator, num_passes: usize)
    ensures
        schedule_of(generator, num_passes).len() == (match generator {
            Generator::PhaseRotation => num_passes,
            Generator::ConcentricRing => num_passes,
            Generator::TangentCircles { num_circles, .. } => num_circles,
            Generator::Lemniscates { num_curves, .. } => num_curves,
            Generator::ChevronRings { num_waves, .. } => num_waves,
            Generator::Fan { num_lines, .. } => num_lines,
        }),
{
}

} // verus!
