use rose_engine::lathe::LathePass;
use rose_engine::lathe::Neighbourhood;
use rose_engine::run::ring_offset_doubled;
use rose_engine::run::Curve;
use rose_engine::run::RunPlan;
use rose_engine::trace::trace;
use std::f64::consts::PI;

type Point = (f64, f64);

fn distance(a: Point, b: Point) -> f64 {
    ((a.0 - b.0).powi(2) + (a.1 - b.1).powi(2)).sqrt()
}

fn no_edges(around: Neighbourhood<Point>) -> (Point, Point) {
    match around {
        Neighbourhood::First { here, .. } => (here, here),
        Neighbourhood::Last { here, .. } => (here, here),
        Neighbourhood::Inner { here, .. } => (here, here),
    }
}

#[test]
fn twelve_tangent_circles_match_an_independent_reference() {
    let (num_circles, circle_radius, resolution) = (12usize, 10.0_f64, 36usize);
    let mut plan =
        RunPlan::tangent_circles(num_circles, resolution, !(circle_radius <= 0.0)).unwrap();
    plan.generate();

    let lines = plan.draw(&|curve: Curve| match curve {
        Curve::Circle { index, circles } => {
            let turn = (index as f64) * (2.0 * PI / (circles as f64));
            let (cx, cy) = (circle_radius * turn.cos(), circle_radius * turn.sin());
            Some(trace(resolution, &|j: usize| {
                let theta = 2.0 * PI * ((j as f64) / (resolution as f64));
                (cx + circle_radius * theta.cos(), cy + circle_radius * theta.sin())
            }))
        }
        _ => None,
    });

    assert_eq!(lines.len(), 12);
    for (i, line) in lines.iter().enumerate() {
        assert_eq!(line.len(), 37);
        let cx = 10.0 * (2.0 * PI * (i as f64) / 12.0).cos();
        let cy = 10.0 * (2.0 * PI * (i as f64) / 12.0).sin();
        for (j, point) in line.iter().enumerate() {
            let t = (j as f64) / 36.0;
            let want = (cx + 10.0 * (2.0 * PI * t).cos(), cy + 10.0 * (2.0 * PI * t).sin());
            assert!(distance(*point, want) < 1e-10);
        }
    }
}

struct Drapery {
    num_rings: usize,
    base_radius: f64,
    radius_step: f64,
    wave_frequency: f64,
    phase_shift: f64,
    phase_oscillations: f64,
    resolution: usize,
    circular_phase: f64,
}

impl Drapery {
    fn phase_shape(&self, t: f64) -> f64 {
        let s = t.sin();
        (1.0 - (1.0 - s.abs()).powf(self.circular_phase)) * s.signum()
    }

    fn amplitude(&self) -> f64 {
        let dt_ring = 2.0 * PI * self.phase_oscillations / (self.num_rings as f64);
        let mut max_diff = 0.0_f64;
        for k in 0..1000usize {
            let t = 2.0 * PI * (k as f64) / 1000.0;
            max_diff = max_diff.max((self.phase_shape(t + dt_ring) - self.phase_shape(t)).abs());
        }
        let sin_term = (self.wave_frequency * self.phase_shift * max_diff / 2.0).sin().abs();
        let by_phase = self.radius_step / (2.0 * sin_term);
        let innermost =
            self.base_radius - ((self.num_rings as f64 - 1.0) / 2.0) * self.radius_step;
        0.6 * by_phase.min(innermost * 0.9)
    }

    fn base_phase(&self) -> f64 {
        PI / 2.0 + PI / (2.0 * self.wave_frequency)
    }

    fn radius(&self, ring_radius: f64, phase: f64, angle: f64) -> f64 {
        ring_radius + self.amplitude() * ((angle + phase) * self.wave_frequency).sin()
    }
}

#[test]
fn twenty_drapery_rings_match_the_ring_formula_and_never_cross() {
    let d = Drapery {
        num_rings: 20,
        base_radius: 15.0,
        radius_step: 0.44,
        wave_frequency: 12.0,
        phase_shift: PI / 12.0,
        phase_oscillations: 2.5,
        resolution: 100,
        circular_phase: 2.0,
    };
    let amplitude = d.amplitude();
    let mut plan = RunPlan::concentric_rings(d.num_rings, !(d.base_radius <= 0.0)).unwrap();
    plan.set_ring_mode(d.radius_step != 0.0);
    plan.generate();

    let lines = plan.draw(&|curve: Curve| match curve {
        Curve::Pass { index, passes } => {
            let offset = (ring_offset_doubled(index, passes) as f64) / 2.0;
            let ring_radius = d.base_radius + offset * d.radius_step;
            let phase_t = 2.0 * PI * d.phase_oscillations * (index as f64) / (passes as f64);
            let phase = d.base_phase() + d.phase_shift * d.phase_shape(phase_t);
            let mut pass =
                LathePass::new(!(ring_radius <= 0.0), !(amplitude < 0.0), d.resolution, false)
                    .ok()?;
            let angle_step = 2.0 * PI / (d.resolution as f64);
            let out = pass.generate_with(
                &|i: usize| {
                    let angle = (i as f64) * angle_step;
                    let r = d.radius(ring_radius, phase, angle);
                    (r * angle.cos(), r * angle.sin())
                },
                &no_edges,
                &|_i: usize| (0.0_f64, 0.0_f64),
            );
            Some(out.tool_path)
        }
        _ => None,
    });

    assert_eq!(lines.len(), 20);
    let mut radii: Vec<Vec<f64>> = Vec::new();
    for (i, line) in lines.iter().enumerate() {
        assert_eq!(line.len(), 101);
        let ring_radius = 15.0 + ((i as f64) - 19.0 / 2.0) * 0.44;
        let phase = d.base_phase()
            + (PI / 12.0) * d.phase_shape(2.0 * PI * 2.5 * (i as f64) / 20.0);
        let mut ring: Vec<f64> = Vec::new();
        for (j, point) in line.iter().enumerate() {
            let angle = 2.0 * PI * (j as f64) / 100.0;
            let r = ring_radius + amplitude * ((angle + phase) * 12.0).sin();
            assert!(distance(*point, (r * angle.cos(), r * angle.sin())) < 1e-10);
            ring.push((point.0 * point.0 + point.1 * point.1).sqrt());
        }
        radii.push(ring);
    }
    for i in 1..radii.len() {
        for j in 0..radii[i].len() {
            assert!(radii[i][j] >= radii[i - 1][j]);
        }
    }
}
