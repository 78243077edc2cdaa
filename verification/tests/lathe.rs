use rose_engine::error::ErrorKind;
use rose_engine::lathe::neighbourhood;
use rose_engine::lathe::LathePass;
use rose_engine::lathe::PassLayout;
use rose_engine::lathe::PassOutput;
use rose_engine::lathe::Neighbourhood;

#[test]
fn a_pass_with_sound_parameters_is_accepted() {
    let pass = LathePass::new(true, true, 1000, false).unwrap();
    assert_eq!(pass.resolution, 1000);
    assert!(!pass.depth_modulation);
    assert!(!pass.generated);
    assert_eq!(
        pass.layout,
        PassLayout { path_points: 0, cut_edges: 0, edge_points: 0, rendered_lines: 0, depth_samples: 0 }
    );
}

#[test]
fn a_pass_without_a_positive_radius_is_refused() {
    let e = LathePass::new(false, true, 1000, false).unwrap_err();
    assert_eq!(e.kind(), ErrorKind::InvalidParameter);
    assert_eq!(e.detail(), "base_radius must be positive");
    assert_eq!(e.to_string(), "Invalid parameter: base_radius must be positive");
}

#[test]
fn a_pass_with_a_negative_amplitude_is_refused() {
    let e = LathePass::new(true, false, 1000, false).unwrap_err();
    assert_eq!(e.kind(), ErrorKind::InvalidParameter);
    assert_eq!(e.detail(), "amplitude must be non-negative");
}

#[test]
fn a_pass_with_too_few_steps_is_refused() {
    let e = LathePass::new(true, true, 9, false).unwrap_err();
    assert_eq!(e.kind(), ErrorKind::InvalidParameter);
    assert_eq!(e.detail(), "resolution must be at least 10");
    assert!(LathePass::new(true, true, 10, false).is_ok());
    assert!(LathePass::new(true, true, 0, true).is_err());
}

#[test]
fn the_radius_is_checked_first_and_the_resolution_last() {
    let e = LathePass::new(false, false, 0, false).unwrap_err();
    assert_eq!(e.detail(), "base_radius must be positive");
    let e = LathePass::new(true, false, 0, false).unwrap_err();
    assert_eq!(e.detail(), "amplitude must be non-negative");
}

#[test]
fn a_generated_pass_has_one_point_more_than_steps() {
    let mut pass = LathePass::new(true, true, 1000, false).unwrap();
    pass.generate();
    assert!(pass.generated);
    assert_eq!(
        pass.layout,
        PassLayout {
            path_points: 1001,
            cut_edges: 2,
            edge_points: 1001,
            rendered_lines: 3,
            depth_samples: 0,
        }
    );
}

#[test]
fn depth_samples_come_with_depth_modulation() {
    let mut pass = LathePass::new(true, true, 100, true).unwrap();
    pass.generate();
    assert_eq!(pass.layout.path_points, 101);
    assert_eq!(pass.layout.depth_samples, 101);
}

#[test]
fn a_single_point_has_no_edges() {
    let mut pass = LathePass::new(true, true, 10, false).unwrap();
    pass.resolution = 0;
    pass.generate();
    assert_eq!(
        pass.layout,
        PassLayout { path_points: 1, cut_edges: 0, edge_points: 0, rendered_lines: 1, depth_samples: 0 }
    );
}

#[test]
fn generating_a_pass_twice_changes_nothing() {
    let mut pass = LathePass::new(true, true, 360, true).unwrap();
    pass.generate();
    let once = pass;
    pass.generate();
    assert_eq!(pass, once);
}

#[test]
fn a_pass_is_exported_only_after_generation() {
    let mut pass = LathePass::new(true, true, 100, false).unwrap();
    let e = pass.check_exportable().unwrap_err();
    assert_eq!(e.kind(), ErrorKind::ExportError);
    assert_eq!(e.detail(), "Pattern not generated. Call generate() first.");
    assert_eq!(e.to_string(), "Export error: Pattern not generated. Call generate() first.");
    pass.generate();
    assert!(pass.check_exportable().is_ok());
}

#[test]
fn the_ends_of_a_path_look_one_way_and_the_rest_both_ways() {
    let path = [10usize, 11, 12, 13, 14];
    assert!(matches!(neighbourhood(&path, 0), Neighbourhood::First { here: 10, next: 11 }));
    assert!(matches!(
        neighbourhood(&path, 1),
        Neighbourhood::Inner { before: 10, here: 11, next: 12 }
    ));
    assert!(matches!(
        neighbourhood(&path, 3),
        Neighbourhood::Inner { before: 12, here: 13, next: 14 }
    ));
    assert!(matches!(neighbourhood(&path, 4), Neighbourhood::Last { before: 13, here: 14 }));
    let short = [5usize, 6];
    assert!(matches!(neighbourhood(&short, 0), Neighbourhood::First { here: 5, next: 6 }));
    assert!(matches!(neighbourhood(&short, 1), Neighbourhood::Last { before: 5, here: 6 }));
}

fn point_at(step: usize) -> (i64, i64) {
    (step as i64, (step * step) as i64)
}

fn edges_at(around: Neighbourhood<(i64, i64)>) -> ((i64, i64), (i64, i64)) {
    let (from, here, to) = match around {
        Neighbourhood::First { here, next } => (here, here, next),
        Neighbourhood::Last { before, here } => (before, here, here),
        Neighbourhood::Inner { before, here, next } => (before, here, next),
    };
    let (dx, dy) = (to.0 - from.0, to.1 - from.1);
    ((here.0 - dy, here.1 + dx), (here.0 + dy, here.1 - dx))
}

fn depth_at(step: usize) -> (u32, u32) {
    (step as u32 + 100, 1000 - step as u32)
}

#[test]
fn a_pass_produces_its_path_its_edges_and_its_rendering() {
    let mut pass = LathePass::new(true, true, 10, false).unwrap();
    let out: PassOutput<(i64, i64), u32> = pass.generate_with(&point_at, &edges_at, &depth_at);
    assert!(pass.generated);
    assert_eq!(out.tool_path.len(), 11);
    assert_eq!(out.tool_path[3], (3, 9));
    assert_eq!(out.cut_edges.len(), 2);
    assert_eq!(out.cut_edges[0].len(), 11);
    assert_eq!(out.cut_edges[1].len(), 11);
    assert_eq!(out.cut_edges[0][0], (-1, 1));
    assert_eq!(out.cut_edges[1][0], (1, -1));
    assert_eq!(out.cut_edges[0][1], (1 - 4, 1 + 2));
    assert_eq!(out.cut_edges[1][10], (10 + 19, 100 - 1));
    assert_eq!(out.rendered_lines.len(), 3);
    assert_eq!(out.rendered_lines[0], out.tool_path);
    assert_eq!(out.rendered_lines[1], out.cut_edges[0]);
    assert_eq!(out.rendered_lines[2], out.cut_edges[1]);
    assert!(out.depth_map.is_empty());
    assert!(out.shading.is_empty());
    assert_eq!(
        pass.layout,
        PassLayout { path_points: 11, cut_edges: 2, edge_points: 11, rendered_lines: 3, depth_samples: 0 }
    );
}

#[test]
fn a_pass_with_depth_modulation_produces_depth_and_shading() {
    let mut pass = LathePass::new(true, true, 12, true).unwrap();
    let out: PassOutput<(i64, i64), u32> = pass.generate_with(&point_at, &edges_at, &depth_at);
    assert_eq!(out.depth_map.len(), 13);
    assert_eq!(out.shading.len(), 13);
    assert_eq!(out.depth_map[0], 100);
    assert_eq!(out.depth_map[12], 112);
    assert_eq!(out.shading[12], 988);
    assert_eq!(pass.layout.depth_samples, 13);
}

#[test]
fn a_pass_of_no_steps_produces_a_single_point() {
    let mut pass = LathePass::new(true, true, 10, true).unwrap();
    pass.resolution = 0;
    let out: PassOutput<(i64, i64), u32> = pass.generate_with(&point_at, &edges_at, &depth_at);
    assert_eq!(out.tool_path, vec![(0, 0)]);
    assert!(out.cut_edges.is_empty());
    assert_eq!(out.rendered_lines, vec![vec![(0, 0)]]);
    assert_eq!(out.depth_map, vec![100]);
    assert_eq!(pass.layout.rendered_lines, 1);
}

#[test]
fn every_point_of_a_round_path_lies_within_reach_of_the_centre() {
    let (base_radius, amplitude) = (20.0_f64, 2.0_f64);
    let mut pass = LathePass::new(!(base_radius <= 0.0), !(amplitude < 0.0), 1000, false).unwrap();
    let step = 2.0 * std::f64::consts::PI / 1000.0;
    let sample = |i: usize| {
        let angle = (i as f64) * step;
        let radius = base_radius + amplitude * ((angle * 6.0).sin().abs() * 2.0 - 1.0);
        (radius * angle.cos(), radius * angle.sin())
    };
    let edge = |around: Neighbourhood<(f64, f64)>| match around {
        Neighbourhood::First { here, .. } => (here, here),
        Neighbourhood::Last { here, .. } => (here, here),
        Neighbourhood::Inner { here, .. } => (here, here),
    };
    let depth = |_i: usize| (0.0_f64, 0.0_f64);
    let out = pass.generate_with(&sample, &edge, &depth);
    assert_eq!(out.tool_path.len(), 1001);
    for (x, y) in &out.tool_path {
        assert!((x * x + y * y).sqrt() <= base_radius + amplitude + 1e-9);
    }
}
