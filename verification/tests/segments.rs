use rose_engine::segments::copy_arc;
use rose_engine::segments::segment_path;

fn path_of(n: usize) -> Vec<usize> {
    (0..n).collect()
}

#[test]
fn one_segment_is_the_whole_path() {
    let path = path_of(1001);
    let mut lines: Vec<Vec<usize>> = Vec::new();
    segment_path(&mut lines, &path, 1);
    assert_eq!(lines.len(), 1);
    assert_eq!(lines[0], path);
}

#[test]
fn one_segment_works_on_floating_point_samples() {
    let path: Vec<(f64, f64)> = vec![(0.0, 1.0), (0.5, -2.0), (3.25, 4.0)];
    let mut lines: Vec<Vec<(f64, f64)>> = Vec::new();
    segment_path(&mut lines, &path, 1);
    assert_eq!(lines, vec![path]);
}

#[test]
fn twenty_four_segments_of_a_thousand_steps() {
    let path = path_of(1001);
    let mut lines: Vec<Vec<usize>> = Vec::new();
    segment_path(&mut lines, &path, 24);
    assert_eq!(lines.len(), 24);
    for (i, line) in lines.iter().enumerate() {
        assert_eq!(line.len(), 28);
        assert_eq!(line[0], i * 41);
        assert_eq!(line[27], i * 41 + 27);
    }
}

#[test]
fn arcs_are_separated_by_gaps() {
    let path = path_of(100);
    let mut lines: Vec<Vec<usize>> = Vec::new();
    segment_path(&mut lines, &path, 4);
    assert_eq!(lines.len(), 4);
    assert_eq!(lines[0], (0..17).collect::<Vec<usize>>());
    assert_eq!(lines[1], (25..42).collect::<Vec<usize>>());
    assert_eq!(lines[2], (50..67).collect::<Vec<usize>>());
    assert_eq!(lines[3], (75..92).collect::<Vec<usize>>());
}

#[test]
fn a_cycle_of_ninety_draws_sixty_two() {
    let path = path_of(180);
    let mut lines: Vec<Vec<usize>> = Vec::new();
    segment_path(&mut lines, &path, 2);
    assert_eq!(lines.len(), 2);
    assert_eq!(lines[0], (0..62).collect::<Vec<usize>>());
    assert_eq!(lines[1], (90..152).collect::<Vec<usize>>());
}

#[test]
fn segments_are_appended_after_what_is_there() {
    let path = path_of(20);
    let mut lines: Vec<Vec<usize>> = vec![vec![7, 7, 7]];
    segment_path(&mut lines, &path, 2);
    assert_eq!(lines.len(), 3);
    assert_eq!(lines[0], vec![7, 7, 7]);
    assert_eq!(lines[1], (0..7).collect::<Vec<usize>>());
    assert_eq!(lines[2], (10..17).collect::<Vec<usize>>());
}

#[test]
fn nothing_is_drawn_of_an_empty_path() {
    let path: Vec<usize> = Vec::new();
    let mut lines: Vec<Vec<usize>> = Vec::new();
    segment_path(&mut lines, &path, 1);
    assert!(lines.is_empty());
    segment_path(&mut lines, &path, 5);
    assert!(lines.is_empty());
}

#[test]
fn nothing_is_drawn_with_no_segments() {
    let path = path_of(50);
    let mut lines: Vec<Vec<usize>> = Vec::new();
    segment_path(&mut lines, &path, 0);
    assert!(lines.is_empty());
}

#[test]
fn nothing_is_drawn_where_a_cycle_has_a_single_sample_or_none() {
    let path = path_of(10);
    let mut lines: Vec<Vec<usize>> = Vec::new();
    segment_path(&mut lines, &path, 10);
    assert!(lines.is_empty());
    segment_path(&mut lines, &path, 11);
    assert!(lines.is_empty());
    segment_path(&mut lines, &path, 5);
    assert_eq!(lines, vec![vec![0], vec![2], vec![4], vec![6], vec![8]]);
}

#[test]
fn segmenting_twice_gives_the_same_arcs() {
    let path = path_of(333);
    let mut first: Vec<Vec<usize>> = Vec::new();
    let mut second: Vec<Vec<usize>> = Vec::new();
    segment_path(&mut first, &path, 7);
    segment_path(&mut second, &path, 7);
    assert_eq!(first, second);
}

#[test]
fn copy_arc_takes_the_named_samples() {
    let path = path_of(10);
    assert_eq!(copy_arc(&path, 2, 5), vec![2, 3, 4]);
    assert_eq!(copy_arc(&path, 0, 10), path);
    assert!(copy_arc(&path, 4, 4).is_empty());
}
