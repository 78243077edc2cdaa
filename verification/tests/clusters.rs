use rose_engine::clusters::rotation_plan;
use rose_engine::clusters::spread;
use rose_engine::clusters::Share;
use rose_engine::clusters::Rotation;

#[test]
fn without_clusters_the_curves_are_spread_evenly() {
    let plan = rotation_plan(4, 0);
    assert_eq!(
        plan,
        vec![
            Rotation::Uniform { index: 0, steps: 4 },
            Rotation::Uniform { index: 1, steps: 4 },
            Rotation::Uniform { index: 2, steps: 4 },
            Rotation::Uniform { index: 3, steps: 4 },
        ]
    );
}

#[test]
fn as_many_clusters_as_curves_spreads_them_evenly() {
    assert_eq!(rotation_plan(3, 3)[2], Rotation::Uniform { index: 2, steps: 3 });
    assert_eq!(rotation_plan(3, 7)[1], Rotation::Uniform { index: 1, steps: 3 });
    assert!(rotation_plan(0, 0).is_empty());
    assert!(rotation_plan(0, 5).is_empty());
}

#[test]
fn the_leading_clusters_take_the_remainder() {
    let plan = rotation_plan(10, 3);
    let place = |cluster: usize, position: usize, size: usize| Rotation::Clustered {
        cluster,
        clusters: 3,
        position,
        size,
    };
    assert_eq!(
        plan,
        vec![
            place(0, 0, 4),
            place(0, 1, 4),
            place(0, 2, 4),
            place(0, 3, 4),
            place(1, 0, 3),
            place(1, 1, 3),
            place(1, 2, 3),
            place(2, 0, 3),
            place(2, 1, 3),
            place(2, 2, 3),
        ]
    );
}

#[test]
fn even_clusters_have_equal_sizes() {
    let plan = rotation_plan(12, 4);
    assert_eq!(plan.len(), 12);
    for (j, place) in plan.iter().enumerate() {
        assert_eq!(
            *place,
            Rotation::Clustered { cluster: j / 3, clusters: 4, position: j % 3, size: 3 }
        );
    }
}

#[test]
fn a_single_cluster_holds_every_curve() {
    let plan = rotation_plan(5, 1);
    for (j, place) in plan.iter().enumerate() {
        assert_eq!(*place, Rotation::Clustered { cluster: 0, clusters: 1, position: j, size: 5 });
    }
}

#[test]
fn every_curve_has_one_place() {
    for curves in 0..40usize {
        for clusters in 0..45usize {
            let plan = rotation_plan(curves, clusters);
            assert_eq!(plan.len(), curves);
            let mut sizes = vec![0usize; clusters.max(1)];
            for place in &plan {
                if let Rotation::Clustered { cluster, clusters: c, position, size } = *place {
                    assert_eq!(c, clusters);
                    assert!(position < size);
                    assert_eq!(position, sizes[cluster]);
                    sizes[cluster] += 1;
                }
            }
            if clusters > 0 && clusters < curves {
                let least = *sizes.iter().min().unwrap();
                let most = *sizes.iter().max().unwrap();
                assert!(most - least <= 1);
                assert_eq!(sizes.iter().sum::<usize>(), curves);
            }
        }
    }
}

#[test]
fn a_row_is_spread_from_end_to_end() {
    assert_eq!(spread(0, 5), Share::Part { numerator: 0, denominator: 4 });
    assert_eq!(spread(3, 5), Share::Part { numerator: 3, denominator: 4 });
    assert_eq!(spread(4, 5), Share::Part { numerator: 4, denominator: 4 });
    assert_eq!(spread(1, 2), Share::Part { numerator: 1, denominator: 1 });
}

#[test]
fn a_single_item_lies_in_the_middle() {
    assert_eq!(spread(0, 1), Share::Centre);
}
