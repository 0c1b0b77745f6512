use optika::aperture::{common_prefix_len, same_path, ApertureSearch};

#[test]
fn paths_compare_element_by_element() {
    assert!(same_path(&vec![1, 0, 2, 3], &vec![1, 0, 2, 3]));
    assert!(!same_path(&vec![1, 0, 2, 3], &vec![1, 0, 3, 2]));
    assert!(!same_path(&vec![1, 0], &vec![1, 0, 2]));
    assert!(same_path(&vec![], &vec![]));
}

#[test]
fn shared_start_of_two_paths() {
    assert_eq!(common_prefix_len(&vec![1, 0, 2, 3], &vec![1, 0, 3]), 2);
    assert_eq!(common_prefix_len(&vec![1, 0, 2, 3], &vec![]), 0);
    assert_eq!(common_prefix_len(&vec![1, 0], &vec![1, 0, 4]), 2);
    assert_eq!(common_prefix_len(&vec![5], &vec![5]), 1);
}

#[test]
fn unobstructed_ray_keeps_the_state() {
    let axial = vec![1, 0, 2, 3];
    let mut s = ApertureSearch::new();
    assert!(s.observe(&axial, &vec![1, 0, 2, 3]));
    assert_eq!(s.n_surfaces_before_block, 0);
    assert_eq!(s.blocking_index, None);
    assert_eq!(s.aperture_stop(), None);
}

#[test]
fn four_lenses_stop_at_the_narrowest() {
    // lenses at 400, 100, 650 and 800 with radii 50, 50, 25, 50: the axial path is 1, 0, 2, 3;
    // a wide test ray misses everything, a narrower one slips past the radius-25 lens (2)
    let axial = vec![1, 0, 2, 3];
    let mut s = ApertureSearch::new();
    assert!(!s.observe(&axial, &vec![]));
    assert_eq!(s.n_surfaces_before_block, 0);
    assert_eq!(s.aperture_stop(), None);
    assert!(!s.observe(&axial, &vec![1, 0, 3]));
    assert_eq!(s.aperture_stop(), Some((2, 3)));
    assert!(s.observe(&axial, &vec![1, 0, 2, 3]));
    assert_eq!(s.aperture_stop(), Some((2, 3)));
}

#[test]
fn blocked_after_some_elements() {
    let axial = vec![1, 0, 2, 3];
    let mut s = ApertureSearch::new();
    assert!(!s.observe(&axial, &vec![1, 0]));
    assert_eq!(s.aperture_stop(), Some((2, 2)));
}

#[test]
fn empty_blocked_path_means_no_stop() {
    let axial = vec![0];
    let mut s = ApertureSearch::new();
    assert!(!s.observe(&axial, &vec![]));
    assert_eq!(s.n_surfaces_before_block, 0);
    assert_eq!(s.blocking_index, Some(0));
    assert_eq!(s.aperture_stop(), None);
}

#[test]
fn diverted_past_the_axial_path() {
    let axial = vec![0, 1];
    let mut s = ApertureSearch::new();
    assert!(!s.observe(&axial, &vec![0, 1, 4]));
    assert_eq!(s.aperture_stop(), Some((4, 3)));
}

#[test]
fn search_results_repeat() {
    let axial = vec![0, 1, 2];
    let observations = vec![vec![0], vec![0, 1, 2], vec![0, 1]];
    let run = || {
        let mut s = ApertureSearch::new();
        for p in &observations {
            s.observe(&axial, p);
        }
        s.aperture_stop()
    };
    assert_eq!(run(), Some((2, 2)));
    assert_eq!(run(), run());
}

#[test]
fn same_path_twice_changes_nothing() {
    let axial = vec![3, 1, 2];
    let mut s = ApertureSearch::new();
    s.observe(&axial, &vec![3, 2]);
    let first = s.aperture_stop();
    s.observe(&axial, &vec![3, 2]);
    assert_eq!(s.aperture_stop(), first);
    assert_eq!(first, Some((1, 2)));
}
