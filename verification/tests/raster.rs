use raygeo::ops::raster::{full_sweep_power, is_reversed, ordered_segments, pass_mask};

#[test]
fn odd_lines_reverse_only_when_bidirectional() {
    assert!(!is_reversed(0, true));
    assert!(is_reversed(1, true));
    assert!(is_reversed(-3, true));
    assert!(!is_reversed(1, false));
    assert!(!is_reversed(4, true));
}

#[test]
fn ordered_segments_forward_and_backward() {
    let v = [0, 1, 1, 0, 2, 0, 3];
    assert_eq!(ordered_segments(&v, false), vec![(1, 3), (4, 5), (6, 7)]);
    assert_eq!(ordered_segments(&v, true), vec![(6, 7), (4, 5), (1, 3)]);
    assert_eq!(ordered_segments(&[0, 0], true), vec![]);
}

#[test]
fn full_sweep_power_binarizes_and_trims() {
    let v = [0, 9, 9, 9, 9, 0, 1];
    assert_eq!(full_sweep_power(&v, 200, 0, false), vec![0, 200, 200, 200, 200, 0, 200]);
    assert_eq!(full_sweep_power(&v, 200, 1, false), vec![0, 0, 200, 200, 0, 0, 0]);
}

#[test]
fn full_sweep_power_reversed() {
    let v = [5, 0, 0, 7, 7];
    assert_eq!(full_sweep_power(&v, 10, 0, true), vec![10, 10, 0, 0, 10]);
}

#[test]
fn pass_mask_marks_levels_reached() {
    let (m, any) = pass_mask(&[0, 1, 2, 3, 2], 5, 2);
    assert_eq!(m, vec![0, 0, 1, 1, 1]);
    assert!(any);
    let (m2, any2) = pass_mask(&[0, 1, 2, 3, 2], 2, 2);
    assert_eq!(m2, vec![0, 0]);
    assert!(!any2);
}
