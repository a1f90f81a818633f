use raygeo::image::line::line_pixels;
use raygeo::image::scan::{
    apply_dot_width_trim, find_mask_bounding_box, find_segments, find_zero_runs, sample_image,
    sample_mask_along_line,
};

#[test]
fn find_segments_lists_non_zero_runs() {
    assert_eq!(find_segments(&[0, 3, 4, 0, 0, 7, 0, 1]), vec![(1, 3), (5, 6), (7, 8)]);
    assert_eq!(find_segments(&[]), vec![]);
    assert_eq!(find_segments(&[0, 0, 0]), vec![]);
    assert_eq!(find_segments(&[9, 9]), vec![(0, 2)]);
}

#[test]
fn find_zero_runs_lists_zero_runs() {
    assert_eq!(find_zero_runs(&[0, 3, 4, 0, 0, 7]), vec![(0, 1), (3, 5)]);
    assert_eq!(find_zero_runs(&[1, 2]), vec![]);
    assert_eq!(find_zero_runs(&[0]), vec![(0, 1)]);
}

#[test]
fn dot_width_trim_clears_both_ends() {
    let mut v = vec![0, 5, 5, 5, 5, 5, 0, 7, 7, 0];
    apply_dot_width_trim(&mut v, 1);
    assert_eq!(v, vec![0, 0, 5, 5, 5, 0, 0, 0, 0, 0]);
}

#[test]
fn dot_width_trim_clears_short_runs() {
    let mut v = vec![1, 2, 3, 4, 0, 9, 9, 9, 9, 9];
    apply_dot_width_trim(&mut v, 2);
    assert_eq!(v, vec![0, 0, 0, 0, 0, 0, 0, 9, 0, 0]);
}

#[test]
fn dot_width_trim_zero_changes_nothing() {
    let mut v = vec![0, 1, 2, 0, 3];
    apply_dot_width_trim(&mut v, 0);
    assert_eq!(v, vec![0, 1, 2, 0, 3]);
}

#[test]
fn dot_width_trim_only_clears_and_keeps_interior() {
    let orig = vec![4, 4, 4, 4, 4, 4, 4, 0, 2, 2, 2, 2, 2];
    let mut v = orig.clone();
    apply_dot_width_trim(&mut v, 2);
    for i in 0..v.len() {
        assert!(v[i] == orig[i] || v[i] == 0);
    }
    assert_eq!(&v[2..5], &orig[2..5]);
    assert_eq!(v[10], 2);
}

#[test]
fn sample_image_reads_inside_and_zero_outside() {
    // 2 rows x 3 columns.
    let img = [1, 2, 3, 4, 5, 6];
    assert_eq!(sample_image(&img, 2, 3, 0, 0), 1);
    assert_eq!(sample_image(&img, 2, 3, 2, 1), 6);
    assert_eq!(sample_image(&img, 2, 3, 3, 0), 0);
    assert_eq!(sample_image(&img, 2, 3, -1, 0), 0);
    assert_eq!(sample_image(&img, 2, 3, 0, 2), 0);
}

#[test]
fn sample_mask_along_line_follows_the_pixels() {
    let mask = [0, 1, 0, 1, 1, 0];
    let pixels = [(1, 0), (0, 1), (5, 5), (2, 1)];
    assert_eq!(sample_mask_along_line(&mask, 2, 3, &pixels), vec![1, 1, 0, 0]);
}

#[test]
fn mask_bounding_box_is_tight() {
    // 4 rows x 5 columns.
    let mut mask = vec![0u8; 20];
    mask[5 + 2] = 1;
    mask[10 + 4] = 255;
    mask[15 + 1] = 3;
    assert_eq!(find_mask_bounding_box(&mask, 4, 5), Some((1, 3, 1, 4)));
}

#[test]
fn mask_bounding_box_of_empty_mask() {
    assert_eq!(find_mask_bounding_box(&[0, 0, 0, 0], 2, 2), None);
    assert_eq!(find_mask_bounding_box(&[], 0, 0), None);
}

#[test]
fn mask_bounding_box_single_pixel() {
    assert_eq!(find_mask_bounding_box(&[0, 0, 0, 1], 2, 2), Some((1, 1, 1, 1)));
}

#[test]
fn line_pixels_single_point() {
    assert_eq!(line_pixels(2, 3, 2, 3, 10, 10), vec![(2, 3)]);
    assert_eq!(line_pixels(20, 3, 20, 3, 10, 10), vec![]);
}

#[test]
fn line_pixels_horizontal_is_clipped_and_increasing() {
    assert_eq!(line_pixels(5, 1, -2, 1, 4, 3), vec![(0, 1), (1, 1), (2, 1), (3, 1)]);
    assert_eq!(line_pixels(0, 7, 3, 7, 4, 3), vec![]);
}

#[test]
fn line_pixels_vertical_is_clipped_and_increasing() {
    assert_eq!(line_pixels(1, 3, 1, 0, 4, 3), vec![(1, 0), (1, 1), (1, 2)]);
    assert_eq!(line_pixels(9, 0, 9, 2, 4, 3), vec![]);
}

#[test]
fn line_pixels_diagonal_follows_bresenham() {
    assert_eq!(line_pixels(0, 0, 3, 3, 10, 10), vec![(0, 0), (1, 1), (2, 2), (3, 3)]);
    assert_eq!(line_pixels(0, 0, 4, 2, 10, 10), vec![(0, 0), (1, 0), (2, 1), (3, 1), (4, 2)]);
    assert_eq!(line_pixels(3, 0, 0, 1, 10, 10), vec![(3, 0), (2, 0), (1, 1), (0, 1)]);
}

#[test]
fn line_pixels_diagonal_keeps_only_cells_in_the_image() {
    assert_eq!(line_pixels(-1, -1, 2, 2, 2, 2), vec![(0, 0), (1, 1)]);
}

#[test]
fn line_pixels_steps_are_adjacent() {
    let px = line_pixels(0, 0, 7, 3, 100, 100);
    assert_eq!(px.first(), Some(&(0, 0)));
    assert_eq!(px.last(), Some(&(7, 3)));
    for w in px.windows(2) {
        assert!((w[0].0 - w[1].0).abs() <= 1 && (w[0].1 - w[1].1).abs() <= 1);
    }
}

#[test]
fn line_pixels_short_segment_far_away() {
    assert_eq!(line_pixels(1_000_000_000, 0, 1_000_000_003, 1, 10, 10), vec![]);
    assert_eq!(line_pixels(-1_500_000_000, 2, -1_500_000_000, 5, 10, 10), vec![]);
}

#[test]
fn line_pixels_have_no_repeats_and_span_the_longer_side() {
    for &(x0, y0, x1, y1) in &[(0, 0, 7, 3), (9, 1, 2, 8), (3, 3, 4, 9), (0, 5, 9, 5), (5, 9, 5, 0), (-3, -2, 12, 11)] {
        let px = line_pixels(x0, y0, x1, y1, 10, 10);
        let longer = (x1 - x0).abs().max((y1 - y0).abs()) as usize;
        assert!(px.len() <= longer + 1);
        for a in 0..px.len() {
            for c in (a + 1)..px.len() {
                assert_ne!(px[a], px[c]);
            }
        }
    }
    assert_eq!(line_pixels(0, 0, 7, 3, 10, 10).len(), 8);
}

#[test]
fn line_pixels_full_i32_range() {
    let row: Vec<(i32, i32)> = (0..10).map(|x| (x, 4)).collect();
    assert_eq!(line_pixels(i32::MIN, 4, i32::MAX, 4, 10, 10), row);
    assert_eq!(line_pixels(i32::MAX, 4, i32::MIN, 4, 10, 10), row);
    let col: Vec<(i32, i32)> = (0..10).map(|y| (2, y)).collect();
    assert_eq!(line_pixels(2, i32::MAX, 2, i32::MIN, 10, 10), col);
    assert_eq!(line_pixels(i32::MIN, 5, i32::MIN + 3, 8, 10, 10), vec![]);
    assert_eq!(line_pixels(i32::MAX, i32::MAX, i32::MAX, i32::MAX, 10, 10), vec![]);
}
