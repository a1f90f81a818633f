use raygeo::ops::contour::{contour_order, inner_first, CutSide};

#[test]
fn cut_side_names() {
    assert_eq!(CutSide::from_name("outside"), CutSide::Outside);
    assert_eq!(CutSide::from_name("OUTSIDE"), CutSide::Outside);
    assert_eq!(CutSide::from_name("Inside"), CutSide::Inside);
    assert_eq!(CutSide::from_name("centerline"), CutSide::Centerline);
    assert_eq!(CutSide::from_name("on"), CutSide::Centerline);
}

#[test]
fn offset_signs() {
    assert_eq!(CutSide::Outside.offset_sign(), 1);
    assert_eq!(CutSide::Inside.offset_sign(), -1);
    assert_eq!(CutSide::Centerline.offset_sign(), 0);
}

#[test]
fn cut_order_names() {
    assert!(inner_first("inside_outside"));
    assert!(inner_first("INSIDE_OUTSIDE"));
    assert!(!inner_first("outside_inside"));
    assert!(!inner_first(""));
}

#[test]
fn contour_groups_in_order() {
    let inner = vec![3, 1];
    let outer = vec![0, 2];
    assert_eq!(contour_order(&inner, &outer, true), vec![3, 1, 0, 2]);
    assert_eq!(contour_order(&inner, &outer, false), vec![0, 2, 3, 1]);
    assert_eq!(contour_order(&vec![], &outer, true), vec![0, 2]);
}
