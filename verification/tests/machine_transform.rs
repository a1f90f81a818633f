use raygeo::cnc::machine_transform::{
    apply_replacement_values, apply_rotary_values, find_axis_value, layer_mapping_targets, rotary_axis_for,
    set_axis_value, zero_axis, ReplacementValues, RotaryLayerMap, RotaryValues,
};
use raygeo::ops::container::Ops;
use raygeo::ops::types::{Axis, MoveCmd, OpCategory, OpNode, Point, Point3D, ZERO_BITS};

fn b(v: f64) -> u64 {
    v.to_bits()
}

fn p(x: f64, y: f64, z: f64) -> Point3D {
    Point3D::new(b(x), b(y), b(z))
}

#[test]
fn mapping_targets_follow_open_layers() {
    let mut ops = Ops::new();
    ops.move_to(b(0.0), b(0.0), b(0.0), None);
    ops.layer_start("L1");
    ops.move_to(b(1.0), b(0.0), b(0.0), None);
    ops.push(OpNode::set_power(b(0.5)));
    ops.line_to(b(2.0), b(0.0), b(0.0), None);
    ops.layer_end("L1");
    ops.line_to(b(3.0), b(0.0), b(0.0), None);
    ops.layer_start("L2");
    ops.line_to(b(4.0), b(0.0), b(0.0), None);
    ops.layer_start("L3");
    ops.line_to(b(5.0), b(0.0), b(0.0), None);
    let uids = vec!["L1".to_string(), "L3".to_string(), "L1".to_string()];
    let t = layer_mapping_targets(&ops, &uids);
    assert_eq!(
        t,
        vec![None, None, Some(2), None, Some(2), None, None, None, None, None, Some(1)]
    );
}

#[test]
fn zero_and_set_named_axes() {
    let mut e = p(1.0, 2.0, 3.0);
    zero_axis(&mut e, "Y");
    assert_eq!(e, p(1.0, 0.0, 3.0));
    zero_axis(&mut e, "A");
    assert_eq!(e, p(1.0, 0.0, 3.0));
    set_axis_value(&mut e, "Z", b(7.0));
    assert_eq!(e, p(1.0, 0.0, 7.0));
    set_axis_value(&mut e, "A", b(9.0));
    assert_eq!(e, p(1.0, 9.0, 7.0));
    set_axis_value(&mut e, "X", b(-1.0));
    assert_eq!(e, p(-1.0, 9.0, 7.0));
}

#[test]
fn rotary_axis_defaults_to_a() {
    assert_eq!(rotary_axis_for("B"), Axis::B);
    assert_eq!(rotary_axis_for("Q"), Axis::A);
    assert_eq!(rotary_axis_for(""), Axis::A);
}

#[test]
fn find_axis_value_takes_the_first_entry() {
    let ea = vec![(Axis::B, b(1.0)), (Axis::A, b(2.0)), (Axis::A, b(3.0))];
    assert_eq!(find_axis_value(Some(&ea), Axis::A), Some(b(2.0)));
    assert_eq!(find_axis_value(Some(&ea), Axis::C), None);
    assert_eq!(find_axis_value(None, Axis::A), None);
}

#[test]
fn map_to_rotary_rewrites_a_bezier() {
    let mut n = OpNode::bezier_to(p(1.0, 1.0, 0.0), p(2.0, 2.0, 0.0), p(3.0, 4.0, 5.0), Some(vec![
        (Axis::A, b(10.0)),
        (Axis::B, b(20.0)),
    ]));
    n.map_to_rotary(Axis::A, b(90.0), b(6.0), Some("Z"), b(11.0), b(22.0));
    match &n.category {
        OpCategory::Moving { end, cmd: MoveCmd::BezierTo { control1, control2 } } => {
            assert_eq!(*end, p(3.0, 6.0, 0.0));
            assert_eq!(*control1, Point3D::new(b(1.0), b(11.0), b(0.0)));
            assert_eq!(*control2, Point3D::new(b(2.0), b(22.0), b(0.0)));
        }
        other => panic!("unexpected {:?}", other),
    }
    assert_eq!(n.extra_axes().unwrap().as_slice(), &[(Axis::B, b(20.0)), (Axis::A, b(90.0))]);
    assert_eq!(find_axis_value(n.extra_axes(), Axis::A), Some(b(90.0)));
}

#[test]
fn map_to_rotary_leaves_other_commands() {
    let mut n = OpNode::set_power(b(0.4));
    n.map_to_rotary(Axis::A, b(1.0), b(1.0), None, b(1.0), b(1.0));
    assert!(n.extra_axes().is_none());
    assert_eq!(n.end_point(), Point3D::zero());
}

#[test]
fn replace_axis_converts_and_drops_the_rotary_entry() {
    let mut n = OpNode::arc_to(b(1.0), b(2.0), b(0.5), b(0.25), true, b(0.0), Some(vec![(Axis::A, b(180.0))]));
    n.replace_axis(Axis::A, "Y", b(50.0), b(12.0), b(0.0));
    match &n.category {
        OpCategory::Moving { end, cmd: MoveCmd::ArcTo { center, cw } } => {
            assert_eq!(*end, p(1.0, 50.0, 0.0));
            assert_eq!(*center, Point::new(b(0.5), b(12.0)));
            assert!(*cw);
        }
        other => panic!("unexpected {:?}", other),
    }
    assert!(n.extra_axes().is_none());
}

#[test]
fn replace_axis_on_a_non_y_axis_zeroes_control_y() {
    let mut n = OpNode::quadratic_bezier_to(p(1.0, 8.0, 2.0), p(3.0, 3.0, 3.0), Some(vec![
        (Axis::A, b(1.0)),
        (Axis::C, b(2.0)),
    ]));
    n.replace_axis(Axis::A, "X", b(40.0), b(44.0), ZERO_BITS);
    match &n.category {
        OpCategory::Moving { end, cmd: MoveCmd::QuadraticBezierTo { control } } => {
            assert_eq!(*end, p(40.0, 3.0, 3.0));
            assert_eq!(*control, Point3D::new(b(44.0), ZERO_BITS, b(2.0)));
        }
        other => panic!("unexpected {:?}", other),
    }
    assert_eq!(n.extra_axes().unwrap().as_slice(), &[(Axis::C, b(2.0))]);
    assert_eq!(find_axis_value(n.extra_axes(), Axis::A), None);
}

fn same(a: &OpNode, c: &OpNode) -> bool {
    format!("{:?}", a) == format!("{:?}", c)
}

#[test]
fn rotary_pass_rewrites_only_mapped_moves() {
    let mut ops = Ops::new();
    ops.move_to(b(1.0), b(2.0), b(0.0), None);
    ops.layer_start("R");
    ops.line_to(b(3.0), b(4.0), b(5.0), None);
    ops.push(OpNode::set_power(b(0.5)));
    ops.layer_end("R");
    ops.line_to(b(6.0), b(7.0), b(0.0), None);
    let before: Vec<OpNode> = ops.commands.iter().map(|n| n.copy()).collect();
    let maps = vec![RotaryLayerMap { layer_uid: "R".to_string(), rotary: Axis::A, replaced: Some("Z".to_string()) }];
    let values: Vec<RotaryValues> = (0..ops.len())
        .map(|i| RotaryValues { degrees: b(90.0 + i as f64), end_y: b(-1.0), c1: 0, c2: 0 })
        .collect();
    apply_rotary_values(&mut ops, &maps, &values);
    assert_eq!(ops.len(), before.len());
    for i in [0usize, 1, 3, 4, 5] {
        assert!(same(&ops.commands[i], &before[i]), "command {} changed", i);
    }
    match &ops.commands[2].category {
        OpCategory::Moving { end, .. } => assert_eq!(*end, p(3.0, -1.0, 0.0)),
        other => panic!("unexpected {:?}", other),
    }
    assert_eq!(find_axis_value(ops.commands[2].extra_axes(), Axis::A), Some(b(92.0)));
}

#[test]
fn replacement_pass_converts_only_commands_with_rotary_values() {
    let mut ops = Ops::new();
    ops.layer_start("R");
    ops.line_to(b(1.0), b(0.0), b(0.0), Some(vec![(Axis::A, b(180.0))]));
    ops.line_to(b(2.0), b(0.0), b(0.0), None);
    ops.layer_end("R");
    ops.layer_start("T");
    ops.line_to(b(3.0), b(0.0), b(0.0), Some(vec![(Axis::A, b(45.0))]));
    let before: Vec<OpNode> = ops.commands.iter().map(|n| n.copy()).collect();
    let maps = vec![
        RotaryLayerMap { layer_uid: "R".to_string(), rotary: Axis::A, replaced: Some("Y".to_string()) },
        RotaryLayerMap { layer_uid: "T".to_string(), rotary: Axis::A, replaced: None },
    ];
    let values: Vec<ReplacementValues> =
        (0..ops.len()).map(|_| ReplacementValues { scaled: b(31.4), v1: 0, v2: 0 }).collect();
    apply_replacement_values(&mut ops, &maps, &values);
    match &ops.commands[1].category {
        OpCategory::Moving { end, .. } => assert_eq!(*end, p(1.0, 31.4, 0.0)),
        other => panic!("unexpected {:?}", other),
    }
    assert!(ops.commands[1].extra_axes().is_none());
    for i in [0usize, 2, 3, 4, 5] {
        assert!(same(&ops.commands[i], &before[i]), "command {} changed", i);
    }
}
