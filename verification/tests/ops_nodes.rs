use raygeo::ops::container::Ops;
use raygeo::ops::enums::{CommandType, RasterMode, SectionType};
use raygeo::ops::types::{
    AirAssistMode, Axis, CoolantMode, CutDirection, MarkerCmd, MoveCmd, OpCategory, OpNode, Point3D,
    SectionError, StateCmd, ZERO_BITS,
};

fn b(v: f64) -> u64 {
    v.to_bits()
}

#[test]
fn node_constructors_have_their_command_types() {
    let p = Point3D::new(b(1.0), b(2.0), b(3.0));
    let cases = vec![
        (OpNode::move_to(b(1.0), b(2.0), b(3.0), None), CommandType::MoveTo),
        (OpNode::line_to(b(1.0), b(2.0), b(3.0), None), CommandType::LineTo),
        (OpNode::close_path(p), CommandType::LineTo),
        (OpNode::arc_to(b(1.0), b(2.0), b(0.5), b(0.5), true, b(0.0), None), CommandType::ArcTo),
        (OpNode::bezier_to(p, p, p, None), CommandType::BezierTo),
        (OpNode::quadratic_bezier_to(p, p, None), CommandType::QuadraticBezierTo),
        (OpNode::scan_to(b(1.0), b(2.0), b(3.0), vec![1, 2, 3], None), CommandType::ScanLine),
        (OpNode::set_power(b(0.5)), CommandType::SetPower),
        (OpNode::set_feed_rate(1000), CommandType::SetFeedRate),
        (OpNode::set_rapid_rate(3000), CommandType::SetRapidRate),
        (OpNode::dwell(b(250.0)), CommandType::Dwell),
        (OpNode::set_head("laser-1"), CommandType::SetHead),
        (OpNode::set_frequency(20000), CommandType::SetFrequency),
        (OpNode::set_pulse_width(b(0.2)), CommandType::SetPulseWidth),
        (OpNode::set_spindle_rpm(12000), CommandType::SetSpindleRpm),
        (OpNode::set_coolant(CoolantMode::Mist), CommandType::SetCoolant),
        (OpNode::set_air_assist(AirAssistMode::On), CommandType::SetAirAssist),
        (OpNode::job_start(), CommandType::JobStart),
        (OpNode::job_end(), CommandType::JobEnd),
        (OpNode::layer_start("L1"), CommandType::LayerStart),
        (OpNode::layer_end("L1"), CommandType::LayerEnd),
        (OpNode::workpiece_start("W"), CommandType::WorkpieceStart),
        (OpNode::workpiece_end("W"), CommandType::WorkpieceEnd),
        (OpNode::state_block_start(Some("labels")), CommandType::StateBlockStart),
        (OpNode::state_block_end(), CommandType::StateBlockEnd),
        (OpNode::process_start("P", "{}"), CommandType::ProcessStart),
        (OpNode::process_end("P"), CommandType::ProcessEnd),
    ];
    for (node, ct) in cases {
        assert_eq!(node.command_type(), ct);
        assert_eq!(node.is_moving(), ct.category() == raygeo::ops::enums::CommandCategory::Moving);
        assert_eq!(node.is_state_cmd(), ct.category() == raygeo::ops::enums::CommandCategory::State);
        assert_eq!(node.is_marker(), ct.category() == raygeo::ops::enums::CommandCategory::Marker);
    }
}

#[test]
fn close_path_is_a_line_to_its_end() {
    let p = Point3D::new(b(4.0), b(5.0), b(0.0));
    let n = OpNode::close_path(p);
    match n.as_moving() {
        Some((end, MoveCmd::LineTo)) => assert_eq!(*end, p),
        other => panic!("unexpected {:?}", other),
    }
}

#[test]
fn end_point_of_non_moving_is_origin() {
    assert_eq!(OpNode::set_power(b(0.3)).end_point(), Point3D::zero());
    assert_eq!(OpNode::line_to(b(1.0), b(2.0), b(3.0), None).end_point(), Point3D::new(b(1.0), b(2.0), b(3.0)));
}

#[test]
fn ops_section_start_checks_raster_mode() {
    assert_eq!(
        OpNode::ops_section_start(SectionType::VectorOutline, "w", Some(RasterMode::DepthMap)).err(),
        Some(SectionError::VectorOutlineWithRasterMode(RasterMode::DepthMap))
    );
    assert_eq!(
        OpNode::ops_section_start(SectionType::RasterFill, "w", None).err(),
        Some(SectionError::RasterFillWithoutRasterMode)
    );
    let ok = OpNode::ops_section_start(SectionType::RasterFill, "w1", Some(RasterMode::ConstantPower)).unwrap();
    match ok.as_marker() {
        Some(MarkerCmd::OpsSectionStart { section_type, workpiece_uid, raster_mode }) => {
            assert_eq!(*section_type, SectionType::RasterFill);
            assert_eq!(workpiece_uid.as_deref(), Some("w1"));
            assert_eq!(*raster_mode, Some(RasterMode::ConstantPower));
        }
        other => panic!("unexpected {:?}", other),
    }
}

#[test]
fn ops_section_end_checks_raster_mode() {
    assert_eq!(
        OpNode::ops_section_end(SectionType::RasterFill, None).err(),
        Some(SectionError::RasterFillWithoutRasterMode)
    );
    assert_eq!(
        OpNode::ops_section_end(SectionType::VectorOutline, Some(RasterMode::VariablePower)).err(),
        Some(SectionError::VectorOutlineWithRasterMode(RasterMode::VariablePower))
    );
    let ok = OpNode::ops_section_end(SectionType::VectorOutline, None).unwrap();
    assert_eq!(ok.command_type(), CommandType::OpsSectionEnd);
}

#[test]
fn set_endpoint_returns_previous_end() {
    let mut n = OpNode::line_to(b(1.0), b(1.0), b(0.0), None);
    let old = n.set_endpoint(Point3D::new(b(2.0), b(2.0), b(0.0)));
    assert_eq!(old, Some(Point3D::new(b(1.0), b(1.0), b(0.0))));
    assert_eq!(n.end_point(), Point3D::new(b(2.0), b(2.0), b(0.0)));
    let mut m = OpNode::job_start();
    assert_eq!(m.set_endpoint(Point3D::zero()), None);
    assert_eq!(m.command_type(), CommandType::JobStart);
}

#[test]
fn extra_axes_set_and_clear() {
    let mut n = OpNode::move_to(b(0.0), b(0.0), b(0.0), None);
    assert!(n.extra_axes().is_none());
    n.set_extra_axes(vec![(Axis::A, b(90.0))]);
    assert_eq!(n.extra_axes().unwrap().as_slice(), &[(Axis::A, b(90.0))]);
    n.clear_extra_axes();
    assert!(n.extra_axes().is_none());
}

#[test]
fn state_accessors() {
    let n = OpNode::set_spindle_rpm(9000);
    match n.as_state() {
        Some(StateCmd::SetSpindleRpm(v)) => assert_eq!(*v, 9000),
        other => panic!("unexpected {:?}", other),
    }
    assert!(n.as_moving().is_none());
    assert!(n.as_marker().is_none());
}

#[test]
fn copy_keeps_everything() {
    let n = OpNode::scan_to(b(1.0), b(2.0), b(0.0), vec![0, 255, 10], Some(vec![(Axis::B, b(1.5))]));
    let c = n.copy();
    assert_eq!(c.command_type(), CommandType::ScanLine);
    assert_eq!(c.end_point(), n.end_point());
    assert_eq!(c.extra_axes().unwrap().as_slice(), &[(Axis::B, b(1.5))]);
    match &c.category {
        OpCategory::Moving { cmd: MoveCmd::ScanLine { power_values }, .. } => {
            assert_eq!(power_values, &vec![0, 255, 10])
        }
        other => panic!("unexpected {:?}", other),
    }
}

#[test]
fn axis_labels_round_trip() {
    for a in [Axis::X, Axis::Y, Axis::Z, Axis::A, Axis::B, Axis::C, Axis::U] {
        assert_eq!(Axis::from_str_name(a.label()), Some(a));
    }
    assert_eq!(Axis::from_str_name("W"), None);
    assert_eq!(Axis::from_str_name("a"), None);
}

#[test]
fn default_cut_direction_is_counter_clockwise() {
    assert_eq!(CutDirection::default(), CutDirection::Ccw);
}

#[test]
fn ops_container_builders() {
    let mut ops = Ops::new();
    assert!(ops.is_empty());
    ops.job_start();
    ops.layer_start("L");
    ops.move_to(b(0.0), b(0.0), b(0.0), None);
    ops.line_to(b(1.0), b(0.0), b(0.0), Some(vec![(Axis::A, b(5.0))]));
    ops.scan_to(b(2.0), b(0.0), b(0.0), vec![9, 9], None);
    ops.layer_end("L");
    ops.workpiece_start("W");
    ops.workpiece_end("W");
    ops.process_start("P", "x");
    ops.process_end("P");
    ops.job_end();
    assert_eq!(ops.len(), 11);
    assert_eq!(ops.command_type(0), CommandType::JobStart);
    assert_eq!(ops.command_type(3), CommandType::LineTo);
    assert_eq!(ops.endpoint(3), Point3D::new(b(1.0), ZERO_BITS, ZERO_BITS));
    assert_eq!(ops.extra_axes(3).unwrap().as_slice(), &[(Axis::A, b(5.0))]);
    assert!(ops.extra_axes(2).is_none());
    assert_eq!(ops.command_type(10), CommandType::JobEnd);
}

#[test]
fn ops_extend_and_copy() {
    let mut a = Ops::new();
    a.move_to(b(0.0), b(0.0), b(0.0), None);
    let mut c = Ops::new();
    c.line_to(b(1.0), b(1.0), b(0.0), None);
    c.job_end();
    a.extend(&c);
    assert_eq!(a.len(), 3);
    assert_eq!(a.command_type(1), CommandType::LineTo);
    let d = a.copy();
    assert_eq!(d.len(), 3);
    assert_eq!(d.command_type(2), CommandType::JobEnd);
    let mut e = Ops::new();
    e.push(OpNode::set_feed_rate(10));
    assert_eq!(e.command_type(0), CommandType::SetFeedRate);
}
