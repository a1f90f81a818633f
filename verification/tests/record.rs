use raygeo::ops::enums::{CommandType, RasterMode, SectionType};
use raygeo::ops::container::Ops;
use raygeo::ops::record::{
    from_record, ops_from_records, ops_to_records, to_record, CommandRecord, RecordError, RecordField,
};
use raygeo::ops::types::{
    AirAssistMode, Axis, CoolantMode, HeadCoolantMode, MarkerCmd, MoveCmd, OpCategory, OpNode, Point, Point3D,
    StateCmd,
};

fn b(v: f64) -> u64 {
    v.to_bits()
}

fn empty(kind: &str) -> CommandRecord {
    CommandRecord {
        kind: Some(kind.to_string()),
        end: None,
        extra_axes: None,
        center_offset: None,
        clockwise: None,
        control1: None,
        control2: None,
        control: None,
        power_values: None,
        duration_ms: None,
        power: None,
        speed: None,
        frequency: None,
        pulse_width: None,
        spindle_speed: None,
        coolant: None,
        air_assist: None,
        head_coolant: None,
        head_uid: None,
        layer_uid: None,
        workpiece_uid: None,
        process_uid: None,
        process_params: None,
        section_type: None,
        raster_mode: None,
        name: None,
    }
}

fn same(a: &OpNode, c: &OpNode) -> bool {
    format!("{:?}", a) == format!("{:?}", c)
}

fn round_trip(n: OpNode) {
    let rec = to_record(&n);
    let back = from_record(&rec).expect("record reads back");
    assert!(same(&n, &back), "{:?} came back as {:?}", n, back);
}

#[test]
fn every_representable_node_round_trips() {
    let p = Point3D::new(b(1.0), b(2.0), b(3.0));
    let q = Point3D::new(b(-1.0), b(0.5), b(0.0));
    round_trip(OpNode::move_to(b(1.0), b(2.0), b(3.0), None));
    round_trip(OpNode::line_to(b(1.0), b(2.0), b(3.0), Some(vec![(Axis::A, b(45.0)), (Axis::U, b(1.0))])));
    round_trip(OpNode::line_to(b(1.0), b(2.0), b(3.0), Some(vec![])));
    round_trip(OpNode::arc_to(b(1.0), b(2.0), b(0.5), b(0.5), false, b(0.0), None));
    round_trip(OpNode::bezier_to(p, q, p, None));
    round_trip(OpNode::quadratic_bezier_to(q, p, Some(vec![(Axis::C, b(3.0))])));
    round_trip(OpNode::scan_to(b(1.0), b(0.0), b(0.0), vec![0, 10, 255], None));
    round_trip(OpNode::dwell(b(100.0)));
    round_trip(OpNode::set_power(b(0.25)));
    round_trip(OpNode::set_feed_rate(1500));
    round_trip(OpNode::set_rapid_rate(-3));
    round_trip(OpNode::set_frequency(25000));
    round_trip(OpNode::set_pulse_width(b(0.02)));
    round_trip(OpNode::set_spindle_rpm(24000));
    for m in [CoolantMode::Off, CoolantMode::Mist, CoolantMode::Flood] {
        round_trip(OpNode::set_coolant(m));
    }
    for m in [AirAssistMode::Off, AirAssistMode::On] {
        round_trip(OpNode::set_air_assist(m));
    }
    for m in [HeadCoolantMode::Off, HeadCoolantMode::On] {
        round_trip(OpNode::set_head_coolant(m));
    }
    round_trip(OpNode::set_head("diode"));
    round_trip(OpNode::job_start());
    round_trip(OpNode::job_end());
    round_trip(OpNode::layer_start("L"));
    round_trip(OpNode::layer_end("L"));
    round_trip(OpNode::workpiece_start("W"));
    round_trip(OpNode::workpiece_end("W"));
    round_trip(OpNode::ops_section_start(SectionType::RasterFill, "W", Some(RasterMode::DepthMap)).unwrap());
    round_trip(OpNode::ops_section_start(SectionType::VectorOutline, "", None).unwrap());
    round_trip(OpNode::ops_section_end(SectionType::RasterFill, Some(RasterMode::ConstantPower)).unwrap());
    round_trip(OpNode::state_block_start(Some("cell-r0-c0")));
    round_trip(OpNode::state_block_start(None));
    round_trip(OpNode::state_block_end());
    round_trip(OpNode::process_start("p", "{}"));
    round_trip(OpNode::process_end("p"));
}

#[test]
fn record_fields_of_an_arc() {
    let rec = to_record(&OpNode::arc_to(b(1.0), b(2.0), b(0.5), b(0.25), true, b(0.0), Some(vec![(Axis::B, b(9.0))])));
    assert_eq!(rec.kind.as_deref(), Some("ARC_TO"));
    assert_eq!(rec.end, Some(Point3D::new(b(1.0), b(2.0), b(0.0))));
    assert_eq!(rec.center_offset, Some(Point::new(b(0.5), b(0.25))));
    assert_eq!(rec.clockwise, Some(true));
    assert_eq!(rec.extra_axes, Some(vec![("B".to_string(), b(9.0))]));
    assert!(rec.power.is_none() && rec.layer_uid.is_none());
}

#[test]
fn record_fields_of_state_and_markers() {
    let rec = to_record(&OpNode::set_coolant(CoolantMode::Mist));
    assert_eq!(rec.kind.as_deref(), Some("SET_COOLANT"));
    assert_eq!(rec.coolant.as_deref(), Some("Mist"));
    let rec = to_record(&OpNode::set_air_assist(AirAssistMode::On));
    assert_eq!(rec.air_assist.as_deref(), Some("On"));
    let rec = to_record(&OpNode::ops_section_end(SectionType::VectorOutline, None).unwrap());
    assert_eq!(rec.section_type.as_deref(), Some("VECTOR_OUTLINE"));
    assert!(rec.raster_mode.is_none() && rec.workpiece_uid.is_none());
    let rec = to_record(&OpNode::set_feed_rate(800));
    assert_eq!(rec.speed, Some(800));
}

#[test]
fn missing_type_and_unknown_type() {
    let mut rec = empty("JOB_START");
    rec.kind = None;
    assert!(matches!(from_record(&rec), Err(RecordError::MissingField(RecordField::Type))));
    let rec = empty("TELEPORT");
    match from_record(&rec) {
        Err(RecordError::UnknownCommandType(s)) => assert_eq!(s, "TELEPORT"),
        other => panic!("unexpected {:?}", other),
    }
}

#[test]
fn unknown_axis_label_comes_before_missing_fields() {
    let mut rec = empty("LINE_TO");
    rec.extra_axes = Some(vec![("A".to_string(), b(1.0)), ("W".to_string(), b(2.0)), ("Q".to_string(), b(0.0))]);
    match from_record(&rec) {
        Err(RecordError::UnknownAxisLabel(s)) => assert_eq!(s, "W"),
        other => panic!("unexpected {:?}", other),
    }
}

#[test]
fn missing_fields_in_order() {
    let rec = empty("ARC_TO");
    assert!(matches!(from_record(&rec), Err(RecordError::MissingField(RecordField::End))));
    let mut rec = empty("ARC_TO");
    rec.end = Some(Point3D::zero());
    assert!(matches!(from_record(&rec), Err(RecordError::MissingField(RecordField::CenterOffset))));
    rec.center_offset = Some(Point::new(0, 0));
    assert!(matches!(from_record(&rec), Err(RecordError::MissingField(RecordField::Clockwise))));
    let mut rec = empty("PROCESS_START");
    rec.process_uid = Some("p".to_string());
    assert!(matches!(from_record(&rec), Err(RecordError::MissingField(RecordField::ProcessParams))));
    assert!(matches!(from_record(&empty("SET_FEED_RATE")), Err(RecordError::MissingField(RecordField::Speed))));
    assert!(matches!(from_record(&empty("OPS_SECTION_END")), Err(RecordError::MissingField(RecordField::SectionType))));
    assert_eq!(RecordField::SpindleSpeed.key(), "spindle_speed");
}

#[test]
fn unknown_section_type() {
    let mut rec = empty("OPS_SECTION_START");
    rec.section_type = Some("HATCH".to_string());
    match from_record(&rec) {
        Err(RecordError::UnknownSectionType(s)) => assert_eq!(s, "HATCH"),
        other => panic!("unexpected {:?}", other),
    }
}

#[test]
fn lenient_fields_when_reading() {
    let mut rec = empty("SET_COOLANT");
    rec.coolant = Some("Spray".to_string());
    match from_record(&rec).unwrap().as_state() {
        Some(StateCmd::SetCoolant(m)) => assert_eq!(*m, CoolantMode::Off),
        other => panic!("unexpected {:?}", other),
    }
    let mut rec = empty("OPS_SECTION_START");
    rec.section_type = Some("VECTOR_OUTLINE".to_string());
    rec.raster_mode = Some("NOT_A_MODE".to_string());
    match from_record(&rec).unwrap().as_marker() {
        Some(MarkerCmd::OpsSectionStart { section_type, workpiece_uid, raster_mode }) => {
            assert_eq!(*section_type, SectionType::VectorOutline);
            assert_eq!(workpiece_uid.as_deref(), Some(""));
            assert_eq!(*raster_mode, None);
        }
        other => panic!("unexpected {:?}", other),
    }
    let mut rec = empty("JOB_END");
    rec.end = Some(Point3D::zero());
    rec.extra_axes = Some(vec![("A".to_string(), 0)]);
    let n = from_record(&rec).unwrap();
    assert_eq!(n.command_type(), CommandType::JobEnd);
    assert!(n.extra_axes().is_none());
}

#[test]
fn scan_line_record() {
    let mut rec = empty("SCAN_LINE");
    rec.end = Some(Point3D::new(b(4.0), 0, 0));
    rec.power_values = Some(vec![1, 2, 3]);
    match &from_record(&rec).unwrap().category {
        OpCategory::Moving { end, cmd: MoveCmd::ScanLine { power_values } } => {
            assert_eq!(*end, Point3D::new(b(4.0), 0, 0));
            assert_eq!(power_values, &vec![1, 2, 3]);
        }
        other => panic!("unexpected {:?}", other),
    }
}

#[test]
fn sequence_round_trips_with_last_move() {
    let mut ops = Ops::new();
    assert_eq!(ops.last_move_to, Point3D::new(0, 0, 0));
    ops.job_start();
    ops.move_to(b(1.0), b(2.0), b(3.0), None);
    ops.line_to(b(4.0), b(5.0), b(6.0), Some(vec![(Axis::A, b(90.0))]));
    ops.layer_start("L1");
    ops.job_end();
    ops.last_move_to = Point3D::new(b(1.0), b(2.0), b(3.0));
    let (records, last) = ops_to_records(&ops);
    assert_eq!(records.len(), 5);
    assert_eq!(records[1].kind.as_deref(), Some("MOVE_TO"));
    assert_eq!(last, Point3D::new(b(1.0), b(2.0), b(3.0)));
    let back = ops_from_records(&records, last).expect("records read back");
    assert_eq!(back.len(), ops.len());
    assert_eq!(back.last_move_to, ops.last_move_to);
    for i in 0..ops.len() {
        assert!(same(&ops.commands[i], &back.commands[i]));
    }
}

#[test]
fn sequence_reading_stops_at_first_bad_record() {
    let records = vec![empty("JOB_START"), empty("TELEPORT"), empty("LINE_TO")];
    match ops_from_records(&records, Point3D::new(0, 0, 0)) {
        Err(RecordError::UnknownCommandType(s)) => assert_eq!(s, "TELEPORT"),
        other => panic!("unexpected {:?}", other.map(|o| o.len())),
    }
    let back = ops_from_records(&vec![], Point3D::new(b(7.0), 0, 0)).expect("empty sequence");
    assert!(back.is_empty());
    assert_eq!(back.last_move_to.x, b(7.0));
}
