use raygeo::ops::container::Ops;
use raygeo::ops::gcode::{
    encode_gcode, gcode_step, letter_for_axis, EncodeAction, EncodeProgress, GcodeStep, POLL_INTERVAL, ops_air_assist, ops_arc_params, ops_bezier_params, ops_coolant,
    ops_dwell, ops_frequency, ops_head_uid, ops_layer_uid, ops_power, ops_pulse_width, ops_rate,
    ops_spindle_rpm, ops_workpiece_uid, GcodeDialectSpec, GcodeWriter, HeadSwitch, ModalState, OpLineRange,
    MACHINE_CODE_TO_OP_NONE,
};
use raygeo::ops::types::{AirAssistMode, Axis, CoolantMode, HeadCoolantMode, OpNode, Point3D, ZERO_BITS};

fn b(v: f64) -> u64 {
    v.to_bits()
}

fn s(v: &[&str]) -> Vec<String> {
    v.iter().map(|x| x.to_string()).collect()
}

fn dialect() -> GcodeDialectSpec {
    GcodeDialectSpec {
        laser_on: "M4 S{power}".to_string(),
        laser_off: "M5".to_string(),
        set_speed: String::new(),
        travel_move: "G0{x_cmd}{y_cmd}{z_cmd}".to_string(),
        linear_move: "G1{x_cmd}{y_cmd}{z_cmd}{f_command}{s_command}".to_string(),
        arc_cw: "G2".to_string(),
        arc_ccw: "G3".to_string(),
        bezier_cubic: String::new(),
        dwell: "G4 P{seconds}".to_string(),
        tool_change: "T{tool_number}".to_string(),
        air_assist_on: "M8".to_string(),
        air_assist_off: "M9".to_string(),
        coolant_flood: "M8".to_string(),
        coolant_mist: "M7".to_string(),
        coolant_off: "M9".to_string(),
        spindle_on_cw: "M3 S{rpm}".to_string(),
        spindle_off: "M5".to_string(),
        preamble: s(&["G21", "G90"]),
        postscript: s(&["M2"]),
        inject_wcs_after_preamble: true,
        omit_unchanged_coords: true,
        continuous_laser_mode: false,
        can_g0_with_speed: false,
        modal_feedrate: true,
        gcode_precision: 3,
    }
}

fn lines(w: &GcodeWriter) -> Vec<String> {
    w.lines.clone()
}

#[test]
fn encode_gcode_joins_lines_and_maps_ops() {
    let op_lines = vec![s(&["G21", "G90"]), s(&[]), s(&["G0 X1", "G1 X2", "G1 X3"]), s(&["M2"])];
    let r = encode_gcode(&op_lines);
    assert_eq!(r.text, "G21\nG90\nG0 X1\nG1 X2\nG1 X3\nM2\n");
    assert_eq!(
        r.op_to_machine_code,
        vec![
            OpLineRange { start: 0, len: 2 },
            OpLineRange { start: 2, len: 0 },
            OpLineRange { start: 2, len: 3 },
            OpLineRange { start: 5, len: 1 },
        ]
    );
    assert_eq!(r.machine_code_to_op, vec![0, 0, 2, 2, 2, 3]);
}

#[test]
fn encode_gcode_of_nothing() {
    let r = encode_gcode(&vec![]);
    assert_eq!(r.text, "");
    assert!(r.op_to_machine_code.is_empty());
    assert!(r.machine_code_to_op.is_empty());
}

#[test]
fn encode_gcode_trailing_empty_line_leaves_one_newline() {
    let r = encode_gcode(&vec![s(&["G1 X1", ""])]);
    assert_eq!(r.text, "G1 X1\n");
    assert_eq!(r.machine_code_to_op, vec![0, 0]);
}

#[test]
fn encode_gcode_every_line_maps_back_to_its_op() {
    let op_lines = vec![s(&["a"]), s(&["b", "c"]), s(&[]), s(&["d"])];
    let r = encode_gcode(&op_lines);
    for (op, range) in r.op_to_machine_code.iter().enumerate() {
        for ln in range.start..range.start + range.len {
            assert_eq!(r.machine_code_to_op[ln as usize], op);
        }
    }
    let total: u32 = r.op_to_machine_code.iter().map(|x| x.len).sum();
    assert_eq!(total as usize, r.machine_code_to_op.len());
}

#[test]
fn writer_lines_without_op_map_to_none() {
    let mut w = GcodeWriter::new();
    w.push_line("G21");
    w.record_op_lines(0, 1);
    w.push_line("M2");
    let r = w.finalize();
    assert_eq!(r.text, "G21\nM2\n");
    assert_eq!(r.op_to_machine_code, vec![OpLineRange { start: 1, len: 0 }]);
    assert_eq!(r.machine_code_to_op, vec![MACHINE_CODE_TO_OP_NONE, MACHINE_CODE_TO_OP_NONE]);
}

#[test]
fn air_assist_is_emitted_only_on_change() {
    let d = dialect();
    let mut st = ModalState::new();
    let mut w = GcodeWriter::new();
    st.handle_air_assist(&mut w, &d, AirAssistMode::On);
    st.handle_air_assist(&mut w, &d, AirAssistMode::On);
    st.handle_air_assist(&mut w, &d, AirAssistMode::Off);
    st.handle_air_assist(&mut w, &d, AirAssistMode::Off);
    assert_eq!(lines(&w), s(&["M8", "M9"]));
    assert!(!st.air_assist);
}

#[test]
fn coolant_is_emitted_only_on_change() {
    let d = dialect();
    let mut st = ModalState::new();
    let mut w = GcodeWriter::new();
    st.handle_coolant(&mut w, &d, CoolantMode::Off);
    st.handle_coolant(&mut w, &d, CoolantMode::Mist);
    st.handle_coolant(&mut w, &d, CoolantMode::Mist);
    st.handle_coolant(&mut w, &d, CoolantMode::Flood);
    assert_eq!(lines(&w), s(&["M9", "M7", "M8"]));
    assert_eq!(st.coolant_mode, Some(CoolantMode::Flood));
}

#[test]
fn empty_command_is_never_emitted() {
    let mut d = dialect();
    d.air_assist_on = String::new();
    let mut st = ModalState::new();
    let mut w = GcodeWriter::new();
    st.handle_air_assist(&mut w, &d, AirAssistMode::On);
    assert!(lines(&w).is_empty());
    assert!(st.air_assist);
}

#[test]
fn laser_off_respects_continuous_mode() {
    let mut d = dialect();
    let mut st = ModalState::new();
    let mut w = GcodeWriter::new();
    st.laser_off(&mut w, &d);
    assert!(lines(&w).is_empty());
    st.laser_active = true;
    st.laser_off(&mut w, &d);
    assert_eq!(lines(&w), s(&["M5"]));
    assert!(!st.laser_active);
    d.continuous_laser_mode = true;
    st.laser_active = true;
    st.laser_off(&mut w, &d);
    assert_eq!(lines(&w), s(&["M5"]));
    assert!(st.laser_active);
}

#[test]
fn spindle_changes() {
    let d = dialect();
    let mut st = ModalState::new();
    let mut w = GcodeWriter::new();
    st.handle_spindle(&mut w, &d, 12000, "M3 S12000");
    st.handle_spindle(&mut w, &d, 12000, "M3 S12000");
    st.handle_spindle(&mut w, &d, 8000, "M3 S8000");
    st.handle_spindle(&mut w, &d, 0, "");
    st.handle_spindle(&mut w, &d, 0, "");
    assert_eq!(lines(&w), s(&["M3 S12000", "M3 S12000", "M5", "M3 S8000", "M5"]));
    assert_eq!(st.spindle_rpm, 0);
}

#[test]
fn job_start_emits_preamble_then_wcs() {
    let d = dialect();
    let mut st = ModalState::new();
    let mut w = GcodeWriter::new();
    st.job_start(&mut w, &d, &s(&["G21", "G90"]), &"G54".to_string());
    assert_eq!(lines(&w), s(&["G21", "G90", "G54"]));
    assert_eq!(st.active_wcs.as_deref(), Some("G54"));
    let mut st2 = ModalState::new();
    let mut w2 = GcodeWriter::new();
    st2.job_start(&mut w2, &d, &s(&["G21"]), &String::new());
    assert_eq!(lines(&w2), s(&["G21"]));
    assert!(st2.active_wcs.is_none());
}

#[test]
fn layer_wcs_switches_only_when_different() {
    let d = dialect();
    let mut st = ModalState::new();
    let mut w = GcodeWriter::new();
    let g55 = "G55".to_string();
    st.layer_wcs(&mut w, &d, Some(&g55));
    st.layer_wcs(&mut w, &d, Some(&g55));
    st.layer_wcs(&mut w, &d, None);
    assert_eq!(lines(&w), s(&["G55"]));
    assert_eq!(st.active_wcs.as_deref(), Some("G55"));
    let mut off = dialect();
    off.inject_wcs_after_preamble = false;
    let g56 = "G56".to_string();
    st.layer_wcs(&mut w, &off, Some(&g56));
    assert_eq!(lines(&w), s(&["G55"]));
}

#[test]
fn job_end_shuts_everything_down_in_order() {
    let d = dialect();
    let mut st = ModalState::new();
    st.laser_active = true;
    st.air_assist = true;
    st.spindle_rpm = 1000;
    st.coolant_mode = Some(CoolantMode::Flood);
    let mut w = GcodeWriter::new();
    st.job_end(&mut w, &d, &s(&["M2"]));
    assert_eq!(lines(&w), s(&["M5", "M9", "M5", "M9", "M2"]));
    assert!(!st.laser_active && !st.air_assist);
    assert_eq!(st.spindle_rpm, 0);
    assert_eq!(st.coolant_mode, Some(CoolantMode::Off));
}

#[test]
fn job_end_when_everything_is_off() {
    let d = dialect();
    let mut st = ModalState::new();
    st.coolant_mode = Some(CoolantMode::Off);
    let mut w = GcodeWriter::new();
    st.job_end(&mut w, &d, &s(&["M30"]));
    assert_eq!(lines(&w), s(&["M30"]));
}

#[test]
fn axis_letters() {
    assert_eq!(letter_for_axis(Axis::A), "A");
    assert_eq!(letter_for_axis(Axis::U), "U");
    assert_eq!(letter_for_axis(Axis::Z), "Z");
}

#[test]
fn op_parameter_accessors() {
    let mut ops = Ops::new();
    ops.push(OpNode::set_power(b(0.75)));
    ops.push(OpNode::set_feed_rate(1200));
    ops.push(OpNode::set_rapid_rate(6000));
    ops.push(OpNode::set_frequency(30000));
    ops.push(OpNode::set_pulse_width(b(0.1)));
    ops.push(OpNode::set_air_assist(AirAssistMode::On));
    ops.push(OpNode::set_coolant(CoolantMode::Flood));
    ops.push(OpNode::set_spindle_rpm(18000));
    ops.push(OpNode::dwell(b(500.0)));
    ops.push(OpNode::set_head("h2"));
    ops.push(OpNode::layer_start("L7"));
    ops.push(OpNode::workpiece_start("W3"));
    ops.push(OpNode::arc_to(b(1.0), b(2.0), b(0.5), b(-0.5), false, b(0.0), None));
    let c1 = Point3D::new(b(1.0), b(1.0), ZERO_BITS);
    let c2 = Point3D::new(b(2.0), b(2.0), ZERO_BITS);
    ops.push(OpNode::bezier_to(c1, c2, Point3D::new(b(3.0), b(3.0), ZERO_BITS), None));
    assert_eq!(ops_power(&ops, 0), b(0.75));
    assert_eq!(ops_rate(&ops, 1), 1200);
    assert_eq!(ops_rate(&ops, 2), 6000);
    assert_eq!(ops_frequency(&ops, 3), 30000);
    assert_eq!(ops_pulse_width(&ops, 4), b(0.1));
    assert_eq!(ops_air_assist(&ops, 5), AirAssistMode::On);
    assert_eq!(ops_coolant(&ops, 6), CoolantMode::Flood);
    assert_eq!(ops_spindle_rpm(&ops, 7), 18000);
    assert_eq!(ops_dwell(&ops, 8), b(500.0));
    assert_eq!(ops_head_uid(&ops, 9).as_deref(), Some("h2"));
    assert_eq!(ops_layer_uid(&ops, 10).as_deref(), Some("L7"));
    assert_eq!(ops_workpiece_uid(&ops, 11).as_deref(), Some("W3"));
    assert_eq!(ops_arc_params(&ops, 12), (b(0.5), b(-0.5), false));
    assert_eq!(ops_bezier_params(&ops, 13), (c1, c2));
}

#[test]
fn op_parameter_defaults_on_other_ops() {
    let mut ops = Ops::new();
    ops.job_start();
    assert_eq!(ops_power(&ops, 0), ZERO_BITS);
    assert_eq!(ops_rate(&ops, 0), 0);
    assert_eq!(ops_frequency(&ops, 0), 0);
    assert_eq!(ops_air_assist(&ops, 0), AirAssistMode::Off);
    assert_eq!(ops_coolant(&ops, 0), CoolantMode::Off);
    assert_eq!(ops_spindle_rpm(&ops, 0), 0);
    assert_eq!(ops_head_uid(&ops, 0), None);
    assert_eq!(ops_layer_uid(&ops, 0), None);
    assert_eq!(ops_arc_params(&ops, 0), (ZERO_BITS, ZERO_BITS, true));
    assert_eq!(ops_bezier_params(&ops, 0), (Point3D::zero(), Point3D::zero()));
}

#[test]
fn head_switch_only_to_known_new_heads() {
    let heads = vec![
        HeadSwitch { uid: "blue".to_string(), tool_change_line: "T1".to_string() },
        HeadSwitch { uid: "ir".to_string(), tool_change_line: "T2".to_string() },
        HeadSwitch { uid: "ir".to_string(), tool_change_line: "T9".to_string() },
    ];
    let mut st = ModalState::new();
    let mut w = GcodeWriter::new();
    st.handle_set_head(&mut w, &heads, &"ir".to_string());
    st.handle_set_head(&mut w, &heads, &"ir".to_string());
    st.handle_set_head(&mut w, &heads, &"uv".to_string());
    assert_eq!(st.active_head.as_deref(), Some("ir"));
    st.handle_set_head(&mut w, &heads, &"blue".to_string());
    assert_eq!(lines(&w), s(&["T2", "T1"]));
    assert_eq!(st.active_head.as_deref(), Some("blue"));
}

#[test]
fn laser_on_only_when_needed() {
    let d = dialect();
    let head = "blue".to_string();
    let mut st = ModalState::new();
    let mut w = GcodeWriter::new();
    st.laser_on(&mut w, &d, &head, false, "M4 S0");
    assert!(lines(&w).is_empty() && !st.laser_active);
    st.laser_on(&mut w, &d, &head, true, "M4 S500");
    st.laser_on(&mut w, &d, &head, true, "M4 S500");
    assert_eq!(lines(&w), s(&["M4 S500"]));
    assert!(st.laser_active);
    assert_eq!(st.active_head.as_deref(), Some("blue"));
}

#[test]
fn continuous_mode_turns_on_without_power() {
    let mut d = dialect();
    d.continuous_laser_mode = true;
    let mut st = ModalState::new();
    let mut w = GcodeWriter::new();
    st.laser_on(&mut w, &d, &"h".to_string(), false, "M3 S0");
    assert_eq!(lines(&w), s(&["M3 S0"]));
    assert!(st.laser_active);
}

#[test]
fn power_updates_while_cutting() {
    let d = dialect();
    let head = "blue".to_string();
    let mut st = ModalState::new();
    let mut w = GcodeWriter::new();
    st.update_power(&mut w, &d, &head, true, "M4 S100");
    assert!(lines(&w).is_empty());
    st.laser_on(&mut w, &d, &head, true, "M4 S100");
    st.update_power(&mut w, &d, &head, true, "M4 S250");
    st.update_power(&mut w, &d, &head, false, "");
    assert_eq!(lines(&w), s(&["M4 S100", "M4 S250", "M5"]));
    assert!(!st.laser_active);
}

#[test]
fn each_command_goes_to_its_step() {
    let mut ops = Ops::new();
    ops.push(OpNode::set_power(b(0.5)));
    ops.push(OpNode::set_air_assist(AirAssistMode::On));
    ops.push(OpNode::set_head("h2"));
    ops.push(OpNode::dwell(b(250.0)));
    ops.push(OpNode::set_head_coolant(HeadCoolantMode::On));
    ops.job_start();
    ops.layer_start("L7");
    ops.layer_end("L7");
    ops.move_to(b(1.0), b(2.0), b(3.0), None);
    ops.job_end();
    assert!(matches!(gcode_step(&ops, 0), GcodeStep::Power(p) if p == b(0.5)));
    assert!(matches!(gcode_step(&ops, 1), GcodeStep::AirAssist(AirAssistMode::On)));
    match gcode_step(&ops, 2) {
        GcodeStep::SetHead(h) => assert_eq!(h, "h2"),
        other => panic!("unexpected {:?}", other),
    }
    assert!(matches!(gcode_step(&ops, 3), GcodeStep::Dwell(d) if d == b(250.0)));
    assert!(matches!(gcode_step(&ops, 4), GcodeStep::Nothing));
    assert!(matches!(gcode_step(&ops, 5), GcodeStep::JobStart));
    match gcode_step(&ops, 6) {
        GcodeStep::LayerStart(u) => assert_eq!(u, "L7"),
        other => panic!("unexpected {:?}", other),
    }
    assert!(matches!(gcode_step(&ops, 7), GcodeStep::LayerEnd));
    assert!(matches!(gcode_step(&ops, 8), GcodeStep::Motion));
    assert!(matches!(gcode_step(&ops, 9), GcodeStep::JobEnd));
}

fn run_progress(len: usize, cancel_at_poll: Option<usize>) -> (Result<(), String>, Vec<usize>, Vec<usize>) {
    let mut p = EncodeProgress::new(len);
    let mut polls_before = Vec::new();
    let mut encoded = Vec::new();
    loop {
        match p.action() {
            EncodeAction::Poll => {
                let cancelled = cancel_at_poll == Some(polls_before.len());
                polls_before.push(p.next);
                if let Err(e) = p.on_poll(cancelled) {
                    return (Err(e), polls_before, encoded);
                }
            }
            EncodeAction::Encode(i) => {
                encoded.push(i);
                p.on_encoded();
            }
            EncodeAction::Finish => return (Ok(()), polls_before, encoded),
        }
    }
}

#[test]
fn encoding_polls_before_every_thousandth_op() {
    assert_eq!(POLL_INTERVAL, 1000);
    for &len in &[0usize, 1, 999, 1000, 1001, 2500] {
        let (r, polls, encoded) = run_progress(len, None);
        assert!(r.is_ok());
        assert_eq!(polls.len(), (len + 999) / 1000);
        assert_eq!(polls, (0..len).filter(|i| i % 1000 == 0).collect::<Vec<_>>());
        assert_eq!(encoded, (0..len).collect::<Vec<_>>());
    }
}

#[test]
fn cancelled_poll_ends_encoding() {
    let (r, polls, encoded) = run_progress(5, Some(0));
    assert_eq!(r, Err("cancelled".to_string()));
    assert_eq!(polls, vec![0]);
    assert!(encoded.is_empty());
    let (r, polls, encoded) = run_progress(2500, Some(2));
    assert_eq!(r, Err("cancelled".to_string()));
    assert_eq!(polls, vec![0, 1000, 2000]);
    assert_eq!(encoded.len(), 2000);
}
