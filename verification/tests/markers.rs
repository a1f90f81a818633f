use raygeo::ops::container::Ops;
use raygeo::ops::enums::CommandType;
use raygeo::ops::markers::{emit_marker, emit_markers, Marker};
use raygeo::ops::types::MarkerCmd;

#[test]
fn each_marker_becomes_its_command() {
    let mut ops = Ops::new();
    emit_marker(&mut ops, &Marker::LayerStart { uid: "L".to_string() });
    assert_eq!(ops.command_type(0), CommandType::LayerStart);
    match ops.commands[0].as_marker() {
        Some(MarkerCmd::LayerStart(u)) => assert_eq!(u, "L"),
        other => panic!("unexpected {:?}", other),
    }
}

#[test]
fn markers_are_appended_in_order() {
    let mut ops = Ops::new();
    ops.job_start();
    let markers = vec![
        Marker::WorkpieceStart { uid: "w".to_string() },
        Marker::ProcessStart { uid: "p".to_string(), params: "{\"a\":1}".to_string() },
        Marker::ProcessEnd { uid: "p".to_string() },
        Marker::WorkpieceEnd { uid: "w".to_string() },
        Marker::LayerEnd { uid: "l".to_string() },
        Marker::JobEnd,
    ];
    emit_markers(&mut ops, &markers);
    let types: Vec<CommandType> = (0..ops.len()).map(|i| ops.command_type(i)).collect();
    assert_eq!(
        types,
        vec![
            CommandType::JobStart,
            CommandType::WorkpieceStart,
            CommandType::ProcessStart,
            CommandType::ProcessEnd,
            CommandType::WorkpieceEnd,
            CommandType::LayerEnd,
            CommandType::JobEnd,
        ]
    );
    match ops.commands[2].as_marker() {
        Some(MarkerCmd::ProcessStart { uid, params }) => {
            assert_eq!(uid, "p");
            assert_eq!(params, "{\"a\":1}");
        }
        other => panic!("unexpected {:?}", other),
    }
}
