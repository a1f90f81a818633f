use raygeo::cnc::face_run::{resolve_face_ids, FaceRun, FaceStep};
use raygeo::ops::assembly::AssemblyWarningKind;

fn ids(v: &[&str]) -> Vec<String> {
    v.iter().map(|x| x.to_string()).collect()
}

#[test]
fn explicit_face_is_the_only_target() {
    let (explicit, faces) = resolve_face_ids(&"2".to_string(), &ids(&["", "1", "2"]));
    assert!(explicit);
    assert_eq!(faces, ids(&["2"]));
}

#[test]
fn empty_face_id_targets_every_face() {
    let (explicit, faces) = resolve_face_ids(&String::new(), &ids(&["", "1", "2"]));
    assert!(!explicit);
    assert_eq!(faces, ids(&["", "1", "2"]));
}

#[test]
fn first_start_and_last_end_are_kept() {
    let mut run: FaceRun<(i32, i32)> = FaceRun::new();
    assert_eq!(run.record(&"".to_string(), Ok(((0, 0), (1, 1)))), FaceStep::Continue);
    assert_eq!(run.record(&"1".to_string(), Err("no geometry".to_string())), FaceStep::Continue);
    assert_eq!(run.record(&"2".to_string(), Ok(((5, 5), (9, 9)))), FaceStep::Continue);
    assert_eq!(run.start, Some((0, 0)));
    assert_eq!(run.end, Some((9, 9)));
    assert_eq!(run.processed_face_ids, ids(&["", "2"]));
    assert_eq!(run.warnings.len(), 1);
    assert_eq!(run.warnings[0].kind, AssemblyWarningKind::FaceFailed);
    assert_eq!(run.warnings[0].face_id, "1");
    assert_eq!(run.warnings[0].region, None);
    assert_eq!(run.warnings[0].detail, "no geometry");
    assert!(run.failure().is_none());
}

#[test]
fn cancellation_stops_and_changes_nothing() {
    let mut run: FaceRun<u8> = FaceRun::new();
    run.record(&"a".to_string(), Err("bad".to_string()));
    assert_eq!(run.record(&"b".to_string(), Err("cancelled".to_string())), FaceStep::Cancelled);
    assert_eq!(run.warnings.len(), 1);
    assert!(run.processed_face_ids.is_empty());
}

#[test]
fn all_failed_joins_the_details() {
    let mut run: FaceRun<u8> = FaceRun::new();
    run.record(&"".to_string(), Err("first".to_string()));
    run.record(&"1".to_string(), Err("second".to_string()));
    run.record(&"2".to_string(), Err("third".to_string()));
    assert_eq!(run.failure(), Some("first; second; third".to_string()));
}

#[test]
fn nothing_attempted_is_no_failure() {
    let run: FaceRun<u8> = FaceRun::new();
    assert_eq!(run.failure(), None);
}

#[test]
fn one_failure_alone_is_the_message() {
    let mut run: FaceRun<u8> = FaceRun::new();
    run.record(&"".to_string(), Err("only".to_string()));
    assert_eq!(run.failure(), Some("only".to_string()));
}
