use raygeo::cnc::aggregate::{last_positioned, link_plan, source_keys};

#[test]
fn links_only_between_positioned_inputs_in_sequential_mode() {
    assert_eq!(link_plan(&vec![true, true, false, true], true), vec![false, true, false, true]);
    assert_eq!(link_plan(&vec![false, true, true], true), vec![false, false, true]);
    assert_eq!(link_plan(&vec![true, true, true], false), vec![false, false, false]);
    assert_eq!(link_plan(&vec![], true), vec![]);
}

#[test]
fn final_lift_starts_from_the_last_positioned_input() {
    assert_eq!(last_positioned(&vec![true, false, true, false]), Some(2));
    assert_eq!(last_positioned(&vec![false, false]), None);
    assert_eq!(last_positioned(&vec![]), None);
}

#[test]
fn source_keys_are_distinct_and_complete() {
    let groups = vec![
        vec!["a".to_string(), "b".to_string(), "a".to_string()],
        vec![],
        vec!["c".to_string(), "b".to_string()],
    ];
    assert_eq!(source_keys(&groups), vec!["a".to_string(), "b".to_string(), "c".to_string()]);
    assert!(source_keys(&vec![]).is_empty());
}
