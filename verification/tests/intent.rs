use raygeo::cnc::intent::{create_intent, IntentStage, IntentStep, LinkMode, ONE_BITS};

fn names(v: &[&str]) -> Vec<String> {
    v.iter().map(|x| x.to_string()).collect()
}

fn steps(v: &[&str]) -> Vec<IntentStep<String, Option<u32>>> {
    v.iter()
        .enumerate()
        .map(|(i, x)| IntentStep {
            name: x.to_string(),
            assembler: format!("assembler-{}", x),
            face_id: format!("face{}", i),
            region_boundary: if i == 1 { Some(7) } else { None },
        })
        .collect()
}

fn part() -> Vec<u64> {
    vec![1, 2, 3]
}

#[test]
fn empty_plan_has_empty_intent() {
    assert!(create_intent::<String, Option<u32>, Vec<u64>>(&vec![], &part(), 5f64.to_bits(), 3).is_empty());
}

#[test]
fn steps_are_keyed_and_threaded() {
    let z = 5.0f64.to_bits();
    let nodes = create_intent(&steps(&["contour", "pocket", "drill"]), &part(), z, 42);
    assert_eq!(nodes.len(), 4);
    let keys: Vec<&str> = nodes.iter().map(|n| n.key.as_str()).collect();
    assert_eq!(keys, vec!["step:0:contour", "step:1:pocket", "step:2:drill", "aggregate:42"]);
    for n in &nodes {
        assert_eq!(n.generation_id, 42);
        assert_eq!(n.version, 0);
        assert!(n.cacheable);
    }
    match &nodes[0].stage {
        IntentStage::Compute {
            step,
            assembler,
            part: p,
            face_id,
            region_boundary,
            workpiece_uid,
            transformer_count,
            state_source_keys,
            profile,
        } => {
            assert_eq!(*step, 0);
            assert_eq!(assembler, "assembler-contour");
            assert_eq!(p, &part());
            assert_eq!(*region_boundary, None);
            assert_eq!(face_id, "face0");
            assert!(workpiece_uid.is_empty());
            assert_eq!(*transformer_count, 0);
            assert!(!*profile);
            assert!(state_source_keys.is_empty());
        }
        other => panic!("unexpected {:?}", other),
    }
    match &nodes[1].stage {
        IntentStage::Compute { assembler, region_boundary, .. } => {
            assert_eq!(assembler, "assembler-pocket");
            assert_eq!(*region_boundary, Some(7));
        }
        other => panic!("unexpected {:?}", other),
    }
    match &nodes[2].stage {
        IntentStage::Compute { step, face_id, state_source_keys, .. } => {
            assert_eq!(*step, 2);
            assert_eq!(face_id, "face2");
            assert_eq!(state_source_keys, &vec!["step:1:pocket".to_string()]);
        }
        other => panic!("unexpected {:?}", other),
    }
    match &nodes[3].stage {
        IntentStage::Aggregate { spec } => {
            assert!(spec.wrap_start.is_empty());
            assert!(spec.wrap_end.is_empty());
            assert_eq!(spec.transformer_count, 0);
            assert_eq!(spec.machine.default_feed_rate, 0);
            assert_eq!(spec.machine.default_rapid_rate, 0);
            assert_eq!(spec.machine.acceleration, 0);
            assert_eq!(spec.groups.len(), 1);
            let g = &spec.groups[0];
            assert!(g.start_markers.is_empty());
            assert!(g.end_markers.is_empty());
            match g.link_mode {
                LinkMode::Sequential { safe_z } => assert_eq!(safe_z, z),
                LinkMode::Unlinked => panic!("expected sequential linking"),
            }
            let keys: Vec<String> = g.inputs.iter().map(|x| x.source_key.clone()).collect();
            assert_eq!(keys, names(&["step:0:contour", "step:1:pocket", "step:2:drill"]));
            let one = 1.0f64.to_bits();
            assert_eq!(one, ONE_BITS);
            for input in &g.inputs {
                assert_eq!(input.placement_matrix.len(), 16);
                for r in 0..4 {
                    for c in 0..4 {
                        let want = if r == c { one } else { 0 };
                        assert_eq!(input.placement_matrix[r * 4 + c], want);
                    }
                }
                assert!(input.uid.is_empty());
                assert_eq!(input.target_dimensions, (0, 0));
            }
        }
        other => panic!("unexpected {:?}", other),
    }
}

#[test]
fn keys_stay_distinct_with_tricky_names() {
    let mut many: Vec<IntentStep<String, Option<u32>>> = Vec::new();
    for i in 0..12 {
        let name = if i == 1 { "2:x".to_string() } else { "x".to_string() };
        many.push(IntentStep { name, assembler: String::new(), face_id: String::new(), region_boundary: None });
    }
    let nodes = create_intent(&many, &part(), 0, 7);
    let keys: Vec<&str> = nodes.iter().map(|n| n.key.as_str()).collect();
    for a in 0..keys.len() {
        for c in 0..keys.len() {
            if a != c {
                assert_ne!(keys[a], keys[c]);
            }
        }
    }
    assert_eq!(keys[1], "step:1:2:x");
    assert_eq!(keys[11], "step:11:x");
    assert_eq!(keys[12], "aggregate:7");
}

#[test]
fn large_generation_id_is_written_in_full() {
    let nodes = create_intent(&steps(&["a"]), &part(), 0, u64::MAX);
    assert_eq!(nodes[1].key, format!("aggregate:{}", u64::MAX));
}
