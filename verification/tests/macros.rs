use raygeo::ops::macros::{expand_macro, ExpandedLine, Macro, MacroEntry, MacroLine};

fn code(t: &str) -> MacroLine {
    MacroLine::Code(t.to_string())
}

fn pull(n: &str) -> MacroLine {
    MacroLine::Include(n.to_string())
}

fn mac(name: &str, lines: Vec<MacroLine>, enabled: bool) -> Macro {
    Macro { name: name.to_string(), code: lines, enabled }
}

fn entry(m: Macro) -> MacroEntry {
    MacroEntry { key: m.name.clone(), block: m }
}

fn texts(v: &[ExpandedLine]) -> Vec<String> {
    v.iter()
        .map(|l| match l {
            ExpandedLine::Code(s) => format!("code:{s}"),
            ExpandedLine::Comment(s) => format!("note:{s}"),
        })
        .collect()
}

#[test]
fn plain_macro_keeps_its_lines() {
    let m = mac("start", vec![code("G21"), code("G90")], true);
    let mut stack = Vec::new();
    let out = expand_macro(&m, &vec![], &mut stack);
    assert_eq!(texts(&out), vec!["code:G21", "code:G90"]);
    assert!(stack.is_empty());
}

#[test]
fn includes_expand_in_place() {
    let table = vec![
        entry(mac("home", vec![code("G28")], true)),
        entry(mac("air", vec![code("M8"), pull("home")], true)),
    ];
    let m = mac("start", vec![code("G21"), pull("air"), code("G90")], true);
    let mut stack = Vec::new();
    let out = expand_macro(&m, &table, &mut stack);
    assert_eq!(texts(&out), vec!["code:G21", "code:M8", "code:G28", "code:G90"]);
    assert!(stack.is_empty());
}

#[test]
fn missing_and_disabled_includes_warn() {
    let table = vec![entry(mac("off", vec![code("X")], false))];
    let m = mac("start", vec![pull("nope"), pull("off")], true);
    let out = expand_macro(&m, &table, &mut Vec::new());
    assert_eq!(
        texts(&out),
        vec![
            "note:; WARNING: Macro 'nope' not found or disabled.",
            "note:; WARNING: Macro 'off' not found or disabled.",
        ]
    );
}

#[test]
fn self_include_is_reported_once() {
    let table = vec![entry(mac("loop", vec![code("A"), pull("loop"), code("B")], true))];
    let m = mac("loop", vec![code("A"), pull("loop"), code("B")], true);
    let out = expand_macro(&m, &table, &mut Vec::new());
    assert_eq!(
        texts(&out),
        vec![
            "code:A",
            "note:; ERROR: Circular dependency detected. Macro 'loop' was included again.",
            "code:B",
        ]
    );
}

#[test]
fn mutual_include_cycle_terminates() {
    let table = vec![
        entry(mac("a", vec![code("1"), pull("b")], true)),
        entry(mac("b", vec![code("2"), pull("a")], true)),
    ];
    let m = mac("a", vec![code("1"), pull("b")], true);
    let out = expand_macro(&m, &table, &mut Vec::new());
    assert_eq!(
        texts(&out),
        vec![
            "code:1",
            "code:2",
            "note:; ERROR: Circular dependency detected. Macro 'a' was included again.",
        ]
    );
}

#[test]
fn macro_already_on_the_stack() {
    let m = mac("x", vec![code("1")], true);
    let mut stack = vec!["x".to_string()];
    let out = expand_macro(&m, &vec![], &mut stack);
    assert_eq!(
        texts(&out),
        vec!["note:; ERROR: Circular dependency detected. Macro 'x' was included again."]
    );
    assert_eq!(stack, vec!["x".to_string()]);
}

#[test]
fn same_macro_twice_in_sequence_is_no_cycle() {
    let table = vec![entry(mac("m", vec![code("M")], true))];
    let m = mac("top", vec![pull("m"), pull("m")], true);
    let out = expand_macro(&m, &table, &mut Vec::new());
    assert_eq!(texts(&out), vec!["code:M", "code:M"]);
}

#[test]
fn first_entry_with_the_key_is_used() {
    let table = vec![
        MacroEntry { key: "k".to_string(), block: mac("one", vec![code("1")], true) },
        MacroEntry { key: "k".to_string(), block: mac("two", vec![code("2")], true) },
    ];
    let m = mac("top", vec![pull("k")], true);
    let out = expand_macro(&m, &table, &mut Vec::new());
    assert_eq!(texts(&out), vec!["code:1"]);
}
