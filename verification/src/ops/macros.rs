//! Macro expansion for G-code output: `@include` lines pull in other
//! macros recursively, a macro that is already being expanded is reported
//! as a circular dependency instead of being expanded again, and missing
//! or disabled macros are reported as warnings.
//!
//! The lines of a macro arrive already classified: an include line
//! carries the name it includes, any other line is code. Code lines come
//! out unchanged; resolving their path variables is left to the caller.
use vstd::prelude::*;

use crate::text::{str_equals, str_views};

verus! {

/// One line of a macro.
#[derive(Debug)]
pub enum MacroLine {
    /// `@include(name)`: expand the macro registered under `name` here.
    Include(String),
    /// Any other line.
    Code(String),
}

/// A named block of lines.
#[derive(Debug)]
pub struct Macro {
    pub name: String,
    pub code: Vec<MacroLine>,
    pub enabled: bool,
}

/// A macro registered under a key.
#[derive(Debug)]
pub struct MacroEntry {
    pub key: String,
    pub block: Macro,
}

/// One line of an expansion.
#[derive(Debug)]
pub enum ExpandedLine {
    /// A code line of some macro, still to have its path variables resolved.
    Code(String),
    /// A comment line reporting a problem.
    Comment(String),
}

/// The character content of an expanded line.
pub enum ExpandedLineView {
    Code(Seq<char>),
    Comment(Seq<char>),
}

/// The view of an expanded line.
pub open spec fn expanded_view(l: ExpandedLine) -> ExpandedLineView {
    match l {
        ExpandedLine::Code(s) => ExpandedLineView::Code(s@),
        ExpandedLine::Comment(s) => ExpandedLineView::Comment(s@),
    }
}

/// The views of a sequence of expanded lines.
pub open spec fn expanded_views(s: Seq<ExpandedLine>) -> Seq<ExpandedLineView> {
    s.map_values(|l: ExpandedLine| expanded_view(l))
}

/// `; WARNING: Macro '<name>' not found or disabled.`
pub open spec fn missing_note(name: Seq<char>) -> Seq<char> {
    "; WARNING: Macro '"@ + name + "' not found or disabled."@
}

/// `; ERROR: Circular dependency detected. Macro '<name>' was included again.`
pub open spec fn circular_note(name: Seq<char>) -> Seq<char> {
    "; ERROR: Circular dependency detected. Macro '"@ + name + "' was included again."@
}

/// The index of the first entry registered under `key`, if any.
pub open spec fn lookup(table: Seq<MacroEntry>, key: Seq<char>) -> Option<int>
    decreases table.len(),
{
    if table.len() == 0 {
        None
    } else {
        match lookup(table.drop_last(), key) {
            Some(k) => Some(k),
            None => if table.last().key@ == key {
                Some(table.len() - 1)
            } else {
                None
            },
        }
    }
}

/// A found entry is in the table and registered under the key.
pub proof fn lemma_lookup_found(table: Seq<MacroEntry>, key: Seq<char>)
    ensures
        lookup(table, key) matches Some(k) ==> 0 <= k < table.len() && table[k].key@ == key,
    decreases table.len(),
{
    if table.len() > 0 {
        lemma_lookup_found(table.drop_last(), key);
    }
}

/// No two entries of the table are registered under the same key, as in a
/// table built from a map.
pub open spec fn keys_distinct(table: Seq<MacroEntry>) -> bool {
    forall|i: int, j: int|
        0 <= i < table.len() && 0 <= j < table.len() && i != j ==> #[trigger] table[i].key@ != #[trigger] table[j].key@
}

/// In a table whose keys are distinct, looking a key up finds the one
/// entry registered under it, and nothing for a key that no entry has: the
/// table then reads as the map it was built from.
pub proof fn lemma_lookup_unique(table: Seq<MacroEntry>, key: Seq<char>)
    requires
        keys_distinct(table),
    ensures
        forall|k: int| 0 <= k < table.len() && #[trigger] table[k].key@ == key ==> lookup(table, key) == Some(k),
        (forall|k: int| 0 <= k < table.len() ==> #[trigger] table[k].key@ != key) ==> lookup(table, key) is None,
    decreases table.len(),
{
    lemma_lookup_found(table, key);
    if table.len() > 0 {
        let t = table.drop_last();
        assert(keys_distinct(t)) by {
            assert forall|i: int, j: int| 0 <= i < t.len() && 0 <= j < t.len() && i != j implies #[trigger] t[i].key@
                != #[trigger] t[j].key@ by {
                assert(t[i] == table[i] && t[j] == table[j]);
            }
        }
        lemma_lookup_unique(t, key);
        lemma_lookup_found(t, key);
        assert forall|k: int| 0 <= k < table.len() && #[trigger] table[k].key@ == key implies lookup(table, key)
            == Some(k) by {
            if k < table.len() - 1 {
                assert(t[k] == table[k]);
            } else {
                if let Some(m) = lookup(t, key) {
                    assert(t[m] == table[m]);
                }
            }
        }
        if forall|k: int| 0 <= k < table.len() ==> #[trigger] table[k].key@ != key {
            assert forall|k: int| 0 <= k < t.len() implies #[trigger] t[k].key@ != key by {
                assert(t[k] == table[k]);
            }
            assert(table[table.len() - 1].key@ != key);
        }
    }
}

proof fn lemma_lookup_prefix(table: Seq<MacroEntry>, key: Seq<char>, n: int)
    requires
        0 <= n <= table.len(),
        lookup(table.take(n), key) is Some,
    ensures
        lookup(table, key) == lookup(table.take(n), key),
    decreases table.len(),
{
    if n == table.len() {
        assert(table.take(n) =~= table);
    } else {
        assert(table.drop_last().take(n) =~= table.take(n));
        lemma_lookup_prefix(table.drop_last(), key, n);
    }
}

/// The number of table entries whose macro is not on the stack of macros
/// being expanded.
pub open spec fn unvisited(table: Seq<MacroEntry>, stack: Seq<Seq<char>>) -> nat
    decreases table.len(),
{
    if table.len() == 0 {
        0
    } else {
        unvisited(table.drop_last(), stack) + if stack.contains(table.last().block.name@) {
            0nat
        } else {
            1nat
        }
    }
}

/// Pushing a table macro that is not yet on the stack leaves fewer
/// unvisited entries, which is why expansion always terminates.
pub proof fn lemma_unvisited_push(table: Seq<MacroEntry>, stack: Seq<Seq<char>>, name: Seq<char>, k: int)
    requires
        !stack.contains(name),
        0 <= k < table.len(),
        table[k].block.name@ == name,
    ensures
        unvisited(table, stack.push(name)) < unvisited(table, stack),
    decreases table.len(),
{
    lemma_unvisited_push_le(table.drop_last(), stack, name);
    if k < table.len() - 1 {
        lemma_unvisited_push(table.drop_last(), stack, name, k);
    }
    assert(stack.push(name).contains(name) ==> true);
    assert(stack.push(name)[stack.len() as int] == name);
    if stack.contains(table.last().block.name@) {
        let w = choose|w: int| 0 <= w < stack.len() && stack[w] == table.last().block.name@;
        assert(stack.push(name)[w] == stack[w]);
    }
}

/// Pushing a name never adds unvisited entries.
pub proof fn lemma_unvisited_push_le(table: Seq<MacroEntry>, stack: Seq<Seq<char>>, name: Seq<char>)
    ensures
        unvisited(table, stack.push(name)) <= unvisited(table, stack),
    decreases table.len(),
{
    if table.len() > 0 {
        lemma_unvisited_push_le(table.drop_last(), stack, name);
        if stack.contains(table.last().block.name@) {
            let w = choose|w: int| 0 <= w < stack.len() && stack[w] == table.last().block.name@;
            assert(stack.push(name)[w] == stack[w]);
        }
    }
}

/// The expansion of one macro line while the macros on `stack` are being
/// expanded: a code line stays as it is; an include of an enabled macro
/// that is not on the stack expands that macro's lines with it pushed on
/// the stack; an include of one that is on the stack gives a circular
/// dependency note; an include of a missing or disabled macro gives a
/// warning.
pub open spec fn expand_line(line: MacroLine, table: Seq<MacroEntry>, stack: Seq<Seq<char>>) -> Seq<ExpandedLineView>
    decreases unvisited(table, stack), 0nat,
{
    match line {
        MacroLine::Code(t) => seq![ExpandedLineView::Code(t@)],
        MacroLine::Include(name) => match lookup(table, name@) {
            Some(k) => {
                let found = table[k].block;
                proof {
                    lemma_lookup_found(table, name@);
                }
                if !found.enabled {
                    seq![ExpandedLineView::Comment(missing_note(name@))]
                } else if stack.contains(found.name@) {
                    seq![ExpandedLineView::Comment(circular_note(found.name@))]
                } else {
                    proof {
                        lemma_unvisited_push(table, stack, found.name@, k);
                    }
                    expand_code(found.code@, table, stack.push(found.name@))
                }
            },
            None => seq![ExpandedLineView::Comment(missing_note(name@))],
        },
    }
}

/// The expansion of a sequence of macro lines, line by line, in order.
pub open spec fn expand_code(code: Seq<MacroLine>, table: Seq<MacroEntry>, stack: Seq<Seq<char>>) -> Seq<ExpandedLineView>
    decreases unvisited(table, stack), code.len(),
{
    if code.len() == 0 {
        seq![]
    } else {
        expand_code(code.drop_last(), table, stack) + expand_line(code.last(), table, stack)
    }
}

/// The expansion of a macro while the macros on `stack` are being
/// expanded: a circular dependency note when it is itself on the stack,
/// otherwise its lines expanded with it pushed on the stack.
pub open spec fn expansion(m: Macro, table: Seq<MacroEntry>, stack: Seq<Seq<char>>) -> Seq<ExpandedLineView> {
    if stack.contains(m.name@) {
        seq![ExpandedLineView::Comment(circular_note(m.name@))]
    } else {
        expand_code(m.code@, table, stack.push(m.name@))
    }
}

fn find_entry(table: &Vec<MacroEntry>, key: &String) -> (r: Option<usize>)
    ensures
        r matches Some(k) ==> k < table@.len() && lookup(table@, key@) == Some(k as int),
        r is None ==> lookup(table@, key@) is None,
{
    let mut i: usize = 0;
    assert(table@.take(0) =~= Seq::<MacroEntry>::empty());
    while i < table.len()
        invariant
            i <= table@.len(),
            lookup(table@.take(i as int), key@) is None,
        decreases table@.len() - i,
    {
        assert(table@.take(i + 1).drop_last() =~= table@.take(i as int));
        if str_equals(table[i].key.as_str(), key.as_str()) {
            assert(lookup(table@.take(i + 1), key@) == Some(i as int));
            proof {
                lemma_lookup_prefix(table@, key@, i + 1);
            }
            return Some(i);
        }
        i = i + 1;
    }
    assert(table@.take(table@.len() as int) =~= table@);
    None
}

fn on_stack(stack: &Vec<String>, name: &String) -> (r: bool)
    ensures
        r == str_views(stack@).contains(name@),
{
    let mut i: usize = 0;
    while i < stack.len()
        invariant
            i <= stack@.len(),
            forall|j: int| 0 <= j < i ==> (#[trigger] stack@[j])@ != name@,
        decreases stack@.len() - i,
    {
        if str_equals(stack[i].as_str(), name.as_str()) {
            assert(str_views(stack@)[i as int] == name@);
            return true;
        }
        i = i + 1;
    }
    proof {
        if str_views(stack@).contains(name@) {
            let w = choose|w: int| 0 <= w < str_views(stack@).len() && str_views(stack@)[w] == name@;
            assert(stack@[w]@ != name@);
        }
    }
    false
}

proof fn lemma_pop_views(pushed: Seq<String>, popped: Seq<String>, st: Seq<Seq<char>>, name: Seq<char>)
    requires
        str_views(pushed) == st.push(name),
        popped == pushed.subrange(0, pushed.len() - 1),
    ensures
        str_views(popped) == st,
{
    assert(str_views(pushed).len() == pushed.len());
    assert forall|j: int| 0 <= j < st.len() implies #[trigger] str_views(popped)[j] == st[j] by {
        assert(popped[j] == pushed[j]);
        assert(str_views(pushed)[j] == pushed[j]@);
        assert(st.push(name)[j] == st[j]);
    }
    assert(str_views(popped) =~= st);
}

fn note(prefix: &str, name: &String, suffix: &str) -> (r: String)
    ensures
        r@ == prefix@ + name@ + suffix@,
{
    let mut s = String::new();
    s.append(prefix);
    s.append(name.as_str());
    s.append(suffix);
    assert(s@ =~= prefix@ + name@ + suffix@);
    s
}

fn expand_lines_into(
    code: &Vec<MacroLine>,
    table: &Vec<MacroEntry>,
    stack: &mut Vec<String>,
    out: &mut Vec<ExpandedLine>,
)
    ensures
        str_views(final(stack)@) == str_views(old(stack)@),
        expanded_views(final(out)@) == expanded_views(old(out)@) + expand_code(
            code@,
            table@,
            str_views(old(stack)@),
        ),
    decreases unvisited(table@, str_views(old(stack)@)), code@.len(),
{
    let ghost st = str_views(stack@);
    let ghost out0 = expanded_views(out@);
    let mut i: usize = 0;
    while i < code.len()
        invariant
            i <= code@.len(),
            str_views(stack@) == st,
            st == str_views(old(stack)@),
            expanded_views(out@) == out0 + expand_code(code@.subrange(0, i as int), table@, st),
        decreases code@.len() - i,
    {
        let ghost before = expanded_views(out@);
        proof {
            assert(code@.subrange(0, i + 1).drop_last() =~= code@.subrange(0, i as int));
            assert(code@.subrange(0, i + 1).last() == code@[i as int]);
        }
        match &code[i] {
            MacroLine::Code(t) => {
                out.push(ExpandedLine::Code(t.clone()));
                assert(expanded_views(out@) =~= before + seq![ExpandedLineView::Code(t@)]);
            },
            MacroLine::Include(name) => {
                match find_entry(table, name) {
                    None => {
                        out.push(
                            ExpandedLine::Comment(
                                note("; WARNING: Macro '", name, "' not found or disabled."),
                            ),
                        );
                        assert(expanded_views(out@) =~= before + seq![
                            ExpandedLineView::Comment(missing_note(name@)),
                        ]);
                    },
                    Some(k) => {
                        let found = &table[k].block;
                        if !found.enabled {
                            out.push(
                                ExpandedLine::Comment(
                                    note("; WARNING: Macro '", name, "' not found or disabled."),
                                ),
                            );
                            assert(expanded_views(out@) =~= before + seq![
                                ExpandedLineView::Comment(missing_note(name@)),
                            ]);
                        } else if on_stack(stack, &found.name) {
                            out.push(
                                ExpandedLine::Comment(
                                    note(
                                        "; ERROR: Circular dependency detected. Macro '",
                                        &found.name,
                                        "' was included again.",
                                    ),
                                ),
                            );
                            assert(expanded_views(out@) =~= before + seq![
                                ExpandedLineView::Comment(circular_note(found.name@)),
                            ]);
                        } else {
                            proof {
                                lemma_unvisited_push(table@, st, found.name@, k as int);
                            }
                            stack.push(found.name.clone());
                            assert(str_views(stack@) =~= st.push(found.name@));
                            expand_lines_into(&found.code, table, stack, out);
                            let ghost pushed = stack@;
                            assert(str_views(pushed) =~= st.push(found.name@));
                            assert(pushed.len() == st.len() + 1);
                            stack.pop();
                            proof {
                                lemma_pop_views(pushed, stack@, st, found.name@);
                                lemma_lookup_found(table@, name@);
                                assert(table@[k as int].block == *found);
                                assert(expand_line(code@[i as int], table@, st) == expand_code(
                                    found.code@,
                                    table@,
                                    st.push(found.name@),
                                ));
                            }
                        }
                    },
                }
            },
        }
        assert(expanded_views(out@) == before + expand_line(code@[i as int], table@, st));
        i = i + 1;
    }
    proof {
        assert(code@.subrange(0, code@.len() as int) =~= code@);
    }
}

/// Expand macro `m` while the macros named on `call_stack` are being
/// expanded; see `expansion`. The call stack is left as it was.
pub fn expand_macro(m: &Macro, table: &Vec<MacroEntry>, call_stack: &mut Vec<String>) -> (r: Vec<ExpandedLine>)
    ensures
        expanded_views(r@) == expansion(*m, table@, str_views(old(call_stack)@)),
        str_views(final(call_stack)@) == str_views(old(call_stack)@),
{
    let mut out: Vec<ExpandedLine> = Vec::new();
    if on_stack(call_stack, &m.name) {
        out.push(
            ExpandedLine::Comment(
                note("; ERROR: Circular dependency detected. Macro '", &m.name, "' was included again."),
            ),
        );
        assert(expanded_views(out@) =~= seq![ExpandedLineView::Comment(circular_note(m.name@))]);
        return out;
    }
    let ghost st = str_views(call_stack@);
    call_stack.push(m.name.clone());
    assert(str_views(call_stack@) =~= st.push(m.name@));
    expand_lines_into(&m.code, table, call_stack, &mut out);
    let ghost pushed = call_stack@;
    assert(str_views(pushed) =~= st.push(m.name@));
    assert(pushed.len() == st.len() + 1);
    call_stack.pop();
    proof {
        lemma_pop_views(pushed, call_stack@, st, m.name@);
    }
    assert(expanded_views(out@) =~= expand_code(m.code@, table@, st.push(m.name@)));
    out
}

} // verus!
