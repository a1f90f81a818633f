//! G-code bookkeeping: the emitted lines, the two-way map between ops and
//! lines, modal machine state, and typed access to op parameters.
use vstd::prelude::*;

use crate::ops::container::Ops;
use crate::text::str_views;
use crate::ops::types::{
    AirAssistMode, Axis, CoolantMode, MarkerCmd, MoveCmd, OpCategory, Point3D, StateCmd, ZERO_BITS,
};

verus! {

/// The span of emitted lines `[start, start + len)` produced by one op.
#[derive(Clone, Copy, Debug, PartialEq, Eq, Structural)]
pub struct OpLineRange {
    pub start: u32,
    pub len: u32,
}

/// The line-to-op entry of a line that belongs to no op.
pub const MACHINE_CODE_TO_OP_NONE: usize = usize::MAX;

/// The finished machine code and its op/line maps.
#[derive(Debug)]
pub struct EncodeResult {
    pub text: String,
    pub op_to_machine_code: Vec<OpLineRange>,
    pub machine_code_to_op: Vec<usize>,
}

/// Accumulates emitted lines and the op/line maps while an op sequence
/// is encoded.
#[derive(Debug)]
pub struct GcodeWriter {
    pub lines: Vec<String>,
    pub op_to_machine_code: Vec<OpLineRange>,
    pub machine_code_to_op: Vec<usize>,
}

/// The lines joined, each followed by a newline.
pub open spec fn joined(lines: Seq<Seq<char>>) -> Seq<char>
    decreases lines.len(),
{
    if lines.len() == 0 {
        seq![]
    } else {
        joined(lines.drop_last()) + lines.last() + seq!['\n']
    }
}

/// The text of the lines as emitted: joined with newlines, except that a
/// text ending in two newlines loses the last one. Only one newline is
/// dropped: after two or more trailing empty lines the text still ends in
/// two or more newlines.
pub open spec fn emitted_text(lines: Seq<Seq<char>>) -> Seq<char> {
    let j = joined(lines);
    if j.len() >= 2 && j[j.len() - 1] == '\n' && j[j.len() - 2] == '\n' {
        j.drop_last()
    } else {
        j
    }
}

/// Non-empty output always ends with a newline.
pub proof fn lemma_emitted_text_ends_with_newline(lines: Seq<Seq<char>>)
    requires
        lines.len() > 0,
    ensures
        emitted_text(lines).len() > 0,
        emitted_text(lines).last() == '\n',
{
    let j = joined(lines);
    assert(j == joined(lines.drop_last()) + lines.last() + seq!['\n']);
    assert(j.last() == '\n');
}

/// An empty line after a line that does not itself end with a newline
/// adds no blank line: the text ends with exactly one newline either way.
pub proof fn lemma_trailing_empty_line_adds_nothing(lines: Seq<Seq<char>>)
    requires
        lines.len() > 0,
        lines.last().len() > 0,
        lines.last().last() != '\n',
    ensures
        emitted_text(lines.push(seq![])) == emitted_text(lines),
{
    let j = joined(lines);
    let l = lines.last();
    assert(j == joined(lines.drop_last()) + l + seq!['\n']);
    assert(j[j.len() - 2] == l.last());
    assert(lines.push(seq![]).drop_last() =~= lines);
    let k = joined(lines.push(seq![]));
    assert(k =~= j + seq!['\n']);
    assert(k.drop_last() =~= j);
}

/// The op ranges `ranges` cover lines `[0, total)` one after another, in op
/// order, and `map` sends every line back to the op whose range holds it.
pub open spec fn maps_consistent(ranges: Seq<OpLineRange>, map: Seq<usize>, total: int) -> bool {
    &&& map.len() == total
    &&& ranges.len() == 0 ==> total == 0
    &&& ranges.len() > 0 ==> ranges[0].start == 0 && ranges.last().start + ranges.last().len == total
    &&& forall|i: int|
        0 <= i < ranges.len() - 1 ==> #[trigger] ranges[i].start + ranges[i].len == ranges[i + 1].start
    &&& forall|i: int, ln: int|
        0 <= i < ranges.len() && (#[trigger] ranges[i]).start <= ln < ranges[i].start + ranges[i].len
            ==> #[trigger] map[ln] == i
}

impl GcodeWriter {
    pub fn new() -> (r: GcodeWriter)
        ensures
            r.lines@.len() == 0,
            r.op_to_machine_code@.len() == 0,
            r.machine_code_to_op@.len() == 0,
    {
        GcodeWriter {
            lines: Vec::new(),
            op_to_machine_code: Vec::new(),
            machine_code_to_op: Vec::new(),
        }
    }

    /// The number of lines emitted so far.
    pub fn line_count(&self) -> (r: usize)
        ensures
            r == self.lines@.len(),
    {
        self.lines.len()
    }

    /// Emit one line.
    pub fn push_line(&mut self, line: &str)
        ensures
            str_views(final(self).lines@) == str_views(old(self).lines@).push(line@),
            final(self).lines@.len() == old(self).lines@.len() + 1,
            final(self).op_to_machine_code@ == old(self).op_to_machine_code@,
            final(self).machine_code_to_op@ == old(self).machine_code_to_op@,
    {
        self.lines.push(line.to_owned());
        assert(str_views(self.lines@) =~= str_views(old(self).lines@).push(line@));
    }

    /// Emit each of `lines` in order.
    pub fn push_lines(&mut self, lines: &Vec<String>)
        ensures
            final(self).op_to_machine_code@ == old(self).op_to_machine_code@,
            final(self).machine_code_to_op@ == old(self).machine_code_to_op@,
            str_views(final(self).lines@) == str_views(old(self).lines@) + str_views(lines@),
            final(self).lines@.len() == old(self).lines@.len() + lines@.len(),
    {
        let mut i: usize = 0;
        while i < lines.len()
            invariant
                i <= lines@.len(),
                self.op_to_machine_code@ == old(self).op_to_machine_code@,
                self.machine_code_to_op@ == old(self).machine_code_to_op@,
                str_views(self.lines@) == str_views(old(self).lines@) + str_views(lines@.subrange(0, i as int)),
                self.lines@.len() == old(self).lines@.len() + i,
            decreases lines@.len() - i,
        {
            self.push_line(lines[i].as_str());
            assert(str_views(lines@.subrange(0, i + 1)) =~= str_views(lines@.subrange(0, i as int)).push(
                lines@[i as int]@,
            ));
            i = i + 1;
        }
        assert(lines@.subrange(0, lines@.len() as int) =~= lines@);
    }

    /// Record that op `op_idx` produced the lines from `start_line` up to
    /// the current line count: append its line range, extend the
    /// line-to-op map to the current line count (new entries belong to no
    /// op), then point each of those lines at `op_idx`.
    pub fn record_op_lines(&mut self, op_idx: usize, start_line: usize)
        requires
            start_line <= old(self).lines@.len(),
        ensures
            final(self).lines@ == old(self).lines@,
            final(self).op_to_machine_code@ == old(self).op_to_machine_code@.push(
                OpLineRange {
                    start: start_line as u32,
                    len: (old(self).lines@.len() - start_line) as u32,
                },
            ),
            final(self).machine_code_to_op@.len() == old(self).lines@.len(),
            forall|ln: int|
                0 <= ln < old(self).lines@.len() ==> #[trigger] final(self).machine_code_to_op@[ln] == if start_line
                    <= ln {
                    op_idx
                } else if ln < old(self).machine_code_to_op@.len() {
                    old(self).machine_code_to_op@[ln]
                } else {
                    MACHINE_CODE_TO_OP_NONE
                },
    {
        let end_line = self.lines.len();
        self.op_to_machine_code.push(
            OpLineRange {
                start: #[verifier::truncate] (start_line as u32),
                len: #[verifier::truncate] ((end_line - start_line) as u32),
            },
        );
        let ghost before = self.machine_code_to_op@;
        let old_len = self.machine_code_to_op.len();
        let mut map: Vec<usize> = Vec::new();
        let mut ln: usize = 0;
        while ln < end_line
            invariant
                end_line == old(self).lines@.len(),
                before == old(self).machine_code_to_op@,
                self.machine_code_to_op@ == before,
                old_len == before.len(),
                start_line <= end_line,
                ln <= end_line,
                map@.len() == ln,
                forall|j: int|
                    0 <= j < ln ==> #[trigger] map@[j] == if start_line <= j {
                        op_idx
                    } else if j < before.len() {
                        before[j]
                    } else {
                        MACHINE_CODE_TO_OP_NONE
                    },
            decreases end_line - ln,
        {
            if start_line <= ln {
                map.push(op_idx);
            } else if ln < old_len {
                map.push(self.machine_code_to_op[ln]);
            } else {
                map.push(MACHINE_CODE_TO_OP_NONE);
            }
            ln = ln + 1;
        }
        self.machine_code_to_op = map;
    }

    /// Finish the encoding: join the lines into the output text (see
    /// `emitted_text`) and extend the line-to-op map to cover every line.
    pub fn finalize(self) -> (r: EncodeResult)
        ensures
            r.text@ == emitted_text(str_views(self.lines@)),
            r.op_to_machine_code@ == self.op_to_machine_code@,
            r.machine_code_to_op@.len() == self.lines@.len(),
            forall|ln: int|
                0 <= ln < self.lines@.len() ==> #[trigger] r.machine_code_to_op@[ln] == if ln
                    < self.machine_code_to_op@.len() {
                    self.machine_code_to_op@[ln]
                } else {
                    MACHINE_CODE_TO_OP_NONE
                },
    {
        let n = self.lines.len();
        let ghost views = str_views(self.lines@);
        let mut text = String::new();
        let mut i: usize = 0;
        while i + 1 < n
            invariant
                n == self.lines@.len(),
                views == str_views(self.lines@),
                i + 1 <= n || n == 0,
                i <= n,
                text@ == joined(views.subrange(0, i as int)),
            decreases n - i,
        {
            text.append(self.lines[i].as_str());
            text.append("\n");
            proof {
                reveal_strlit("\n");
                assert(views.subrange(0, i + 1).drop_last() =~= views.subrange(0, i as int));
                assert(views.subrange(0, i + 1).last() == self.lines@[i as int]@);
            }
            i = i + 1;
        }
        if n > 0 {
            text.append(self.lines[n - 1].as_str());
            proof {
                assert(views.subrange(0, n as int).drop_last() =~= views.subrange(0, n - 1));
                assert(views.subrange(0, n as int) =~= views);
            }
            let len = text.as_str().unicode_len();
            let ends_newline = len > 0 && text.as_str().get_char(len - 1) == '\n';
            if !ends_newline {
                text.append("\n");
                proof {
                    reveal_strlit("\n");
                }
            }
        }
        let mut map: Vec<usize> = Vec::new();
        let old_len = self.machine_code_to_op.len();
        let mut ln: usize = 0;
        while ln < n
            invariant
                n == self.lines@.len(),
                old_len == self.machine_code_to_op@.len(),
                ln <= n,
                map@.len() == ln,
                forall|j: int|
                    0 <= j < ln ==> #[trigger] map@[j] == if j < old_len {
                        self.machine_code_to_op@[j]
                    } else {
                        MACHINE_CODE_TO_OP_NONE
                    },
            decreases n - ln,
        {
            if ln < old_len {
                map.push(self.machine_code_to_op[ln]);
            } else {
                map.push(MACHINE_CODE_TO_OP_NONE);
            }
            ln = ln + 1;
        }
        EncodeResult { text, op_to_machine_code: self.op_to_machine_code, machine_code_to_op: map }
    }
}

/// The lines emitted for each op, as character sequences.
pub open spec fn op_line_views(op_lines: Seq<Vec<String>>) -> Seq<Seq<Seq<char>>> {
    op_lines.map_values(|v: Vec<String>| str_views(v@))
}

/// The number of lines emitted before op `i`.
pub open spec fn lines_before(groups: Seq<Seq<Seq<char>>>, i: int) -> int {
    groups.take(i).flatten_alt().len() as int
}

/// Encode an op sequence whose ops emitted `op_lines` (the lines of op
/// `i` in `op_lines[i]`, in order): the text holds every line in op
/// order (see `emitted_text`), op `i` owns the line range that starts
/// after the lines of the ops before it and spans its own lines, and
/// every line maps back to the op that emitted it.
pub fn encode_gcode(op_lines: &Vec<Vec<String>>) -> (r: EncodeResult)
    requires
        op_line_views(op_lines@).flatten_alt().len() < 0x1_0000_0000,
    ensures
        r.text@ == emitted_text(op_line_views(op_lines@).flatten_alt()),
        r.op_to_machine_code@.len() == op_lines@.len(),
        forall|i: int|
            0 <= i < op_lines@.len() ==> #[trigger] r.op_to_machine_code@[i] == (OpLineRange {
                start: lines_before(op_line_views(op_lines@), i) as u32,
                len: op_lines@[i]@.len() as u32,
            }),
        maps_consistent(
            r.op_to_machine_code@,
            r.machine_code_to_op@,
            op_line_views(op_lines@).flatten_alt().len() as int,
        ),
{
    let ghost groups = op_line_views(op_lines@);
    let mut w = GcodeWriter::new();
    let n = op_lines.len();
    let mut i: usize = 0;
    proof {
        assert(groups.take(0).flatten_alt() =~= Seq::<Seq<char>>::empty());
        assert(str_views(w.lines@) =~= Seq::<Seq<char>>::empty());
    }
    while i < n
        invariant
            n == op_lines@.len(),
            groups == op_line_views(op_lines@),
            groups.flatten_alt().len() < 0x1_0000_0000,
            i <= n,
            str_views(w.lines@) == groups.take(i as int).flatten_alt(),
            w.op_to_machine_code@.len() == i,
            forall|k: int|
                0 <= k < i ==> #[trigger] w.op_to_machine_code@[k] == (OpLineRange {
                    start: lines_before(groups, k) as u32,
                    len: op_lines@[k]@.len() as u32,
                }),
            maps_consistent(w.op_to_machine_code@, w.machine_code_to_op@, w.lines@.len() as int),
        decreases n - i,
    {
        let start = w.line_count();
        let ghost map0 = w.machine_code_to_op@;
        let lines = &op_lines[i];
        w.push_lines(lines);
        proof {
            assert(groups[i as int] == str_views(lines@));
            assert(groups.take(i + 1).drop_last() =~= groups.take(i as int));
            assert(groups.take(i + 1).last() == groups[i as int]);
            assert(str_views(w.lines@) =~= groups.take(i + 1).flatten_alt());
            lemma_flatten_prefix_len(groups, i + 1);
            lemma_record_keeps_maps_consistent(
                w.op_to_machine_code@,
                w.machine_code_to_op@,
                start as int,
                w.lines@.len() as int,
                i,
            );
        }
        w.record_op_lines(i, start);
        proof {
            let total = w.lines@.len() as int;
            assert(w.machine_code_to_op@ =~= Seq::new(
                total as nat,
                |ln: int|
                    if start <= ln {
                        i
                    } else if ln < map0.len() {
                        map0[ln]
                    } else {
                        MACHINE_CODE_TO_OP_NONE
                    },
            ));
        }
        i = i + 1;
    }
    proof {
        assert(groups.take(n as int) =~= groups);
    }
    let r = w.finalize();
    proof {
        assert(r.machine_code_to_op@ =~= w.machine_code_to_op@);
    }
    r
}

proof fn lemma_flatten_prefix_len(groups: Seq<Seq<Seq<char>>>, i: int)
    requires
        0 <= i <= groups.len(),
    ensures
        groups.take(i).flatten_alt().len() <= groups.flatten_alt().len(),
    decreases groups.len() - i,
{
    if i < groups.len() {
        lemma_flatten_prefix_len(groups, i + 1);
        assert(groups.take(i + 1).drop_last() =~= groups.take(i));
    } else {
        assert(groups.take(i) =~= groups);
    }
}

/// Recording the lines of the next op, in order, keeps the op/line maps
/// consistent: every emitted line maps back to the op whose range holds it.
pub proof fn lemma_record_keeps_maps_consistent(
    ranges: Seq<OpLineRange>,
    map: Seq<usize>,
    recorded: int,
    total: int,
    op_idx: usize,
)
    requires
        maps_consistent(ranges, map, recorded),
        recorded <= total < 0x1_0000_0000,
        op_idx == ranges.len(),
    ensures
        maps_consistent(
            ranges.push(OpLineRange { start: recorded as u32, len: (total - recorded) as u32 }),
            Seq::new(
                total as nat,
                |ln: int|
                    if recorded <= ln {
                        op_idx
                    } else if ln < map.len() {
                        map[ln]
                    } else {
                        MACHINE_CODE_TO_OP_NONE
                    },
            ),
            total,
        ),
{
    let r = OpLineRange { start: recorded as u32, len: (total - recorded) as u32 };
    let rs = ranges.push(r);
    let m = Seq::new(
        total as nat,
        |ln: int|
            if recorded <= ln {
                op_idx
            } else if ln < map.len() {
                map[ln]
            } else {
                MACHINE_CODE_TO_OP_NONE
            },
    );
    assert(r.start == recorded && r.len == total - recorded);
    assert forall|i: int| 0 <= i < rs.len() - 1 implies #[trigger] rs[i].start + rs[i].len == rs[i
        + 1].start by {
        if i < ranges.len() - 1 {
            assert(rs[i] == ranges[i]);
            assert(rs[i + 1] == ranges[i + 1]);
        } else {
            assert(rs[i] == ranges.last());
        }
    }
    assert forall|i: int, ln: int|
        0 <= i < rs.len() && (#[trigger] rs[i]).start <= ln < rs[i].start + rs[i].len implies #[trigger] m[ln]
            == i by {
        if i < ranges.len() {
            assert(rs[i] == ranges[i]);
            lemma_range_below(ranges, recorded, i);
            assert(ln < recorded);
            assert(map[ln] == i);
        } else {
            assert(rs[i] == r);
            assert(recorded <= ln);
        }
    }
}

proof fn lemma_range_below(ranges: Seq<OpLineRange>, total: int, i: int)
    requires
        ranges.len() > 0 ==> ranges[0].start == 0 && ranges.last().start + ranges.last().len == total,
        forall|k: int|
            0 <= k < ranges.len() - 1 ==> #[trigger] ranges[k].start + ranges[k].len == ranges[k + 1].start,
        0 <= i < ranges.len(),
    ensures
        ranges[i].start + ranges[i].len <= total,
    decreases ranges.len() - i,
{
    if i < ranges.len() - 1 {
        assert(ranges[i].start + ranges[i].len == ranges[i + 1].start);
        lemma_range_below(ranges, total, i + 1);
    }
}

/// The command templates and switches of a G-code dialect. Templates
/// with `{name}` placeholders are filled in before they reach the
/// writer; the plain commands are emitted as they stand, and an empty
/// command is never emitted.
#[derive(Debug)]
pub struct GcodeDialectSpec {
    pub laser_on: String,
    pub laser_off: String,
    pub set_speed: String,
    pub travel_move: String,
    pub linear_move: String,
    pub arc_cw: String,
    pub arc_ccw: String,
    pub bezier_cubic: String,
    pub dwell: String,
    pub tool_change: String,
    pub air_assist_on: String,
    pub air_assist_off: String,
    pub coolant_flood: String,
    pub coolant_mist: String,
    pub coolant_off: String,
    pub spindle_on_cw: String,
    pub spindle_off: String,
    pub preamble: Vec<String>,
    pub postscript: Vec<String>,
    pub inject_wcs_after_preamble: bool,
    pub omit_unchanged_coords: bool,
    pub continuous_laser_mode: bool,
    pub can_g0_with_speed: bool,
    pub modal_feedrate: bool,
    pub gcode_precision: u8,
}

/// The G-code encoder's settings: the dialect, and the encode context as
/// the JSON text it is read from.
#[derive(Debug)]
pub struct GcodeSpec {
    pub dialect: GcodeDialectSpec,
    pub context_json: String,
}

/// `line` as a one-line emission when `cond` holds and it is not empty;
/// nothing otherwise.
pub open spec fn line_if(cond: bool, line: Seq<char>) -> Seq<Seq<char>> {
    if cond && line.len() > 0 {
        seq![line]
    } else {
        seq![]
    }
}

/// A laser head the encoder can switch to, with the dialect's tool-change
/// command for it already filled in.
#[derive(Debug)]
pub struct HeadSwitch {
    pub uid: String,
    pub tool_change_line: String,
}

/// The index of the first head with uid `uid`, if any.
pub open spec fn head_index(heads: Seq<HeadSwitch>, uid: Seq<char>) -> Option<int>
    decreases heads.len(),
{
    if heads.len() == 0 {
        None
    } else {
        match head_index(heads.drop_last(), uid) {
            Some(k) => Some(k),
            None => if heads.last().uid@ == uid {
                Some(heads.len() - 1)
            } else {
                None
            },
        }
    }
}

proof fn lemma_head_index_prefix(heads: Seq<HeadSwitch>, uid: Seq<char>, n: int)
    requires
        0 <= n <= heads.len(),
        head_index(heads.take(n), uid) is Some,
    ensures
        head_index(heads, uid) == head_index(heads.take(n), uid),
    decreases heads.len(),
{
    if n == heads.len() {
        assert(heads.take(n) =~= heads);
    } else {
        assert(heads.drop_last().take(n) =~= heads.take(n));
        lemma_head_index_prefix(heads.drop_last(), uid, n);
    }
}

/// Modal machine state tracked while encoding, so that a command is only
/// emitted when it changes something.
#[derive(Debug)]
pub struct ModalState {
    pub air_assist: bool,
    pub laser_active: bool,
    pub spindle_rpm: u32,
    pub coolant_mode: Option<CoolantMode>,
    pub active_wcs: Option<String>,
    pub active_head: Option<String>,
}

impl ModalState {
    /// The state at the start of a job: air assist off, laser off,
    /// spindle stopped, coolant, work offset and laser head unknown.
    pub fn new() -> (r: ModalState)
        ensures
            !r.air_assist && !r.laser_active && r.spindle_rpm == 0,
            r.coolant_mode is None,
            r.active_wcs is None,
            r.active_head is None,
    {
        ModalState {
            air_assist: false,
            laser_active: false,
            spindle_rpm: 0,
            coolant_mode: None,
            active_wcs: None,
            active_head: None,
        }
    }

    /// Switch air assist to `mode`. When that changes the state, the
    /// dialect's on or off command is emitted; otherwise nothing is.
    pub fn handle_air_assist(&mut self, out: &mut GcodeWriter, dialect: &GcodeDialectSpec, mode: AirAssistMode)
        ensures
            final(self).air_assist == (mode == AirAssistMode::On),
            final(self).laser_active == old(self).laser_active,
            final(self).spindle_rpm == old(self).spindle_rpm,
            final(self).coolant_mode == old(self).coolant_mode,
            final(self).active_wcs == old(self).active_wcs,
            final(self).active_head == old(self).active_head,
            final(out).op_to_machine_code@ == old(out).op_to_machine_code@,
            final(out).machine_code_to_op@ == old(out).machine_code_to_op@,
            str_views(final(out).lines@) == str_views(old(out).lines@) + line_if(
                old(self).air_assist != (mode == AirAssistMode::On),
                if mode == AirAssistMode::On {
                    dialect.air_assist_on@
                } else {
                    dialect.air_assist_off@
                },
            ),
    {
        let on = match mode {
            AirAssistMode::On => true,
            AirAssistMode::Off => false,
        };
        if self.air_assist == on {
            assert(str_views(out.lines@) =~= str_views(out.lines@) + Seq::<Seq<char>>::empty());
            return;
        }
        self.air_assist = on;
        let cmd = if on {
            dialect.air_assist_on.as_str()
        } else {
            dialect.air_assist_off.as_str()
        };
        if cmd.unicode_len() > 0 {
            out.push_line(cmd);
        }
        assert(str_views(out.lines@) =~= str_views(old(out).lines@) + line_if(true, cmd@));
    }

    /// Switch coolant to `mode`. When that changes the state, the
    /// dialect's command for the new mode is emitted.
    pub fn handle_coolant(&mut self, out: &mut GcodeWriter, dialect: &GcodeDialectSpec, mode: CoolantMode)
        ensures
            final(self).coolant_mode == Some(mode),
            final(self).air_assist == old(self).air_assist,
            final(self).laser_active == old(self).laser_active,
            final(self).spindle_rpm == old(self).spindle_rpm,
            final(self).active_wcs == old(self).active_wcs,
            final(self).active_head == old(self).active_head,
            final(out).op_to_machine_code@ == old(out).op_to_machine_code@,
            final(out).machine_code_to_op@ == old(out).machine_code_to_op@,
            str_views(final(out).lines@) == str_views(old(out).lines@) + line_if(
                old(self).coolant_mode != Some(mode),
                match mode {
                    CoolantMode::Flood => dialect.coolant_flood@,
                    CoolantMode::Mist => dialect.coolant_mist@,
                    CoolantMode::Off => dialect.coolant_off@,
                },
            ),
    {
        if self.coolant_mode == Some(mode) {
            assert(str_views(out.lines@) =~= str_views(out.lines@) + Seq::<Seq<char>>::empty());
            return;
        }
        let cmd = match mode {
            CoolantMode::Flood => dialect.coolant_flood.as_str(),
            CoolantMode::Mist => dialect.coolant_mist.as_str(),
            CoolantMode::Off => dialect.coolant_off.as_str(),
        };
        if cmd.unicode_len() > 0 {
            out.push_line(cmd);
        }
        self.coolant_mode = Some(mode);
        assert(str_views(out.lines@) =~= str_views(old(out).lines@) + line_if(true, cmd@));
    }

    /// Turn the laser off: outside continuous-laser mode an active laser
    /// is switched off with the dialect's off command. In continuous-laser
    /// mode the laser is left as it is.
    pub fn laser_off(&mut self, out: &mut GcodeWriter, dialect: &GcodeDialectSpec)
        ensures
            final(self).laser_active == (old(self).laser_active && dialect.continuous_laser_mode),
            final(self).air_assist == old(self).air_assist,
            final(self).spindle_rpm == old(self).spindle_rpm,
            final(self).coolant_mode == old(self).coolant_mode,
            final(self).active_wcs == old(self).active_wcs,
            final(self).active_head == old(self).active_head,
            final(out).op_to_machine_code@ == old(out).op_to_machine_code@,
            final(out).machine_code_to_op@ == old(out).machine_code_to_op@,
            str_views(final(out).lines@) == str_views(old(out).lines@) + line_if(
                old(self).laser_active && !dialect.continuous_laser_mode,
                dialect.laser_off@,
            ),
    {
        if self.laser_active && !dialect.continuous_laser_mode {
            if dialect.laser_off.as_str().unicode_len() > 0 {
                out.push_line(dialect.laser_off.as_str());
            }
            self.laser_active = false;
        }
        assert(str_views(out.lines@) =~= str_views(old(out).lines@) + line_if(
            old(self).laser_active && !dialect.continuous_laser_mode,
            dialect.laser_off@,
        ));
    }

    /// Turn the laser on before a cut: a laser that is off is switched on
    /// when the power is positive or the dialect keeps the laser on
    /// continuously, emitting `on_line` (the dialect's laser-on template
    /// filled in with the absolute power); the default head becomes the
    /// active head if none is.
    pub fn laser_on(
        &mut self,
        out: &mut GcodeWriter,
        dialect: &GcodeDialectSpec,
        default_head: &String,
        power_positive: bool,
        on_line: &str,
    )
        ensures
            if !old(self).laser_active && (power_positive || dialect.continuous_laser_mode) {
                &&& final(self).laser_active
                &&& final(self).active_head == if old(self).active_head is None {
                    Some(*default_head)
                } else {
                    old(self).active_head
                }
                &&& str_views(final(out).lines@) == str_views(old(out).lines@) + line_if(true, on_line@)
            } else {
                &&& final(self).laser_active == old(self).laser_active
                &&& final(self).active_head == old(self).active_head
                &&& str_views(final(out).lines@) == str_views(old(out).lines@)
            },
            final(self).air_assist == old(self).air_assist,
            final(self).spindle_rpm == old(self).spindle_rpm,
            final(self).coolant_mode == old(self).coolant_mode,
            final(self).active_wcs == old(self).active_wcs,
            final(out).op_to_machine_code@ == old(out).op_to_machine_code@,
            final(out).machine_code_to_op@ == old(out).machine_code_to_op@,
    {
        if !self.laser_active && (power_positive || dialect.continuous_laser_mode) {
            if self.active_head.is_none() {
                self.active_head = Some(default_head.clone());
            }
            if on_line.unicode_len() > 0 {
                out.push_line(on_line);
            }
            assert(str_views(out.lines@) =~= str_views(old(out).lines@) + line_if(true, on_line@));
            self.laser_active = true;
        }
    }

    /// React to a new power value (the caller has found it different from
    /// the current one): while the laser is on outside continuous-laser
    /// mode, a positive power re-emits `on_line` (the laser-on template
    /// filled in with the new absolute power, the default head becoming
    /// the active head if none is), and a zero power switches the laser off.
    pub fn update_power(
        &mut self,
        out: &mut GcodeWriter,
        dialect: &GcodeDialectSpec,
        default_head: &String,
        power_positive: bool,
        on_line: &str,
    )
        ensures
            if old(self).laser_active && !dialect.continuous_laser_mode {
                if power_positive {
                    &&& final(self).laser_active
                    &&& final(self).active_head == if old(self).active_head is None {
                        Some(*default_head)
                    } else {
                        old(self).active_head
                    }
                    &&& str_views(final(out).lines@) == str_views(old(out).lines@) + line_if(true, on_line@)
                } else {
                    &&& !final(self).laser_active
                    &&& final(self).active_head == old(self).active_head
                    &&& str_views(final(out).lines@) == str_views(old(out).lines@) + line_if(
                        true,
                        dialect.laser_off@,
                    )
                }
            } else {
                &&& final(self).laser_active == old(self).laser_active
                &&& final(self).active_head == old(self).active_head
                &&& str_views(final(out).lines@) == str_views(old(out).lines@)
            },
            final(self).air_assist == old(self).air_assist,
            final(self).spindle_rpm == old(self).spindle_rpm,
            final(self).coolant_mode == old(self).coolant_mode,
            final(self).active_wcs == old(self).active_wcs,
            final(out).op_to_machine_code@ == old(out).op_to_machine_code@,
            final(out).machine_code_to_op@ == old(out).machine_code_to_op@,
    {
        if self.laser_active && !dialect.continuous_laser_mode {
            if power_positive {
                if self.active_head.is_none() {
                    self.active_head = Some(default_head.clone());
                }
                if on_line.unicode_len() > 0 {
                    out.push_line(on_line);
                }
                assert(str_views(out.lines@) =~= str_views(old(out).lines@) + line_if(true, on_line@));
            } else {
                self.laser_off(out, dialect);
            }
        } else {
            assert(str_views(out.lines@) =~= str_views(old(out).lines@));
        }
    }

    /// Set the spindle speed to `rpm`. Starting or changing the speed
    /// emits `on_line` (the dialect's clockwise-start template filled in
    /// with `rpm`), preceded by the stop command when a running spindle
    /// changes speed; stopping a running spindle emits the stop command.
    pub fn handle_spindle(&mut self, out: &mut GcodeWriter, dialect: &GcodeDialectSpec, rpm: u32, on_line: &str)
        ensures
            final(self).spindle_rpm == rpm,
            final(self).air_assist == old(self).air_assist,
            final(self).laser_active == old(self).laser_active,
            final(self).coolant_mode == old(self).coolant_mode,
            final(self).active_wcs == old(self).active_wcs,
            final(self).active_head == old(self).active_head,
            final(out).op_to_machine_code@ == old(out).op_to_machine_code@,
            final(out).machine_code_to_op@ == old(out).machine_code_to_op@,
            str_views(final(out).lines@) == if rpm > 0 {
                str_views(old(out).lines@) + line_if(
                    old(self).spindle_rpm > 0 && rpm != old(self).spindle_rpm,
                    dialect.spindle_off@,
                ) + line_if(true, on_line@)
            } else {
                str_views(old(out).lines@) + line_if(old(self).spindle_rpm > 0, dialect.spindle_off@)
            },
    {
        let off = dialect.spindle_off.as_str();
        let ghost mid = str_views(old(out).lines@) + line_if(
            old(self).spindle_rpm > 0 && rpm != old(self).spindle_rpm,
            off@,
        );
        if rpm > 0 {
            if self.spindle_rpm > 0 && rpm != self.spindle_rpm && off.unicode_len() > 0 {
                out.push_line(off);
            }
            assert(str_views(out.lines@) =~= mid);
            if on_line.unicode_len() > 0 {
                out.push_line(on_line);
            }
            assert(str_views(out.lines@) =~= mid + line_if(true, on_line@));
        } else {
            if self.spindle_rpm > 0 && off.unicode_len() > 0 {
                out.push_line(off);
            }
            assert(str_views(out.lines@) =~= str_views(old(out).lines@) + line_if(
                old(self).spindle_rpm > 0,
                off@,
            ));
        }
        self.spindle_rpm = rpm;
    }

    /// Start of a job: the preamble `preamble_lines` (the dialect's
    /// preamble with its path variables resolved), then, when the dialect
    /// injects work offsets and `wcs` is not empty, `wcs`, which becomes
    /// the active work offset.
    pub fn job_start(&mut self, out: &mut GcodeWriter, dialect: &GcodeDialectSpec, preamble_lines: &Vec<String>, wcs: &String)
        ensures
            final(self).active_wcs == if dialect.inject_wcs_after_preamble && wcs@.len() > 0 {
                Some(*wcs)
            } else {
                old(self).active_wcs
            },
            final(self).air_assist == old(self).air_assist,
            final(self).laser_active == old(self).laser_active,
            final(self).spindle_rpm == old(self).spindle_rpm,
            final(self).coolant_mode == old(self).coolant_mode,
            final(self).active_head == old(self).active_head,
            final(out).op_to_machine_code@ == old(out).op_to_machine_code@,
            final(out).machine_code_to_op@ == old(out).machine_code_to_op@,
            str_views(final(out).lines@) == str_views(old(out).lines@) + str_views(preamble_lines@)
                + line_if(dialect.inject_wcs_after_preamble, wcs@),
    {
        out.push_lines(preamble_lines);
        let ghost mid = str_views(out.lines@);
        if dialect.inject_wcs_after_preamble && wcs.as_str().unicode_len() > 0 {
            out.push_line(wcs.as_str());
            self.active_wcs = Some(wcs.clone());
        }
        assert(str_views(out.lines@) =~= mid + line_if(dialect.inject_wcs_after_preamble, wcs@));
    }

    /// Start of a layer whose work offset is `wcs` (if it has one): when
    /// the dialect injects work offsets and it differs from the active one,
    /// it is emitted (unless empty) and becomes the active work offset.
    pub fn layer_wcs(&mut self, out: &mut GcodeWriter, dialect: &GcodeDialectSpec, wcs: Option<&String>)
        ensures
            ({
                let switch = wcs is Some && dialect.inject_wcs_after_preamble && (old(self).active_wcs is None
                    || old(self).active_wcs.unwrap()@ != wcs.unwrap()@);
                &&& final(self).active_wcs == if switch {
                    Some(*wcs.unwrap())
                } else {
                    old(self).active_wcs
                }
                &&& str_views(final(out).lines@) == str_views(old(out).lines@) + line_if(
                    switch,
                    wcs.unwrap()@,
                )
            }),
            final(self).air_assist == old(self).air_assist,
            final(self).laser_active == old(self).laser_active,
            final(self).spindle_rpm == old(self).spindle_rpm,
            final(self).coolant_mode == old(self).coolant_mode,
            final(self).active_head == old(self).active_head,
            final(out).op_to_machine_code@ == old(out).op_to_machine_code@,
            final(out).machine_code_to_op@ == old(out).machine_code_to_op@,
    {
        if let Some(w) = wcs {
            if dialect.inject_wcs_after_preamble {
                let differs = match &self.active_wcs {
                    Some(a) => !crate::text::str_equals(a.as_str(), w.as_str()),
                    None => true,
                };
                if differs {
                    if w.as_str().unicode_len() > 0 {
                        out.push_line(w.as_str());
                    }
                    self.active_wcs = Some(w.clone());
                }
            }
        }
        assert(str_views(out.lines@) =~= str_views(old(out).lines@) + line_if(
            wcs is Some && dialect.inject_wcs_after_preamble && (old(self).active_wcs is None
                || old(self).active_wcs.unwrap()@ != wcs.unwrap()@),
            wcs.unwrap()@,
        ));
    }

    /// Switch to laser head `uid`. Nothing happens when it is already the
    /// active head, or when no head in `heads` has that uid; otherwise the
    /// first such head's tool-change line is emitted (unless empty) and
    /// `uid` becomes the active head.
    pub fn handle_set_head(&mut self, out: &mut GcodeWriter, heads: &Vec<HeadSwitch>, uid: &String)
        ensures
            ({
                let same = old(self).active_head matches Some(a) && a@ == uid@;
                let found = head_index(heads@, uid@);
                if same || found is None {
                    &&& final(self).active_head == old(self).active_head
                    &&& str_views(final(out).lines@) == str_views(old(out).lines@)
                } else {
                    &&& final(self).active_head == Some(*uid)
                    &&& str_views(final(out).lines@) == str_views(old(out).lines@) + line_if(
                        true,
                        heads@[found.unwrap()].tool_change_line@,
                    )
                }
            }),
            final(self).air_assist == old(self).air_assist,
            final(self).laser_active == old(self).laser_active,
            final(self).spindle_rpm == old(self).spindle_rpm,
            final(self).coolant_mode == old(self).coolant_mode,
            final(self).active_wcs == old(self).active_wcs,
            final(out).op_to_machine_code@ == old(out).op_to_machine_code@,
            final(out).machine_code_to_op@ == old(out).machine_code_to_op@,
    {
        if let Some(a) = &self.active_head {
            if crate::text::str_equals(a.as_str(), uid.as_str()) {
                return;
            }
        }
        let mut i: usize = 0;
        assert(heads@.take(0) =~= Seq::<HeadSwitch>::empty());
        while i < heads.len()
            invariant
                i <= heads@.len(),
                head_index(heads@.take(i as int), uid@) is None,
                !(old(self).active_head matches Some(a) && a@ == uid@),
                *out == *old(out),
                *self == *old(self),
            decreases heads@.len() - i,
        {
            assert(heads@.take(i + 1).drop_last() =~= heads@.take(i as int));
            if crate::text::str_equals(heads[i].uid.as_str(), uid.as_str()) {
                assert(head_index(heads@.take(i + 1), uid@) == Some(i as int));
                proof {
                    lemma_head_index_prefix(heads@, uid@, i + 1);
                }
                let line = heads[i].tool_change_line.as_str();
                if line.unicode_len() > 0 {
                    out.push_line(line);
                }
                assert(str_views(out.lines@) =~= str_views(old(out).lines@) + line_if(true, line@));
                self.active_head = Some(uid.clone());
                return;
            }
            i = i + 1;
        }
        assert(heads@.take(heads@.len() as int) =~= heads@);
    }

    /// End of a job: the laser is switched off, then air assist, the
    /// spindle and coolant are turned off where they are on (each with the
    /// dialect's command), then the postscript `postscript_lines` (the
    /// dialect's postscript with its path variables resolved) follows.
    pub fn job_end(&mut self, out: &mut GcodeWriter, dialect: &GcodeDialectSpec, postscript_lines: &Vec<String>)
        ensures
            final(self).laser_active == (old(self).laser_active && dialect.continuous_laser_mode),
            !final(self).air_assist,
            final(self).spindle_rpm == 0,
            final(self).coolant_mode == if old(self).coolant_mode is Some {
                Some(CoolantMode::Off)
            } else {
                None
            },
            final(self).active_wcs == old(self).active_wcs,
            final(self).active_head == old(self).active_head,
            final(out).op_to_machine_code@ == old(out).op_to_machine_code@,
            final(out).machine_code_to_op@ == old(out).machine_code_to_op@,
            str_views(final(out).lines@) == str_views(old(out).lines@) + line_if(
                old(self).laser_active && !dialect.continuous_laser_mode,
                dialect.laser_off@,
            ) + line_if(old(self).air_assist, dialect.air_assist_off@) + line_if(
                old(self).spindle_rpm > 0,
                dialect.spindle_off@,
            ) + line_if(
                old(self).coolant_mode is Some && old(self).coolant_mode != Some(CoolantMode::Off),
                dialect.coolant_off@,
            ) + str_views(postscript_lines@),
    {
        let ghost l0 = str_views(out.lines@);
        self.laser_off(out, dialect);
        let ghost l1 = str_views(out.lines@);
        if self.air_assist {
            self.handle_air_assist(out, dialect, AirAssistMode::Off);
        }
        assert(str_views(out.lines@) =~= l1 + line_if(old(self).air_assist, dialect.air_assist_off@));
        let ghost l2 = str_views(out.lines@);
        if self.spindle_rpm > 0 {
            self.handle_spindle(out, dialect, 0, "");
        }
        assert(str_views(out.lines@) =~= l2 + line_if(old(self).spindle_rpm > 0, dialect.spindle_off@));
        let ghost l3 = str_views(out.lines@);
        let ghost c = self.coolant_mode;
        match self.coolant_mode {
            Some(CoolantMode::Off) => {},
            Some(_) => {
                self.handle_coolant(out, dialect, CoolantMode::Off);
            },
            None => {},
        }
        assert(str_views(out.lines@) =~= l3 + line_if(
            c is Some && c != Some(CoolantMode::Off),
            dialect.coolant_off@,
        ));
        let ghost l4 = str_views(out.lines@);
        out.push_lines(postscript_lines);
        assert(l1 =~= l0 + line_if(
            old(self).laser_active && !dialect.continuous_laser_mode,
            dialect.laser_off@,
        ));
    }
}

/// The encoding loop asks whether it has been cancelled before op 0 and
/// then before every `POLL_INTERVAL`-th op.
pub const POLL_INTERVAL: usize = 1000;

/// A cancellation poll is due before op `i`.
pub open spec fn poll_due(i: int) -> bool {
    i % (POLL_INTERVAL as int) == 0
}

/// The number of polls made while encoding `n` ops that are never
/// cancelled: one before each op at which a poll is due.
pub open spec fn polls_in(n: nat) -> nat
    decreases n,
{
    if n == 0 {
        0
    } else {
        polls_in((n - 1) as nat) + if poll_due(n - 1) {
            1nat
        } else {
            0nat
        }
    }
}

/// An encoding of `n` ops that is never cancelled polls `ceil(n / 1000)`
/// times.
pub proof fn lemma_polls_in(n: nat)
    ensures
        polls_in(n) == (n + 999) / 1000,
    decreases n,
{
    if n > 0 {
        lemma_polls_in((n - 1) as nat);
        let m = (n - 1) as int;
        if m % 1000 == 0 {
            assert((m + 1000) / 1000 == (m + 999) / 1000 + 1) by (nonlinear_arith)
                requires
                    m % 1000 == 0,
                    m >= 0,
            ;
        } else {
            assert((m + 1000) / 1000 == (m + 999) / 1000) by (nonlinear_arith)
                requires
                    m % 1000 != 0,
                    m >= 0,
            ;
        }
    }
}

/// What the encoding loop does next.
#[derive(Debug, PartialEq, Eq, Structural)]
pub enum EncodeAction {
    /// Ask whether the encoding has been cancelled.
    Poll,
    /// Encode the op at this index.
    Encode(usize),
    /// Every op is encoded: assemble the result.
    Finish,
}

/// Where the encoding loop over `len` ops stands: the next op to encode,
/// and whether the poll due before it (if any) has been made.
#[derive(Debug)]
pub struct EncodeProgress {
    pub next: usize,
    pub len: usize,
    pub polled: bool,
}

impl EncodeProgress {
    /// The loop before its first op.
    pub fn new(len: usize) -> (r: EncodeProgress)
        ensures
            r.next == 0,
            r.len == len,
            !r.polled,
    {
        EncodeProgress { next: 0, len, polled: false }
    }

    /// The next action: finish once every op is encoded; otherwise poll
    /// for cancellation when a poll is due before the next op and has not
    /// been made, else encode the next op.
    pub fn action(&self) -> (r: EncodeAction)
        ensures
            r == if self.next >= self.len {
                EncodeAction::Finish
            } else if poll_due(self.next as int) && !self.polled {
                EncodeAction::Poll
            } else {
                EncodeAction::Encode(self.next)
            },
    {
        if self.next >= self.len {
            EncodeAction::Finish
        } else if self.next % POLL_INTERVAL == 0 && !self.polled {
            EncodeAction::Poll
        } else {
            EncodeAction::Encode(self.next)
        }
    }

    /// The answer to a poll: a cancelled encoding ends with the error
    /// `"cancelled"`; otherwise the poll is recorded and the loop goes on.
    pub fn on_poll(&mut self, cancelled: bool) -> (r: Result<(), String>)
        ensures
            match r {
                Ok(()) => !cancelled,
                Err(e) => cancelled && e@ == "cancelled"@,
            },
            final(self).next == old(self).next,
            final(self).len == old(self).len,
            final(self).polled == (old(self).polled || !cancelled),
    {
        if cancelled {
            Err("cancelled".to_owned())
        } else {
            self.polled = true;
            Ok(())
        }
    }

    /// Op `next` has been encoded: move on to the op after it, whose poll
    /// (if one is due) has not been made.
    pub fn on_encoded(&mut self)
        requires
            old(self).next < old(self).len,
        ensures
            final(self).next == old(self).next + 1,
            final(self).len == old(self).len,
            !final(self).polled,
    {
        self.next = self.next + 1;
        self.polled = false;
    }
}

/// What the encoder does for one op, by its command, with the op's
/// parameters. State commands change the modal state (`AirAssist`,
/// `Coolant`, `Spindle` and `SetHead` go to the `ModalState` handler of
/// the same name, `Power` to `update_power`); markers emit the job's
/// preamble and postscript (`job_start`, `job_end`), a layer's work offset
/// (`layer_wcs`) and the macros of layers and workpieces; moving commands
/// emit motion. Other markers and head-coolant changes emit nothing.
#[derive(Debug)]
pub enum GcodeStep {
    Power(u64),
    FeedRate(i32),
    RapidRate(i32),
    Frequency(i32),
    PulseWidth(u64),
    AirAssist(AirAssistMode),
    Coolant(CoolantMode),
    Spindle(u32),
    SetHead(String),
    Dwell(u64),
    JobStart,
    JobEnd,
    LayerStart(String),
    LayerEnd,
    WorkpieceStart(String),
    WorkpieceEnd,
    Motion,
    Nothing,
}

/// The step of the encoder for an op of category `c`.
pub open spec fn step_of(c: OpCategory) -> GcodeStep {
    match c {
        OpCategory::Moving { .. } => GcodeStep::Motion,
        OpCategory::State(s) => match s {
            StateCmd::SetPower(p) => GcodeStep::Power(p),
            StateCmd::SetFeedRate(v) => GcodeStep::FeedRate(v),
            StateCmd::SetRapidRate(v) => GcodeStep::RapidRate(v),
            StateCmd::SetFrequency(v) => GcodeStep::Frequency(v),
            StateCmd::SetPulseWidth(v) => GcodeStep::PulseWidth(v),
            StateCmd::SetAirAssist(m) => GcodeStep::AirAssist(m),
            StateCmd::SetCoolant(m) => GcodeStep::Coolant(m),
            StateCmd::SetSpindleRpm(r) => GcodeStep::Spindle(r),
            StateCmd::SetHead(h) => GcodeStep::SetHead(h),
            StateCmd::Dwell(d) => GcodeStep::Dwell(d),
            StateCmd::SetHeadCoolant(_) => GcodeStep::Nothing,
        },
        OpCategory::Marker(m) => match m {
            MarkerCmd::JobStart => GcodeStep::JobStart,
            MarkerCmd::JobEnd => GcodeStep::JobEnd,
            MarkerCmd::LayerStart(u) => GcodeStep::LayerStart(u),
            MarkerCmd::LayerEnd(_) => GcodeStep::LayerEnd,
            MarkerCmd::WorkpieceStart(u) => GcodeStep::WorkpieceStart(u),
            MarkerCmd::WorkpieceEnd(_) => GcodeStep::WorkpieceEnd,
            _ => GcodeStep::Nothing,
        },
    }
}

/// Each command goes to the step of its own kind with its own value: a
/// feed rate sets the cutting feed and a rapid rate the travel speed,
/// each state command reaches the handler named after it with the value
/// it carries, each layer or workpiece start passes on its uid, and every
/// moving command is motion. Only head-coolant changes and the markers
/// that emit nothing (sections, state blocks, processes) do nothing.
pub proof fn lemma_gcode_step_kinds(c: OpCategory)
    ensures
        c matches OpCategory::Moving { .. } ==> step_of(c) == GcodeStep::Motion,
        c matches OpCategory::State(StateCmd::SetPower(v)) ==> step_of(c) == GcodeStep::Power(v),
        c matches OpCategory::State(StateCmd::SetFeedRate(v)) ==> step_of(c) == GcodeStep::FeedRate(v),
        c matches OpCategory::State(StateCmd::SetRapidRate(v)) ==> step_of(c) == GcodeStep::RapidRate(v),
        c matches OpCategory::State(StateCmd::SetFrequency(v)) ==> step_of(c) == GcodeStep::Frequency(v),
        c matches OpCategory::State(StateCmd::SetPulseWidth(v)) ==> step_of(c) == GcodeStep::PulseWidth(v),
        c matches OpCategory::State(StateCmd::SetAirAssist(m)) ==> step_of(c) == GcodeStep::AirAssist(m),
        c matches OpCategory::State(StateCmd::SetCoolant(m)) ==> step_of(c) == GcodeStep::Coolant(m),
        c matches OpCategory::State(StateCmd::SetSpindleRpm(v)) ==> step_of(c) == GcodeStep::Spindle(v),
        c matches OpCategory::State(StateCmd::SetHead(h)) ==> step_of(c) == GcodeStep::SetHead(h),
        c matches OpCategory::State(StateCmd::Dwell(v)) ==> step_of(c) == GcodeStep::Dwell(v),
        c matches OpCategory::Marker(MarkerCmd::JobStart) ==> step_of(c) == GcodeStep::JobStart,
        c matches OpCategory::Marker(MarkerCmd::JobEnd) ==> step_of(c) == GcodeStep::JobEnd,
        c matches OpCategory::Marker(MarkerCmd::LayerStart(u)) ==> step_of(c) == GcodeStep::LayerStart(u),
        c matches OpCategory::Marker(MarkerCmd::LayerEnd(_)) ==> step_of(c) == GcodeStep::LayerEnd,
        c matches OpCategory::Marker(MarkerCmd::WorkpieceStart(u)) ==> step_of(c) == GcodeStep::WorkpieceStart(u),
        c matches OpCategory::Marker(MarkerCmd::WorkpieceEnd(_)) ==> step_of(c) == GcodeStep::WorkpieceEnd,
        step_of(c) == GcodeStep::Nothing <==> (c matches OpCategory::State(StateCmd::SetHeadCoolant(_)) || c
            matches OpCategory::Marker(MarkerCmd::OpsSectionStart { .. }) || c matches OpCategory::Marker(
            MarkerCmd::OpsSectionEnd { .. },
        ) || c matches OpCategory::Marker(MarkerCmd::StateBlockStart { .. }) || c matches OpCategory::Marker(
            MarkerCmd::StateBlockEnd,
        ) || c matches OpCategory::Marker(MarkerCmd::ProcessStart { .. }) || c matches OpCategory::Marker(
            MarkerCmd::ProcessEnd { .. },
        )),
{
}

/// The step of the encoder for op `idx` (see `GcodeStep`).
pub fn gcode_step(ops: &Ops, idx: usize) -> (r: GcodeStep)
    requires
        idx < ops@.len(),
    ensures
        r == step_of(ops.commands@[idx as int].category),
{
    match &ops.commands[idx].category {
        OpCategory::Moving { .. } => GcodeStep::Motion,
        OpCategory::State(s) => match s {
            StateCmd::SetPower(p) => GcodeStep::Power(*p),
            StateCmd::SetFeedRate(v) => GcodeStep::FeedRate(*v),
            StateCmd::SetRapidRate(v) => GcodeStep::RapidRate(*v),
            StateCmd::SetFrequency(v) => GcodeStep::Frequency(*v),
            StateCmd::SetPulseWidth(v) => GcodeStep::PulseWidth(*v),
            StateCmd::SetAirAssist(m) => GcodeStep::AirAssist(*m),
            StateCmd::SetCoolant(m) => GcodeStep::Coolant(*m),
            StateCmd::SetSpindleRpm(r) => GcodeStep::Spindle(*r),
            StateCmd::SetHead(h) => GcodeStep::SetHead(h.clone()),
            StateCmd::Dwell(d) => GcodeStep::Dwell(*d),
            StateCmd::SetHeadCoolant(_) => GcodeStep::Nothing,
        },
        OpCategory::Marker(m) => match m {
            MarkerCmd::JobStart => GcodeStep::JobStart,
            MarkerCmd::JobEnd => GcodeStep::JobEnd,
            MarkerCmd::LayerStart(u) => GcodeStep::LayerStart(u.clone()),
            MarkerCmd::LayerEnd(_) => GcodeStep::LayerEnd,
            MarkerCmd::WorkpieceStart(u) => GcodeStep::WorkpieceStart(u.clone()),
            MarkerCmd::WorkpieceEnd(_) => GcodeStep::WorkpieceEnd,
            _ => GcodeStep::Nothing,
        },
    }
}

/// The letter of an axis in G-code words.
pub fn letter_for_axis(axis: Axis) -> (r: &'static str)
    ensures
        r@ == crate::ops::types::axis_label(axis),
{
    axis.label()
}

/// The power (`f64` bits) of a `SetPower` op; `0.0` for any other op.
pub fn ops_power(ops: &Ops, idx: usize) -> (r: u64)
    requires
        idx < ops@.len(),
    ensures
        r == match ops.commands@[idx as int].category {
            OpCategory::State(StateCmd::SetPower(p)) => p,
            _ => ZERO_BITS,
        },
{
    match &ops.commands[idx].category {
        OpCategory::State(StateCmd::SetPower(p)) => *p,
        _ => ZERO_BITS,
    }
}

/// The rate of a `SetFeedRate` or `SetRapidRate` op; 0 for any other op.
pub fn ops_rate(ops: &Ops, idx: usize) -> (r: i32)
    requires
        idx < ops@.len(),
    ensures
        r == match ops.commands@[idx as int].category {
            OpCategory::State(StateCmd::SetFeedRate(v)) => v,
            OpCategory::State(StateCmd::SetRapidRate(v)) => v,
            _ => 0,
        },
{
    match &ops.commands[idx].category {
        OpCategory::State(StateCmd::SetFeedRate(r)) => *r,
        OpCategory::State(StateCmd::SetRapidRate(r)) => *r,
        _ => 0,
    }
}

/// The frequency of a `SetFrequency` op; 0 for any other op.
pub fn ops_frequency(ops: &Ops, idx: usize) -> (r: i32)
    requires
        idx < ops@.len(),
    ensures
        r == match ops.commands@[idx as int].category {
            OpCategory::State(StateCmd::SetFrequency(v)) => v,
            _ => 0,
        },
{
    match &ops.commands[idx].category {
        OpCategory::State(StateCmd::SetFrequency(f)) => *f,
        _ => 0,
    }
}

/// The pulse width (`f64` bits) of a `SetPulseWidth` op; `0.0` otherwise.
pub fn ops_pulse_width(ops: &Ops, idx: usize) -> (r: u64)
    requires
        idx < ops@.len(),
    ensures
        r == match ops.commands@[idx as int].category {
            OpCategory::State(StateCmd::SetPulseWidth(v)) => v,
            _ => ZERO_BITS,
        },
{
    match &ops.commands[idx].category {
        OpCategory::State(StateCmd::SetPulseWidth(p)) => *p,
        _ => ZERO_BITS,
    }
}

/// The mode of a `SetAirAssist` op; off for any other op.
pub fn ops_air_assist(ops: &Ops, idx: usize) -> (r: AirAssistMode)
    requires
        idx < ops@.len(),
    ensures
        r == match ops.commands@[idx as int].category {
            OpCategory::State(StateCmd::SetAirAssist(m)) => m,
            _ => AirAssistMode::Off,
        },
{
    match &ops.commands[idx].category {
        OpCategory::State(StateCmd::SetAirAssist(m)) => *m,
        _ => AirAssistMode::Off,
    }
}

/// The mode of a `SetCoolant` op; off for any other op.
pub fn ops_coolant(ops: &Ops, idx: usize) -> (r: CoolantMode)
    requires
        idx < ops@.len(),
    ensures
        r == match ops.commands@[idx as int].category {
            OpCategory::State(StateCmd::SetCoolant(m)) => m,
            _ => CoolantMode::Off,
        },
{
    match &ops.commands[idx].category {
        OpCategory::State(StateCmd::SetCoolant(m)) => *m,
        _ => CoolantMode::Off,
    }
}

/// The speed of a `SetSpindleRpm` op; 0 for any other op.
pub fn ops_spindle_rpm(ops: &Ops, idx: usize) -> (r: u32)
    requires
        idx < ops@.len(),
    ensures
        r == match ops.commands@[idx as int].category {
            OpCategory::State(StateCmd::SetSpindleRpm(v)) => v,
            _ => 0,
        },
{
    match &ops.commands[idx].category {
        OpCategory::State(StateCmd::SetSpindleRpm(r)) => *r,
        _ => 0,
    }
}

/// The duration (`f64` bits, milliseconds) of a `Dwell` op; `0.0` otherwise.
pub fn ops_dwell(ops: &Ops, idx: usize) -> (r: u64)
    requires
        idx < ops@.len(),
    ensures
        r == match ops.commands@[idx as int].category {
            OpCategory::State(StateCmd::Dwell(v)) => v,
            _ => ZERO_BITS,
        },
{
    match &ops.commands[idx].category {
        OpCategory::State(StateCmd::Dwell(ms)) => *ms,
        _ => ZERO_BITS,
    }
}

/// The head uid of a `SetHead` op.
pub fn ops_head_uid(ops: &Ops, idx: usize) -> (r: Option<String>)
    requires
        idx < ops@.len(),
    ensures
        match ops.commands@[idx as int].category {
            OpCategory::State(StateCmd::SetHead(h)) => r == Some(h),
            _ => r is None,
        },
{
    match &ops.commands[idx].category {
        OpCategory::State(StateCmd::SetHead(h)) => Some(h.clone()),
        _ => None,
    }
}

/// The layer uid of a `LayerStart` op.
pub fn ops_layer_uid(ops: &Ops, idx: usize) -> (r: Option<String>)
    requires
        idx < ops@.len(),
    ensures
        match ops.commands@[idx as int].category {
            OpCategory::Marker(MarkerCmd::LayerStart(u)) => r == Some(u),
            _ => r is None,
        },
{
    match &ops.commands[idx].category {
        OpCategory::Marker(MarkerCmd::LayerStart(u)) => Some(u.clone()),
        _ => None,
    }
}

/// The workpiece uid of a `WorkpieceStart` op.
pub fn ops_workpiece_uid(ops: &Ops, idx: usize) -> (r: Option<String>)
    requires
        idx < ops@.len(),
    ensures
        match ops.commands@[idx as int].category {
            OpCategory::Marker(MarkerCmd::WorkpieceStart(u)) => r == Some(u),
            _ => r is None,
        },
{
    match &ops.commands[idx].category {
        OpCategory::Marker(MarkerCmd::WorkpieceStart(u)) => Some(u.clone()),
        _ => None,
    }
}

/// The centre offset `(i, j)` (`f64` bits) and direction of an `ArcTo`
/// op; `(0.0, 0.0, clockwise)` for any other op.
pub fn ops_arc_params(ops: &Ops, idx: usize) -> (r: (u64, u64, bool))
    requires
        idx < ops@.len(),
    ensures
        r == match ops.commands@[idx as int].category {
            OpCategory::Moving { cmd: MoveCmd::ArcTo { center, cw }, .. } => (center.x, center.y, cw),
            _ => (ZERO_BITS, ZERO_BITS, true),
        },
{
    match &ops.commands[idx].category {
        OpCategory::Moving { cmd: MoveCmd::ArcTo { center, cw }, .. } => (center.x, center.y, *cw),
        _ => (ZERO_BITS, ZERO_BITS, true),
    }
}

/// The two control points of a `BezierTo` op; the origin twice for any
/// other op.
pub fn ops_bezier_params(ops: &Ops, idx: usize) -> (r: (Point3D, Point3D))
    requires
        idx < ops@.len(),
    ensures
        r == match ops.commands@[idx as int].category {
            OpCategory::Moving { cmd: MoveCmd::BezierTo { control1, control2 }, .. } => (
                control1,
                control2,
            ),
            _ => (
                Point3D { x: ZERO_BITS, y: ZERO_BITS, z: ZERO_BITS },
                Point3D { x: ZERO_BITS, y: ZERO_BITS, z: ZERO_BITS },
            ),
        },
{
    match &ops.commands[idx].category {
        OpCategory::Moving { cmd: MoveCmd::BezierTo { control1, control2 }, .. } => (
            *control1,
            *control2,
        ),
        _ => (Point3D::zero(), Point3D::zero()),
    }
}

} // verus!
