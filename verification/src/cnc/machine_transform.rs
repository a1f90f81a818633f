//! The command-level part of the machine transform: which rotary mapping
//! applies to which moving command, and how a moving command is rewritten
//! when its layer is mapped onto a rotary axis or when that axis replaces
//! a linear one. The real-valued conversions (millimetres to degrees and
//! back) are computed by the caller and handed in as `f64` bits.
use vstd::prelude::*;

use crate::ops::container::Ops;
use crate::ops::types::{
    axis_label, Axis, MarkerCmd, MoveCmd, MoveCmdView, OpCategory, OpCategoryView, OpNode, OpNodeView,
    Point, Point3D, ZERO_BITS,
};
use crate::text::{str_equals, str_views};

verus! {

/// The uid of the layer open just before position `i`: the uid of the
/// latest `LayerStart` before `i` that no `LayerEnd` has closed since.
pub open spec fn open_layer(s: Seq<OpNodeView>, i: int) -> Option<Seq<char>>
    decreases i,
{
    if i <= 0 {
        None
    } else {
        match s[i - 1].category {
            OpCategoryView::Marker(MarkerCmd::LayerStart(u)) => Some(u@),
            OpCategoryView::Marker(MarkerCmd::LayerEnd(_)) => None,
            _ => open_layer(s, i - 1),
        }
    }
}

/// The last index below `n` whose uid is `u`.
pub open spec fn last_uid_match(uids: Seq<Seq<char>>, u: Seq<char>, n: int) -> Option<usize>
    decreases n,
{
    if n <= 0 {
        None
    } else if uids[n - 1] == u {
        Some((n - 1) as usize)
    } else {
        last_uid_match(uids, u, n - 1)
    }
}

/// The mapping that applies to the command at `i`: only moving commands
/// inside an open layer whose uid has a mapping get one; when several
/// mappings name the layer, the last of them applies.
pub open spec fn mapping_for(s: Seq<OpNodeView>, uids: Seq<Seq<char>>, i: int) -> Option<usize> {
    if s[i].category is Moving {
        match open_layer(s, i) {
            Some(u) => last_uid_match(uids, u, uids.len() as int),
            None => None,
        }
    } else {
        None
    }
}

fn find_last_uid(layer_uids: &Vec<String>, uid: &String) -> (r: Option<usize>)
    ensures
        r == last_uid_match(str_views(layer_uids@), uid@, layer_uids@.len() as int),
{
    let mut k = layer_uids.len();
    while k > 0
        invariant
            k <= layer_uids@.len(),
            last_uid_match(str_views(layer_uids@), uid@, layer_uids@.len() as int)
                == last_uid_match(str_views(layer_uids@), uid@, k as int),
        decreases k,
    {
        if str_equals(layer_uids[k - 1].as_str(), uid.as_str()) {
            return Some(k - 1);
        }
        k = k - 1;
    }
    None
}

/// For each command, the index of the per-layer mapping (listed by layer
/// uid) that applies to it; see `mapping_for`.
pub fn layer_mapping_targets(ops: &Ops, layer_uids: &Vec<String>) -> (r: Vec<Option<usize>>)
    ensures
        r@.len() == ops@.len(),
        forall|i: int|
            0 <= i < ops@.len() ==> #[trigger] r@[i] == mapping_for(ops@, str_views(layer_uids@), i),
{
    let mut result: Vec<Option<usize>> = Vec::new();
    let mut current: Option<String> = None;
    let n = ops.commands.len();
    let mut i: usize = 0;
    while i < n
        invariant
            n == ops@.len(),
            i <= n,
            result@.len() == i,
            match current {
                Some(c) => open_layer(ops@, i as int) == Some(c@),
                None => open_layer(ops@, i as int) is None,
            },
            forall|j: int|
                0 <= j < i ==> #[trigger] result@[j] == mapping_for(ops@, str_views(layer_uids@), j),
        decreases n - i,
    {
        let node = &ops.commands[i];
        let target = match &node.category {
            OpCategory::Moving { .. } => match &current {
                Some(uid) => find_last_uid(layer_uids, uid),
                None => None,
            },
            _ => None,
        };
        result.push(target);
        match &node.category {
            OpCategory::Marker(MarkerCmd::LayerStart(uid)) => {
                current = Some(uid.clone());
            },
            OpCategory::Marker(MarkerCmd::LayerEnd(_)) => {
                current = None;
            },
            _ => {},
        }
        i = i + 1;
    }
    result
}

/// The point with the coordinate named `axis` (`"X"`, `"Y"` or `"Z"`)
/// set to zero; any other name leaves it unchanged.
pub open spec fn zeroed(p: Point3D, axis: Seq<char>) -> Point3D {
    if axis == "X"@ {
        Point3D { x: ZERO_BITS, ..p }
    } else if axis == "Y"@ {
        Point3D { y: ZERO_BITS, ..p }
    } else if axis == "Z"@ {
        Point3D { z: ZERO_BITS, ..p }
    } else {
        p
    }
}

/// The point with the coordinate named `axis` set to `v`: `"X"`, `"Y"`
/// and `"Z"` name their coordinates, and any other (rotary) axis name
/// stands for the Y position.
pub open spec fn axis_set(p: Point3D, axis: Seq<char>, v: u64) -> Point3D {
    if axis == "X"@ {
        Point3D { x: v, ..p }
    } else if axis == "Z"@ {
        Point3D { z: v, ..p }
    } else {
        Point3D { y: v, ..p }
    }
}

/// Set the coordinate named `axis` to zero; see `zeroed`.
pub fn zero_axis(end: &mut Point3D, axis: &str)
    ensures
        *final(end) == zeroed(*old(end), axis@),
{
    if str_equals(axis, "X") {
        end.x = ZERO_BITS;
    } else if str_equals(axis, "Y") {
        end.y = ZERO_BITS;
    } else if str_equals(axis, "Z") {
        end.z = ZERO_BITS;
    }
}

/// Set the coordinate named `axis` to `value`; see `axis_set`.
pub fn set_axis_value(end: &mut Point3D, axis: &str, value: u64)
    ensures
        *final(end) == axis_set(*old(end), axis@, value),
{
    if str_equals(axis, "X") {
        end.x = value;
    } else if str_equals(axis, "Z") {
        end.z = value;
    } else {
        end.y = value;
    }
}

/// The extra-axis entries, in order, without those of `axis`.
pub open spec fn without_axis(ea: Seq<(Axis, u64)>, axis: Axis) -> Seq<(Axis, u64)>
    decreases ea.len(),
{
    if ea.len() == 0 {
        seq![]
    } else if ea.last().0 == axis {
        without_axis(ea.drop_last(), axis)
    } else {
        without_axis(ea.drop_last(), axis).push(ea.last())
    }
}

/// The value of the first extra-axis entry of `axis`, if there is one.
pub open spec fn axis_value(ea: Seq<(Axis, u64)>, axis: Axis) -> Option<u64>
    decreases ea.len(),
{
    if ea.len() == 0 {
        None
    } else if ea[0].0 == axis {
        Some(ea[0].1)
    } else {
        axis_value(ea.drop_first(), axis)
    }
}

/// The extra-axis entries of a node; none when it has no list.
pub open spec fn extras_of(e: Option<Seq<(Axis, u64)>>) -> Seq<(Axis, u64)> {
    match e {
        Some(s) => s,
        None => seq![],
    }
}

/// The rotary axis named `name`; `A` when no axis has that name.
pub fn rotary_axis_for(name: &str) -> (r: Axis)
    ensures
        (exists|a: Axis| #[trigger] axis_label(a) == name@) ==> axis_label(r) == name@,
        (forall|a: Axis| #[trigger] axis_label(a) != name@) ==> r == Axis::A,
{
    match Axis::from_str_name(name) {
        Some(a) => a,
        None => Axis::A,
    }
}

fn filter_axis(ea: &Vec<(Axis, u64)>, axis: Axis) -> (r: Vec<(Axis, u64)>)
    ensures
        r@ == without_axis(ea@, axis),
{
    let mut r: Vec<(Axis, u64)> = Vec::new();
    let mut i: usize = 0;
    while i < ea.len()
        invariant
            i <= ea@.len(),
            r@ == without_axis(ea@.subrange(0, i as int), axis),
        decreases ea@.len() - i,
    {
        let e = ea[i];
        if e.0 != axis {
            r.push(e);
        }
        proof {
            assert(ea@.subrange(0, i + 1).drop_last() =~= ea@.subrange(0, i as int));
        }
        i = i + 1;
    }
    assert(ea@.subrange(0, ea@.len() as int) =~= ea@);
    r
}

/// The value of the first entry of `axis` among a node's extra axes.
pub fn find_axis_value(ea: Option<&Vec<(Axis, u64)>>, axis: Axis) -> (r: Option<u64>)
    ensures
        r == match ea {
            Some(v) => axis_value(v@, axis),
            None => None,
        },
{
    match ea {
        None => None,
        Some(v) => {
            let mut i: usize = 0;
            assert(v@.subrange(0, v@.len() as int) =~= v@);
            while i < v.len()
                invariant
                    ea == Some(v),
                    i <= v@.len(),
                    axis_value(v@, axis) == axis_value(v@.subrange(i as int, v@.len() as int), axis),
                decreases v@.len() - i,
            {
                proof {
                    assert(v@.subrange(i as int, v@.len() as int).drop_first() =~= v@.subrange(
                        i + 1,
                        v@.len() as int,
                    ));
                    assert(v@.subrange(i as int, v@.len() as int)[0] == v@[i as int]);
                }
                if v[i].0 == axis {
                    assert(axis_value(v@.subrange(i as int, v@.len() as int), axis) == Some(v@[i as int].1));
                    return Some(v[i].1);
                }
                i = i + 1;
            }
            None
        },
    }
}

/// The command after its layer is mapped onto a rotary axis: the Y
/// coordinate of each curve control point (or arc centre) becomes the
/// given converted value (`c1` for the first, `c2` for the second).
pub open spec fn rotary_cmd(cmd: MoveCmdView, c1: u64, c2: u64) -> MoveCmdView {
    match cmd {
        MoveCmdView::BezierTo { control1, control2 } => MoveCmdView::BezierTo {
            control1: Point3D { y: c1, ..control1 },
            control2: Point3D { y: c2, ..control2 },
        },
        MoveCmdView::QuadraticBezierTo { control } => MoveCmdView::QuadraticBezierTo {
            control: Point3D { y: c1, ..control },
        },
        MoveCmdView::ArcTo { center, cw } => MoveCmdView::ArcTo { center: Point { y: c1, ..center }, cw },
        _ => cmd,
    }
}

/// A curve control point after the rotary axis replaces the linear axis
/// `axis`: with `"Y"` its Y becomes `v`; otherwise the named coordinate
/// becomes `v` (see `axis_set`) and Y is zeroed.
pub open spec fn control_replaced(p: Point3D, axis: Seq<char>, v: u64) -> Point3D {
    if axis == "Y"@ {
        Point3D { y: v, ..p }
    } else {
        Point3D { y: ZERO_BITS, ..axis_set(p, axis, v) }
    }
}

/// The command after the rotary axis replaces the linear axis `axis`:
/// curve control points are rewritten by `control_replaced` with the given
/// converted values, and an arc centre's Y becomes `v1`.
pub open spec fn replaced_cmd(cmd: MoveCmdView, axis: Seq<char>, v1: u64, v2: u64) -> MoveCmdView {
    match cmd {
        MoveCmdView::BezierTo { control1, control2 } => MoveCmdView::BezierTo {
            control1: control_replaced(control1, axis, v1),
            control2: control_replaced(control2, axis, v2),
        },
        MoveCmdView::QuadraticBezierTo { control } => MoveCmdView::QuadraticBezierTo {
            control: control_replaced(control, axis, v1),
        },
        MoveCmdView::ArcTo { center, cw } => MoveCmdView::ArcTo { center: Point { y: v1, ..center }, cw },
        _ => cmd,
    }
}

/// A command after its layer is mapped onto the rotary axis `rotary`
/// (see `OpNode::map_to_rotary`); anything but a moving command stays
/// as it is.
pub open spec fn rotary_mapped(
    n: OpNodeView,
    rotary: Axis,
    degrees: u64,
    end_y: u64,
    replaced: Option<Seq<char>>,
    c1: u64,
    c2: u64,
) -> OpNodeView {
    match n.category {
        OpCategoryView::Moving { end, cmd } => OpNodeView {
            category: OpCategoryView::Moving {
                end: match replaced {
                    Some(a) => zeroed(Point3D { y: end_y, ..end }, a),
                    None => Point3D { y: end_y, ..end },
                },
                cmd: rotary_cmd(cmd, c1, c2),
            },
            extra_axes: Some(without_axis(extras_of(n.extra_axes), rotary).push((rotary, degrees))),
        },
        _ => n,
    }
}

/// A command after the rotary axis `rotary` replaces the linear axis
/// `replaced` in it (see `OpNode::replace_axis`); anything but a moving
/// command stays as it is.
pub open spec fn axis_replaced(n: OpNodeView, rotary: Axis, replaced: Seq<char>, scaled: u64, v1: u64, v2: u64) -> OpNodeView {
    match n.category {
        OpCategoryView::Moving { end, cmd } => OpNodeView {
            category: OpCategoryView::Moving {
                end: axis_set(end, replaced, scaled),
                cmd: replaced_cmd(cmd, replaced, v1, v2),
            },
            extra_axes: if without_axis(extras_of(n.extra_axes), rotary).len() == 0 {
                None
            } else {
                Some(without_axis(extras_of(n.extra_axes), rotary))
            },
        },
        _ => n,
    }
}

fn rotary_move_cmd(cmd: &MoveCmd, c1: u64, c2: u64) -> (r: MoveCmd)
    ensures
        r@ == rotary_cmd(cmd@, c1, c2),
{
    match cmd {
        MoveCmd::BezierTo { control1, control2 } => {
            let mut a = *control1;
            let mut b = *control2;
            a.y = c1;
            b.y = c2;
            MoveCmd::BezierTo { control1: a, control2: b }
        },
        MoveCmd::QuadraticBezierTo { control } => {
            let mut a = *control;
            a.y = c1;
            MoveCmd::QuadraticBezierTo { control: a }
        },
        MoveCmd::ArcTo { center, cw } => {
            let mut a = *center;
            a.y = c1;
            MoveCmd::ArcTo { center: a, cw: *cw }
        },
        _ => cmd.copy(),
    }
}

fn replace_control(p: &mut Point3D, axis: &str, v: u64)
    ensures
        *final(p) == control_replaced(*old(p), axis@, v),
{
    proof {
        reveal_strlit("Y");
    }
    if str_equals(axis, "Y") {
        p.y = v;
    } else {
        set_axis_value(p, axis, v);
        p.y = ZERO_BITS;
    }
}

fn replaced_move_cmd(cmd: &MoveCmd, axis: &str, v1: u64, v2: u64) -> (r: MoveCmd)
    ensures
        r@ == replaced_cmd(cmd@, axis@, v1, v2),
{
    match cmd {
        MoveCmd::BezierTo { control1, control2 } => {
            let mut a = *control1;
            let mut b = *control2;
            replace_control(&mut a, axis, v1);
            replace_control(&mut b, axis, v2);
            MoveCmd::BezierTo { control1: a, control2: b }
        },
        MoveCmd::QuadraticBezierTo { control } => {
            let mut a = *control;
            replace_control(&mut a, axis, v1);
            MoveCmd::QuadraticBezierTo { control: a }
        },
        MoveCmd::ArcTo { center, cw } => {
            let mut a = *center;
            a.y = v1;
            MoveCmd::ArcTo { center: a, cw: *cw }
        },
        _ => cmd.copy(),
    }
}

impl OpNode {
    /// Map a moving command onto a rotary axis: its extra axes lose any
    /// entry of `rotary` and end with `(rotary, degrees)`; its end point's
    /// Y becomes `end_y`, after which the replaced linear axis (if any) is
    /// zeroed; its curve control points change as `rotary_cmd` says. Other
    /// commands are left unchanged.
    pub fn map_to_rotary(
        &mut self,
        rotary: Axis,
        degrees: u64,
        end_y: u64,
        replaced: Option<&str>,
        c1: u64,
        c2: u64,
    )
        ensures
            final(self)@ == rotary_mapped(
                old(self)@,
                rotary,
                degrees,
                end_y,
                match replaced {
                    Some(a) => Some(a@),
                    None => None,
                },
                c1,
                c2,
            ),
    {
        if let OpCategory::Moving { end, cmd } = &self.category {
            let mut e = *end;
            e.y = end_y;
            if let Some(a) = replaced {
                zero_axis(&mut e, a);
            }
            let c = rotary_move_cmd(cmd, c1, c2);
            let mut ea = match &self.extra_axes {
                Some(v) => filter_axis(v, rotary),
                None => Vec::new(),
            };
            ea.push((rotary, degrees));
            self.category = OpCategory::Moving { end: e, cmd: c };
            self.extra_axes = Some(ea);
        }
    }

    /// Let the rotary axis replace the linear axis `replaced` in a moving
    /// command: the end point's `replaced` coordinate becomes `scaled`
    /// (see `axis_set`), the curve control points change as `replaced_cmd`
    /// says, and the extra axes lose every entry of `rotary` (the list is
    /// dropped when nothing is left). Other commands are left unchanged.
    pub fn replace_axis(&mut self, rotary: Axis, replaced: &str, scaled: u64, v1: u64, v2: u64)
        ensures
            final(self)@ == axis_replaced(old(self)@, rotary, replaced@, scaled, v1, v2),
    {
        if let OpCategory::Moving { end, cmd } = &self.category {
            let mut e = *end;
            set_axis_value(&mut e, replaced, scaled);
            let c = replaced_move_cmd(cmd, replaced, v1, v2);
            let ea = match &self.extra_axes {
                Some(v) => filter_axis(v, rotary),
                None => Vec::new(),
            };
            self.category = OpCategory::Moving { end: e, cmd: c };
            if ea.len() == 0 {
                self.extra_axes = None;
            } else {
                self.extra_axes = Some(ea);
            }
        }
    }
}

proof fn lemma_without_axis_free(ea: Seq<(Axis, u64)>, axis: Axis)
    ensures
        forall|k: int| 0 <= k < without_axis(ea, axis).len() ==> (#[trigger] without_axis(ea, axis)[k]).0 != axis,
    decreases ea.len(),
{
    if ea.len() > 0 {
        lemma_without_axis_free(ea.drop_last(), axis);
    }
}

proof fn lemma_axis_value_absent(s: Seq<(Axis, u64)>, axis: Axis)
    requires
        forall|k: int| 0 <= k < s.len() ==> (#[trigger] s[k]).0 != axis,
    ensures
        axis_value(s, axis) is None,
    decreases s.len(),
{
    if s.len() > 0 {
        assert(s[0].0 != axis);
        assert forall|k: int| 0 <= k < s.drop_first().len() implies (#[trigger] s.drop_first()[k]).0 != axis by {
            assert(s.drop_first()[k] == s[k + 1]);
        }
        lemma_axis_value_absent(s.drop_first(), axis);
    }
}

proof fn lemma_axis_value_after_push(s: Seq<(Axis, u64)>, axis: Axis, v: u64)
    requires
        forall|k: int| 0 <= k < s.len() ==> (#[trigger] s[k]).0 != axis,
    ensures
        axis_value(s.push((axis, v)), axis) == Some(v),
    decreases s.len(),
{
    let t = s.push((axis, v));
    if s.len() > 0 {
        assert(t[0] == s[0]);
        assert(t.drop_first() =~= s.drop_first().push((axis, v)));
        assert forall|k: int| 0 <= k < s.drop_first().len() implies (#[trigger] s.drop_first()[k]).0 != axis by {
            assert(s.drop_first()[k] == s[k + 1]);
        }
        lemma_axis_value_after_push(s.drop_first(), axis, v);
    } else {
        assert(t[0] == (axis, v));
    }
}

/// What the rotary mapping stores for the rotary axis is what the axis
/// replacement later reads back: after `map_to_rotary` with `degrees`, the
/// first (and only) entry of the rotary axis holds `degrees`.
pub proof fn lemma_rotary_value_read_back(ea: Seq<(Axis, u64)>, rotary: Axis, degrees: u64)
    ensures
        axis_value(without_axis(ea, rotary).push((rotary, degrees)), rotary) == Some(degrees),
{
    lemma_without_axis_free(ea, rotary);
    lemma_axis_value_after_push(without_axis(ea, rotary), rotary, degrees);
}

/// After the axis replacement no entry of the rotary axis is left, so a
/// second replacement pass finds nothing to convert.
pub proof fn lemma_replacement_clears_rotary(ea: Seq<(Axis, u64)>, rotary: Axis)
    ensures
        axis_value(without_axis(ea, rotary), rotary) is None,
{
    lemma_without_axis_free(ea, rotary);
    lemma_axis_value_absent(without_axis(ea, rotary), rotary);
}

/// One rotary mapping, as far as the rewriting of commands reads it: the
/// layer it applies to, its rotary axis, and the linear axis the rotary
/// axis replaces (`None`: a true fourth axis).
#[derive(Debug)]
pub struct RotaryLayerMap {
    pub layer_uid: String,
    pub rotary: Axis,
    pub replaced: Option<String>,
}

/// The layer uids of mappings, in order.
pub open spec fn map_uids(m: Seq<RotaryLayerMap>) -> Seq<Seq<char>> {
    Seq::new(m.len(), |i: int| m[i].layer_uid@)
}

/// The values computed from real numbers for one command of a rotary
/// layer (`f64` bits): its rotary degrees, its new end Y, and the
/// converted Y of its first and second control points.
#[derive(Debug)]
pub struct RotaryValues {
    pub degrees: u64,
    pub end_y: u64,
    pub c1: u64,
    pub c2: u64,
}

fn opt_view(o: &Option<String>) -> (r: Option<&str>)
    ensures
        match r {
            Some(a) => o matches Some(b) && a@ == b@,
            None => o is None,
        },
{
    match o {
        Some(b) => Some(b.as_str()),
        None => None,
    }
}

fn uids_of(mappings: &Vec<RotaryLayerMap>) -> (r: Vec<String>)
    ensures
        str_views(r@) == map_uids(mappings@),
{
    let mut r: Vec<String> = Vec::new();
    let mut i: usize = 0;
    while i < mappings.len()
        invariant
            i <= mappings@.len(),
            str_views(r@) == map_uids(mappings@).take(i as int),
        decreases mappings@.len() - i,
    {
        let u = mappings[i].layer_uid.clone();
        let ghost prev = r@;
        proof {
            assert(u@ == map_uids(mappings@)[i as int]);
        }
        r.push(u);
        proof {
            assert(r@ == prev.push(u));
            assert(str_views(r@) =~= str_views(prev).push(u@));
        }
        i = i + 1;
        assert(str_views(r@) =~= map_uids(mappings@).take(i as int));
    }
    assert(map_uids(mappings@).take(i as int) =~= map_uids(mappings@));
    r
}

/// Map every moving command of a rotary layer onto its rotary axis with
/// the values computed for it (`values[i]` for command `i`): a command to
/// which mapping `k` applies (see `mapping_for`) is rewritten as
/// `map_to_rotary` says with mapping `k`'s axes; every other command,
/// markers and commands outside mapped layers among them, stays as it is.
pub fn apply_rotary_values(ops: &mut Ops, mappings: &Vec<RotaryLayerMap>, values: &Vec<RotaryValues>)
    requires
        values@.len() == old(ops)@.len(),
    ensures
        final(ops)@.len() == old(ops)@.len(),
        final(ops).last_move_to == old(ops).last_move_to,
        forall|i: int|
            0 <= i < old(ops)@.len() ==> #[trigger] final(ops)@[i] == match mapping_for(
                old(ops)@,
                map_uids(mappings@),
                i,
            ) {
                Some(k) => rotary_mapped(
                    old(ops)@[i],
                    mappings@[k as int].rotary,
                    values@[i].degrees,
                    values@[i].end_y,
                    match mappings@[k as int].replaced {
                        Some(a) => Some(a@),
                        None => None,
                    },
                    values@[i].c1,
                    values@[i].c2,
                ),
                None => old(ops)@[i],
            },
        forall|i: int|
            0 <= i < old(ops)@.len() && mapping_for(old(ops)@, map_uids(mappings@), i) is None
                ==> #[trigger] final(ops)@[i] == old(ops)@[i],
{
    let uids = uids_of(mappings);
    let targets = layer_mapping_targets(ops, &uids);
    let ghost before = ops@;
    let n = ops.commands.len();
    let mut nodes: Vec<OpNode> = Vec::new();
    let mut i: usize = 0;
    while i < n
        invariant
            n == before.len(),
            before == ops@,
            n == ops.commands@.len(),
            targets@.len() == n,
            values@.len() == n,
            str_views(uids@) == map_uids(mappings@),
            forall|j: int| 0 <= j < n ==> #[trigger] targets@[j] == mapping_for(before, map_uids(mappings@), j),
            i <= n,
            nodes@.len() == i,
            forall|j: int|
                0 <= j < i ==> (#[trigger] nodes@[j])@ == match mapping_for(before, map_uids(mappings@), j) {
                    Some(k) => rotary_mapped(
                        before[j],
                        mappings@[k as int].rotary,
                        values@[j].degrees,
                        values@[j].end_y,
                        match mappings@[k as int].replaced {
                            Some(a) => Some(a@),
                            None => None,
                        },
                        values@[j].c1,
                        values@[j].c2,
                    ),
                    None => before[j],
                },
        decreases n - i,
    {
        let mut node = ops.commands[i].copy();
        assert(before[i as int] == ops.commands@[i as int]@);
        match targets[i] {
            Some(k) => {
                proof {
                    lemma_mapping_in_range(before, map_uids(mappings@), i as int);
                }
                let m = &mappings[k];
                let v = &values[i];
                node.map_to_rotary(m.rotary, v.degrees, v.end_y, opt_view(&m.replaced), v.c1, v.c2);
            },
            None => {},
        }
        nodes.push(node);
        i = i + 1;
    }
    ops.commands = nodes;
    proof {
        assert forall|j: int| 0 <= j < n implies #[trigger] ops@[j] == nodes@[j]@ by {}
    }
}

/// The positions of the mappings whose rotary axis replaces a linear
/// axis, in order.
pub open spec fn replacing_indices(m: Seq<RotaryLayerMap>) -> Seq<int>
    decreases m.len(),
{
    if m.len() == 0 {
        seq![]
    } else if m.last().replaced is Some {
        replacing_indices(m.drop_last()).push(m.len() - 1)
    } else {
        replacing_indices(m.drop_last())
    }
}

/// The layer uids of the mappings whose rotary axis replaces a linear
/// axis, in order.
pub open spec fn replacing_uids(m: Seq<RotaryLayerMap>) -> Seq<Seq<char>> {
    Seq::new(replacing_indices(m).len(), |j: int| m[replacing_indices(m)[j]].layer_uid@)
}

proof fn lemma_replacing_indices(m: Seq<RotaryLayerMap>)
    ensures
        forall|j: int|
            0 <= j < replacing_indices(m).len() ==> 0 <= #[trigger] replacing_indices(m)[j] < m.len()
                && m[replacing_indices(m)[j]].replaced is Some,
    decreases m.len(),
{
    if m.len() > 0 {
        lemma_replacing_indices(m.drop_last());
    }
}

/// The values computed from real numbers for one command whose rotary
/// axis replaces a linear one (`f64` bits): the rotary degrees as
/// millimetres of the replaced axis, and the converted values of its
/// first and second control points.
#[derive(Debug)]
pub struct ReplacementValues {
    pub scaled: u64,
    pub v1: u64,
    pub v2: u64,
}

/// The command at position `i` after the axis-replacement pass with
/// `values`: a command in a layer of a mapping whose rotary axis replaces
/// a linear axis, and which holds a value of that rotary axis, is
/// rewritten as `replace_axis` says; every other command stays as it is.
pub open spec fn replacement_result(
    s: Seq<OpNodeView>,
    m: Seq<RotaryLayerMap>,
    values: Seq<ReplacementValues>,
    i: int,
) -> OpNodeView {
    match mapping_for(s, replacing_uids(m), i) {
        Some(k) => {
            let map = m[replacing_indices(m)[k as int]];
            if axis_value(extras_of(s[i].extra_axes), map.rotary) is Some {
                axis_replaced(s[i], map.rotary, map.replaced.unwrap()@, values[i].scaled, values[i].v1, values[i].v2)
            } else {
                s[i]
            }
        },
        None => s[i],
    }
}

fn replacing_of(mappings: &Vec<RotaryLayerMap>) -> (r: (Vec<usize>, Vec<String>))
    ensures
        r.0@.len() == replacing_indices(mappings@).len(),
        forall|j: int| 0 <= j < r.0@.len() ==> #[trigger] r.0@[j] == replacing_indices(mappings@)[j],
        str_views(r.1@) == replacing_uids(mappings@),
{
    let ghost m = mappings@;
    let mut idx: Vec<usize> = Vec::new();
    let mut uids: Vec<String> = Vec::new();
    let mut i: usize = 0;
    while i < mappings.len()
        invariant
            m == mappings@,
            i <= m.len(),
            idx@.len() == replacing_indices(m.take(i as int)).len(),
            forall|j: int| 0 <= j < idx@.len() ==> #[trigger] idx@[j] == replacing_indices(m.take(i as int))[j],
            uids@.len() == idx@.len(),
            forall|j: int| 0 <= j < idx@.len() ==> 0 <= #[trigger] idx@[j] < i,
            forall|j: int| 0 <= j < uids@.len() ==> (#[trigger] uids@[j])@ == m[idx@[j] as int].layer_uid@,
        decreases m.len() - i,
    {
        proof {
            assert(m.take(i + 1).drop_last() =~= m.take(i as int));
            lemma_replacing_indices(m.take(i as int));
        }
        if mappings[i].replaced.is_some() {
            idx.push(i);
            uids.push(mappings[i].layer_uid.clone());
        }
        i = i + 1;
    }
    proof {
        assert(m.take(i as int) =~= m);
        lemma_replacing_indices(m);
        assert(str_views(uids@) =~= replacing_uids(m));
    }
    (idx, uids)
}

/// Turn the rotary degrees back into millimetres of the replaced axis on
/// layers whose mapping's rotary axis replaces a linear axis, with the
/// values computed for each command (`values[i]` for command `i`); see
/// `replacement_result`. Markers, commands outside such layers and
/// commands without a value of the rotary axis stay as they are.
pub fn apply_replacement_values(ops: &mut Ops, mappings: &Vec<RotaryLayerMap>, values: &Vec<ReplacementValues>)
    requires
        values@.len() == old(ops)@.len(),
    ensures
        final(ops)@.len() == old(ops)@.len(),
        final(ops).last_move_to == old(ops).last_move_to,
        forall|i: int|
            0 <= i < old(ops)@.len() ==> #[trigger] final(ops)@[i] == replacement_result(
                old(ops)@,
                mappings@,
                values@,
                i,
            ),
        forall|i: int|
            0 <= i < old(ops)@.len() && mapping_for(old(ops)@, replacing_uids(mappings@), i) is None
                ==> #[trigger] final(ops)@[i] == old(ops)@[i],
{
    let (idx, uids) = replacing_of(mappings);
    let targets = layer_mapping_targets(ops, &uids);
    let ghost before = ops@;
    proof {
        lemma_replacing_indices(mappings@);
    }
    let n = ops.commands.len();
    let mut nodes: Vec<OpNode> = Vec::new();
    let mut i: usize = 0;
    while i < n
        invariant
            n == before.len(),
            before == ops@,
            n == ops.commands@.len(),
            targets@.len() == n,
            values@.len() == n,
            str_views(uids@) == replacing_uids(mappings@),
            idx@.len() == replacing_indices(mappings@).len(),
            forall|j: int| 0 <= j < idx@.len() ==> #[trigger] idx@[j] == replacing_indices(mappings@)[j],
            forall|j: int|
                0 <= j < replacing_indices(mappings@).len() ==> 0 <= #[trigger] replacing_indices(mappings@)[j]
                    < mappings@.len() && mappings@[replacing_indices(mappings@)[j]].replaced is Some,
            forall|j: int| 0 <= j < n ==> #[trigger] targets@[j] == mapping_for(before, replacing_uids(mappings@), j),
            i <= n,
            nodes@.len() == i,
            forall|j: int| 0 <= j < i ==> (#[trigger] nodes@[j])@ == replacement_result(before, mappings@, values@, j),
        decreases n - i,
    {
        let mut node = ops.commands[i].copy();
        assert(before[i as int] == ops.commands@[i as int]@);
        match targets[i] {
            Some(k) => {
                proof {
                    lemma_mapping_in_range(before, replacing_uids(mappings@), i as int);
                }
                let m = &mappings[idx[k]];
                if let Some(replaced) = &m.replaced {
                    if find_axis_value(node.extra_axes(), m.rotary).is_some() {
                        let v = &values[i];
                        node.replace_axis(m.rotary, replaced.as_str(), v.scaled, v.v1, v.v2);
                    }
                }
            },
            None => {},
        }
        nodes.push(node);
        i = i + 1;
    }
    ops.commands = nodes;
    proof {
        assert forall|j: int| 0 <= j < n implies #[trigger] ops@[j] == nodes@[j]@ by {}
    }
}

/// A mapping that applies names a position of the mapping list.
proof fn lemma_mapping_in_range(s: Seq<OpNodeView>, uids: Seq<Seq<char>>, i: int)
    ensures
        mapping_for(s, uids, i) matches Some(k) ==> k < uids.len(),
{
    if s[i].category is Moving {
        if let Some(u) = open_layer(s, i) {
            lemma_last_uid_match_in_range(uids, u, uids.len() as int);
        }
    }
}

proof fn lemma_last_uid_match_in_range(uids: Seq<Seq<char>>, u: Seq<char>, n: int)
    ensures
        last_uid_match(uids, u, n) matches Some(k) ==> k < n,
    decreases n,
{
    if n > 0 {
        lemma_last_uid_match_in_range(uids, u, n - 1);
    }
}

/// Mapping a layer onto a rotary axis converts every curve reference
/// point of a moving command: each Bezier control point and an arc's
/// centre take the converted Y handed in (`c1` for the first, `c2` for
/// the second), keeping their other coordinates and the arc's direction;
/// the kind of the command never changes.
pub proof fn lemma_rotary_converts_curve_points(
    n: OpNodeView,
    rotary: Axis,
    degrees: u64,
    end_y: u64,
    replaced: Option<Seq<char>>,
    c1: u64,
    c2: u64,
)
    ensures
        n.category matches OpCategoryView::Moving { cmd: MoveCmdView::ArcTo { center, cw }, .. }
                ==> rotary_mapped(n, rotary, degrees, end_y, replaced, c1, c2).category matches OpCategoryView::Moving { cmd: MoveCmdView::ArcTo { center: c, cw: w }, .. }
                && c.y == c1 && c.x == center.x && w == cw,
        n.category matches OpCategoryView::Moving { cmd: MoveCmdView::BezierTo { control1, control2 }, .. }
                ==> rotary_mapped(n, rotary, degrees, end_y, replaced, c1, c2).category matches OpCategoryView::Moving {
                cmd: MoveCmdView::BezierTo { control1: a, control2: b },
                ..
            } && a.y == c1 && a.x == control1.x && a.z == control1.z && b.y == c2 && b.x == control2.x && b.z
                == control2.z,
        n.category matches OpCategoryView::Moving { cmd: MoveCmdView::QuadraticBezierTo { control }, .. }
                ==> rotary_mapped(n, rotary, degrees, end_y, replaced, c1, c2).category matches OpCategoryView::Moving {
                cmd: MoveCmdView::QuadraticBezierTo { control: a },
                ..
            } && a.y == c1 && a.x == control.x && a.z == control.z,
        n.category matches OpCategoryView::Moving { cmd: MoveCmdView::MoveTo, .. }
                ==> rotary_mapped(n, rotary, degrees, end_y, replaced, c1, c2).category matches OpCategoryView::Moving { cmd: MoveCmdView::MoveTo, .. },
        n.category matches OpCategoryView::Moving { cmd: MoveCmdView::LineTo, .. }
                ==> rotary_mapped(n, rotary, degrees, end_y, replaced, c1, c2).category matches OpCategoryView::Moving { cmd: MoveCmdView::LineTo, .. },
        n.category matches OpCategoryView::Moving { end, .. } ==> rotary_mapped(n, rotary, degrees, end_y, replaced, c1, c2).category matches OpCategoryView::Moving {
                end: e,
                ..
            } && e.y == (if replaced == Some("Y"@) {
                ZERO_BITS
            } else {
                end_y
            }) && e.x == (if replaced == Some("X"@) {
                ZERO_BITS
            } else {
                end.x
            }) && e.z == (if replaced == Some("Z"@) {
                ZERO_BITS
            } else {
                end.z
            }),
{
    reveal_strlit("X");
    reveal_strlit("Y");
    reveal_strlit("Z");
    assert("X"@[0] == 'X' && "Y"@[0] == 'Y' && "Z"@[0] == 'Z');
    assert("X"@ != "Y"@ && "X"@ != "Z"@ && "Y"@ != "Z"@);
}

/// When the rotary axis replaces a linear axis, each curve reference
/// point takes its own converted value: with `"Y"` the first control point
/// (or the quadratic control point) gets Y `v1` and the second gets Y
/// `v2`; with `"X"` or `"Z"` that coordinate gets the value and Y becomes
/// zero; the other coordinates stay. An arc's centre gets Y `v1` and keeps
/// its X and direction. The end point's replaced coordinate becomes
/// `scaled`.
pub proof fn lemma_replacement_converts_curve_points(
    n: OpNodeView,
    rotary: Axis,
    replaced: Seq<char>,
    scaled: u64,
    v1: u64,
    v2: u64,
)
    ensures
        n.category matches OpCategoryView::Moving { cmd: MoveCmdView::BezierTo { control1, control2 }, .. }
                ==> axis_replaced(n, rotary, replaced, scaled, v1, v2).category matches OpCategoryView::Moving {
                cmd: MoveCmdView::BezierTo { control1: a, control2: b },
                ..
            } && (replaced == "Y"@ ==> a == (Point3D { y: v1, ..control1 }) && b == (Point3D {
                y: v2,
                ..control2
            })) && (replaced == "X"@ ==> a == (Point3D { x: v1, y: ZERO_BITS, ..control1 }) && b == (Point3D {
                x: v2,
                y: ZERO_BITS,
                ..control2
            })) && (replaced == "Z"@ ==> a == (Point3D { z: v1, y: ZERO_BITS, ..control1 }) && b == (Point3D {
                z: v2,
                y: ZERO_BITS,
                ..control2
            })),
        n.category matches OpCategoryView::Moving { cmd: MoveCmdView::QuadraticBezierTo { control }, .. }
                ==> axis_replaced(n, rotary, replaced, scaled, v1, v2).category matches OpCategoryView::Moving {
                cmd: MoveCmdView::QuadraticBezierTo { control: a },
                ..
            } && (replaced == "Y"@ ==> a == (Point3D { y: v1, ..control })) && (replaced == "X"@ ==> a == (Point3D {
                x: v1,
                y: ZERO_BITS,
                ..control
            })) && (replaced == "Z"@ ==> a == (Point3D { z: v1, y: ZERO_BITS, ..control })),
        n.category matches OpCategoryView::Moving { cmd: MoveCmdView::ArcTo { center, cw }, .. }
                ==> axis_replaced(n, rotary, replaced, scaled, v1, v2).category matches OpCategoryView::Moving { cmd: MoveCmdView::ArcTo { center: c, cw: w }, .. }
                && c.y == v1 && c.x == center.x && w == cw,
        n.category matches OpCategoryView::Moving { end, .. } ==> axis_replaced(n, rotary, replaced, scaled, v1, v2).category matches OpCategoryView::Moving {
                end: e,
                ..
            } && (replaced == "Y"@ ==> e == (Point3D { y: scaled, ..end })) && (replaced == "X"@ ==> e == (Point3D {
                x: scaled,
                ..end
            })) && (replaced == "Z"@ ==> e == (Point3D { z: scaled, ..end })),
{
    reveal_strlit("X");
    reveal_strlit("Y");
    reveal_strlit("Z");
    assert("X"@[0] == 'X' && "Y"@[0] == 'Y' && "Z"@[0] == 'Z');
    assert("X"@ != "Y"@ && "X"@ != "Z"@ && "Y"@ != "Z"@);
}

} // verus!
