//! Splitting an `Ops` sequence into pieces.
use vstd::prelude::*;

use crate::ops::container::{command_types, Ops};
use crate::ops::enums::CommandType;
use crate::ops::types::{node_command_type, OpNodeView};

verus! {

/// The end marker that closes a paired start marker.
pub open spec fn paired_end(ct: CommandType) -> Option<CommandType> {
    match ct {
        CommandType::LayerStart => Some(CommandType::LayerEnd),
        CommandType::WorkpieceStart => Some(CommandType::WorkpieceEnd),
        CommandType::OpsSectionStart => Some(CommandType::OpsSectionEnd),
        CommandType::ProcessStart => Some(CommandType::ProcessEnd),
        CommandType::JobStart => Some(CommandType::JobEnd),
        _ => None,
    }
}

/// The index ranges `[lo, hi)` of the pieces that `split_at` cuts a
/// command-type sequence into, scanning from position `i` where the
/// current piece began at `g`. `in_pair` tells whether that piece was
/// opened by the start marker `s` (and so runs up to and including the
/// next end marker `e`) or is a gap between paired pieces.
pub open spec fn split_ranges(
    ts: Seq<CommandType>,
    s: CommandType,
    e: CommandType,
    i: int,
    g: int,
    in_pair: bool,
) -> Seq<(int, int)>
    decreases ts.len() - i,
{
    if i >= ts.len() {
        if g < i {
            seq![(g, i)]
        } else {
            seq![]
        }
    } else if in_pair {
        if ts[i] == e {
            seq![(g, i + 1)] + split_ranges(ts, s, e, i + 1, i + 1, false)
        } else {
            split_ranges(ts, s, e, i + 1, g, true)
        }
    } else if ts[i] == s {
        let pre = if g < i {
            seq![(g, i)]
        } else {
            seq![]
        };
        pre + split_ranges(ts, s, e, i + 1, i, true)
    } else {
        split_ranges(ts, s, e, i + 1, g, false)
    }
}

/// The pieces of `split_at(s)` as index ranges of `ts`.
pub open spec fn split_at_ranges(ts: Seq<CommandType>, s: CommandType) -> Seq<(int, int)> {
    split_ranges(ts, s, paired_end(s).unwrap(), 0, 0, false)
}

/// Piece `p` holds the nodes of `s` in the index range `rg`.
pub open spec fn piece_matches(p: Ops, rg: (int, int), s: Seq<OpNodeView>) -> bool {
    0 <= rg.0 <= rg.1 <= s.len() && p@ == s.subrange(rg.0, rg.1)
}

/// Each piece holds the nodes of `s` in the matching index range.
pub open spec fn pieces_match(ps: Seq<Ops>, rs: Seq<(int, int)>, s: Seq<OpNodeView>) -> bool {
    ps.len() == rs.len() && forall|k: int| 0 <= k < rs.len() ==> piece_matches(#[trigger] ps[k], rs[k], s)
}

/// `rs` cuts `[lo, hi)` into consecutive non-empty ranges, in order.
pub open spec fn tiles(rs: Seq<(int, int)>, lo: int, hi: int) -> bool {
    &&& rs.len() == 0 ==> lo == hi
    &&& rs.len() > 0 ==> rs[0].0 == lo && rs.last().1 == hi
    &&& forall|k: int| 0 <= k < rs.len() ==> #[trigger] rs[k].0 < rs[k].1
    &&& forall|k: int| 0 <= k < rs.len() - 1 ==> #[trigger] rs[k].1 == rs[k + 1].0
}

/// The concatenation of a sequence of node sequences.
pub open spec fn flatten(parts: Seq<Seq<OpNodeView>>) -> Seq<OpNodeView>
    decreases parts.len(),
{
    if parts.len() == 0 {
        Seq::empty()
    } else {
        flatten(parts.drop_last()) + parts.last()
    }
}

/// The node sequences of a vector of `Ops`.
pub open spec fn parts_view(v: Seq<Ops>) -> Seq<Seq<OpNodeView>> {
    v.map_values(|o: Ops| o@)
}

proof fn lemma_prepend_tile(r: (int, int), rest: Seq<(int, int)>, lo: int, hi: int)
    requires
        r.0 == lo,
        r.0 < r.1,
        tiles(rest, r.1, hi),
    ensures
        tiles(seq![r] + rest, lo, hi),
{
    let all = seq![r] + rest;
    assert forall|k: int| 0 <= k < all.len() implies #[trigger] all[k].0 < all[k].1 by {
        if k > 0 {
            assert(all[k] == rest[k - 1]);
        }
    }
    assert forall|k: int| 0 <= k < all.len() - 1 implies #[trigger] all[k].1 == all[k + 1].0 by {
        if k > 0 {
            assert(all[k] == rest[k - 1]);
            assert(all[k + 1] == rest[k]);
        }
    }
    if rest.len() > 0 {
        assert(all.last() == rest.last());
    }
}

proof fn lemma_split_ranges_tile(
    ts: Seq<CommandType>,
    s: CommandType,
    e: CommandType,
    i: int,
    g: int,
    in_pair: bool,
)
    requires
        0 <= g <= i <= ts.len(),
        in_pair ==> g < i,
    ensures
        tiles(split_ranges(ts, s, e, i, g, in_pair), g, ts.len() as int),
    decreases ts.len() - i,
{
    let rs = split_ranges(ts, s, e, i, g, in_pair);
    if i >= ts.len() {
        if g < i {
            assert(rs == seq![(g, i)]);
        } else {
            assert(rs.len() == 0);
        }
    } else if in_pair {
        if ts[i] == e {
            lemma_split_ranges_tile(ts, s, e, i + 1, i + 1, false);
            lemma_prepend_tile((g, i + 1), split_ranges(ts, s, e, i + 1, i + 1, false), g, ts.len() as int);
        } else {
            lemma_split_ranges_tile(ts, s, e, i + 1, g, true);
        }
    } else if ts[i] == s {
        lemma_split_ranges_tile(ts, s, e, i + 1, i, true);
        if g < i {
            lemma_prepend_tile((g, i), split_ranges(ts, s, e, i + 1, i, true), g, ts.len() as int);
        } else {
            assert(seq![] + split_ranges(ts, s, e, i + 1, i, true) =~= split_ranges(ts, s, e, i + 1, i, true));
        }
    } else {
        lemma_split_ranges_tile(ts, s, e, i + 1, g, false);
    }
}

proof fn lemma_flatten_push(parts: Seq<Seq<OpNodeView>>, p: Seq<OpNodeView>)
    ensures
        flatten(parts.push(p)) == flatten(parts) + p,
{
    assert(parts.push(p).drop_last() =~= parts);
}

/// Flattening the subranges of a tiling of `[lo, hi)` gives back the
/// subrange `[lo, hi)`.
proof fn lemma_flatten_tiles(s: Seq<OpNodeView>, rs: Seq<(int, int)>, lo: int, hi: int)
    requires
        tiles(rs, lo, hi),
        0 <= lo <= hi <= s.len(),
    ensures
        flatten(rs.map_values(|r: (int, int)| s.subrange(r.0, r.1))) == s.subrange(lo, hi),
    decreases rs.len(),
{
    let parts = rs.map_values(|r: (int, int)| s.subrange(r.0, r.1));
    if rs.len() == 0 {
        assert(s.subrange(lo, hi) =~= Seq::<OpNodeView>::empty());
    } else {
        let init = rs.drop_last();
        let last = rs.last();
        let mid = last.0;
        if init.len() > 0 {
            assert(init.last() == rs[rs.len() - 2]);
            assert(rs[rs.len() - 2].1 == rs[rs.len() - 1].0);
        }
        assert(tiles(init, lo, mid)) by {
            assert forall|k: int| 0 <= k < init.len() implies #[trigger] init[k].0 < init[k].1 by {
                assert(init[k] == rs[k]);
            }
            assert forall|k: int| 0 <= k < init.len() - 1 implies #[trigger] init[k].1 == init[k
                + 1].0 by {
                assert(init[k] == rs[k]);
                assert(init[k + 1] == rs[k + 1]);
            }
        }
        assert(lo <= mid) by {
            if init.len() > 0 {
                assert forall|k: int| 0 <= k < init.len() implies init[0].0 <= #[trigger] init[k].1 by {
                    lemma_tiles_monotone(init, lo, mid, k);
                }
                assert(init[0].0 <= init.last().1);
            }
        }
        assert(mid < hi);
        lemma_flatten_tiles(s, init, lo, mid);
        assert(parts.drop_last() =~= init.map_values(|r: (int, int)| s.subrange(r.0, r.1)));
        assert(parts.last() == s.subrange(mid, hi));
        assert(s.subrange(lo, mid) + s.subrange(mid, hi) =~= s.subrange(lo, hi));
    }
}

proof fn lemma_tiles_monotone(rs: Seq<(int, int)>, lo: int, hi: int, k: int)
    requires
        tiles(rs, lo, hi),
        0 <= k < rs.len(),
    ensures
        lo <= rs[k].0 < rs[k].1,
        rs[k].1 <= hi,
    decreases k + (rs.len() - k),
{
    lemma_tiles_lower(rs, lo, hi, k);
    lemma_tiles_upper(rs, lo, hi, k);
}

proof fn lemma_tiles_lower(rs: Seq<(int, int)>, lo: int, hi: int, k: int)
    requires
        tiles(rs, lo, hi),
        0 <= k < rs.len(),
    ensures
        lo <= rs[k].0,
    decreases k,
{
    if k > 0 {
        lemma_tiles_lower(rs, lo, hi, k - 1);
        assert(rs[k - 1].1 == rs[k].0);
    }
}

proof fn lemma_tiles_upper(rs: Seq<(int, int)>, lo: int, hi: int, k: int)
    requires
        tiles(rs, lo, hi),
        0 <= k < rs.len(),
    ensures
        rs[k].1 <= hi,
    decreases rs.len() - k,
{
    if k < rs.len() - 1 {
        lemma_tiles_upper(rs, lo, hi, k + 1);
        assert(rs[k].1 == rs[k + 1].0);
    }
}

/// `split_at` cuts the command sequence into consecutive, non-empty
/// pieces that together cover every command exactly once, in order.
pub proof fn lemma_split_at_partitions(ops: Seq<OpNodeView>, s: CommandType)
    requires
        paired_end(s) is Some,
    ensures
        tiles(split_at_ranges(command_types(ops), s), 0, ops.len() as int),
        flatten(
            split_at_ranges(command_types(ops), s).map_values(
                |r: (int, int)| ops.subrange(r.0, r.1),
            ),
        ) == ops,
{
    let ts = command_types(ops);
    lemma_split_ranges_tile(ts, s, paired_end(s).unwrap(), 0, 0, false);
    lemma_flatten_tiles(ops, split_at_ranges(ts, s), 0, ops.len() as int);
    assert(ops.subrange(0, ops.len() as int) =~= ops);
}

fn range_indices(lo: usize, hi: usize) -> (r: Vec<usize>)
    requires
        lo <= hi,
    ensures
        r@.len() == hi - lo,
        forall|k: int| 0 <= k < r@.len() ==> r@[k] == lo + k,
{
    let mut r: Vec<usize> = Vec::new();
    let mut i = lo;
    while i < hi
        invariant
            lo <= i <= hi,
            r@.len() == i - lo,
            forall|k: int| 0 <= k < r@.len() ==> r@[k] == lo + k,
        decreases hi - i,
    {
        r.push(i);
        i = i + 1;
    }
    r
}

impl Ops {
    /// A new sequence made of copies of the nodes at `indices`, in that
    /// order.
    pub fn sub_ops(&self, indices: &[usize]) -> (r: Ops)
        requires
            forall|k: int| 0 <= k < indices@.len() ==> indices@[k] < self@.len(),
        ensures
            r@.len() == indices@.len(),
            forall|k: int| 0 <= k < indices@.len() ==> r@[k] == self@[indices@[k] as int],
    {
        let mut result = Ops::new();
        let mut k: usize = 0;
        while k < indices.len()
            invariant
                forall|j: int| 0 <= j < indices@.len() ==> indices@[j] < self@.len(),
                k <= indices@.len(),
                result@.len() == k,
                forall|j: int| 0 <= j < k ==> result@[j] == self@[indices@[j] as int],
            decreases indices.len() - k,
        {
            let cmd = self.commands[indices[k]].copy();
            result.push(cmd);
            k = k + 1;
        }
        result
    }

    /// The index lists of the subpaths: a new subpath begins at every
    /// `MoveTo` command that is not the first command.
    pub fn subpath_indices(&self) -> (r: Vec<Vec<usize>>)
        ensures
            r@.len() == subpath_ranges(command_types(self@), 0, 0).len(),
            forall|k: int|
                #![trigger r@[k]]
                0 <= k < r@.len() ==> {
                    let rg = subpath_ranges(command_types(self@), 0, 0)[k];
                    &&& r@[k]@.len() == rg.1 - rg.0
                    &&& forall|j: int| 0 <= j < r@[k]@.len() ==> r@[k]@[j] == rg.0 + j
                },
    {
        let ghost ts = command_types(self@);
        let n = self.len();
        let mut result: Vec<Vec<usize>> = Vec::new();
        let mut current: Vec<usize> = Vec::new();
        let ghost mut done: Seq<(int, int)> = Seq::empty();
        let mut g: usize = 0;
        let mut i: usize = 0;
        assert(subpath_ranges(ts, 0, 0) =~= done + subpath_ranges(ts, 0, 0));
        while i < n
            invariant
                n == self@.len(),
                ts == command_types(self@),
                g <= i <= n,
                current@.len() == i - g,
                forall|j: int| 0 <= j < current@.len() ==> current@[j] == g + j,
                subpath_ranges(ts, 0, 0) == done + subpath_ranges(ts, i as int, g as int),
                result@.len() == done.len(),
                forall|k: int|
                    #![trigger result@[k]]
                    0 <= k < done.len() ==> result@[k]@.len() == done[k].1 - done[k].0 && forall|
                        j: int,
                    | 0 <= j < result@[k]@.len() ==> result@[k]@[j] == done[k].0 + j,
            decreases n - i,
        {
            if self.command_type(i) == CommandType::MoveTo && g < i {
                let ghost old_done = done;
                let ghost old_result = result@;
                result.push(current);
                current = Vec::new();
                proof {
                    done = done.push((g as int, i as int));
                    assert(old_done + (seq![(g as int, i as int)] + subpath_ranges(ts, i + 1, i as int))
                        =~= done + subpath_ranges(ts, i + 1, i as int));
                    assert forall|k: int|
                        #![trigger result@[k]]
                        0 <= k < done.len() implies result@[k]@.len() == done[k].1 - done[k].0 && forall|
                            j: int,
                        | 0 <= j < result@[k]@.len() ==> result@[k]@[j] == done[k].0 + j by {
                        if k < old_done.len() {
                            assert(result@[k] == old_result[k]);
                        }
                    }
                }
                g = i;
            }
            current.push(i);
            i = i + 1;
        }
        if g < n {
            let ghost old_done = done;
            let ghost old_result = result@;
            result.push(current);
            proof {
                done = done.push((g as int, n as int));
                assert(old_done + seq![(g as int, n as int)] =~= done);
                assert forall|k: int|
                    #![trigger result@[k]]
                    0 <= k < done.len() implies result@[k]@.len() == done[k].1 - done[k].0 && forall|
                        j: int,
                    | 0 <= j < result@[k]@.len() ==> result@[k]@[j] == done[k].0 + j by {
                    if k < old_done.len() {
                        assert(result@[k] == old_result[k]);
                    }
                }
            }
        } else {
            assert(done =~= subpath_ranges(ts, 0, 0));
        }
        result
    }

    /// The subpaths of the sequence as separate `Ops`; a new subpath
    /// begins at every `MoveTo` command that is not the first command.
    pub fn split_into_subpaths(&self) -> (r: Vec<Ops>)
        ensures
            pieces_match(r@, subpath_ranges(command_types(self@), 0, 0), self@),
    {
        let subpath_idx = self.subpath_indices();
        let ghost rs = subpath_ranges(command_types(self@), 0, 0);
        proof {
            lemma_subpaths_partition(self@);
        }
        let mut result: Vec<Ops> = Vec::new();
        let mut k: usize = 0;
        while k < subpath_idx.len()
            invariant
                rs == subpath_ranges(command_types(self@), 0, 0),
                tiles(rs, 0, self@.len() as int),
                subpath_idx@.len() == rs.len(),
                forall|q: int|
                    #![trigger subpath_idx@[q]]
                    0 <= q < subpath_idx@.len() ==> {
                        &&& subpath_idx@[q]@.len() == rs[q].1 - rs[q].0
                        &&& forall|j: int| 0 <= j < subpath_idx@[q]@.len() ==> subpath_idx@[q]@[j] == rs[q].0 + j
                    },
                k <= subpath_idx@.len(),
                pieces_match(result@, rs.subrange(0, k as int), self@),
            decreases subpath_idx.len() - k,
        {
            let indices = &subpath_idx[k];
            proof {
                lemma_tiles_monotone(rs, 0, self@.len() as int, k as int);
                assert(subpath_idx@[k as int]@.len() == rs[k as int].1 - rs[k as int].0);
            }
            let piece = self.sub_ops(indices.as_slice());
            let ghost old_result = result@;
            result.push(piece);
            proof {
                assert(piece@ =~= self@.subrange(rs[k as int].0, rs[k as int].1));
                assert forall|q: int| 0 <= q < k + 1 implies piece_matches(
                    #[trigger] result@[q],
                    rs.subrange(0, k + 1)[q],
                    self@,
                ) by {
                    if q < k {
                        assert(result@[q] == old_result[q]);
                        assert(piece_matches(old_result[q], rs.subrange(0, k as int)[q], self@));
                    }
                }
            }
            k = k + 1;
        }
        assert(rs.subrange(0, rs.len() as int) =~= rs);
        result
    }

    fn sub_range(&self, lo: usize, hi: usize) -> (r: Ops)
        requires
            lo <= hi <= self@.len(),
        ensures
            r@ == self@.subrange(lo as int, hi as int),
    {
        let idx = range_indices(lo, hi);
        let r = self.sub_ops(idx.as_slice());
        assert(r@ =~= self@.subrange(lo as int, hi as int));
        r
    }

    /// Split the sequence at every occurrence of the paired start marker
    /// `start_ct`. Each piece opened by `start_ct` runs up to and
    /// including the next matching end marker (or to the end of the
    /// sequence); the commands between such pieces form pieces of their
    /// own. `start_ct` must be one of the paired start markers (job,
    /// layer, workpiece, ops section or process start).
    pub fn split_at(&self, start_ct: CommandType) -> (r: Vec<Ops>)
        requires
            paired_end(start_ct) is Some,
        ensures
            r@.len() == split_at_ranges(command_types(self@), start_ct).len(),
            forall|k: int|
                #![trigger r@[k]]
                0 <= k < r@.len() ==> {
                    let rg = split_at_ranges(command_types(self@), start_ct)[k];
                    r@[k]@ == self@.subrange(rg.0, rg.1)
                },
    {
        let end_ct = match start_ct {
            CommandType::LayerStart => CommandType::LayerEnd,
            CommandType::WorkpieceStart => CommandType::WorkpieceEnd,
            CommandType::OpsSectionStart => CommandType::OpsSectionEnd,
            CommandType::ProcessStart => CommandType::ProcessEnd,
            _ => CommandType::JobEnd,
        };
        let ghost ts = command_types(self@);
        let ghost total = split_ranges(ts, start_ct, end_ct, 0, 0, false);
        let mut segments: Vec<Ops> = Vec::new();
        if self.is_empty() {
            assert(total.len() == 0);
            return segments;
        }
        let n = self.len();
        let ghost mut done: Seq<(int, int)> = Seq::empty();
        let mut gap_start: usize = 0;
        let mut i: usize = 0;
        assert(total =~= done + split_ranges(ts, start_ct, end_ct, 0, 0, false));
        while i < n
            invariant
                n == self@.len(),
                ts == command_types(self@),
                paired_end(start_ct) is Some,
                end_ct == paired_end(start_ct).unwrap(),
                total == split_ranges(ts, start_ct, end_ct, 0, 0, false),
                gap_start <= i <= n,
                total == done + split_ranges(ts, start_ct, end_ct, i as int, gap_start as int, false),
                segments@.len() == done.len(),
                pieces_match(segments@, done, self@),
            decreases n - i,
        {
            if self.command_type(i) == start_ct {
                let ghost pre = if gap_start < i {
                    seq![(gap_start as int, i as int)]
                } else {
                    seq![]
                };
                assert(split_ranges(ts, start_ct, end_ct, i as int, gap_start as int, false)
                    == pre + split_ranges(ts, start_ct, end_ct, i + 1, i as int, true));
                assert(total =~= (done + pre) + split_ranges(ts, start_ct, end_ct, i + 1, i as int, true));
                if gap_start < i {
                    let ghost old_segs = segments@;
                    let ghost old_done = done;
                    segments.push(self.sub_range(gap_start, i));
                    proof {
                        done = done.push((gap_start as int, i as int));
                        assert(done =~= old_done + pre);
                        assert forall|k: int| 0 <= k < done.len() implies piece_matches(#[trigger] segments@[k], done[k], self@) by {
                            if k < old_done.len() {
                                assert(segments@[k] == old_segs[k]);
                                assert(done[k] == old_done[k]);
                            }
                        }
                    }
                } else {
                    assert(done + pre =~= done);
                }
                assert(total == done + split_ranges(ts, start_ct, end_ct, i + 1, i as int, true));
                assert(segments@.len() == done.len());
                let pair_start = i;
                i = i + 1;
                while i < n && self.command_type(i) != end_ct
                    invariant
                        n == self@.len(),
                        ts == command_types(self@),
                        pair_start < i <= n,
                        total == done + split_ranges(ts, start_ct, end_ct, i as int, pair_start as int, true),
                        segments@.len() == done.len(),
                        pieces_match(segments@, done, self@),
                    decreases n - i,
                {
                    i = i + 1;
                }
                if i < n {
                    assert(split_ranges(ts, start_ct, end_ct, i as int, pair_start as int, true)
                        == seq![(pair_start as int, i + 1)] + split_ranges(ts, start_ct, end_ct, i + 1, i + 1, false));
                    i = i + 1;
                } else {
                    assert(split_ranges(ts, start_ct, end_ct, i as int, pair_start as int, true)
                        == seq![(pair_start as int, i as int)]);
                    assert(split_ranges(ts, start_ct, end_ct, i as int, i as int, false) =~= Seq::<(int, int)>::empty());
                }
                let ghost old_segs = segments@;
                segments.push(self.sub_range(pair_start, i));
                proof {
                    let old_done = done;
                    done = done.push((pair_start as int, i as int));
                    assert forall|k: int| 0 <= k < done.len() implies piece_matches(#[trigger] segments@[k], done[k], self@) by {
                        if k < old_done.len() {
                            assert(segments@[k] == old_segs[k]);
                        }
                    }
                    assert(old_done + seq![(pair_start as int, i as int)] + split_ranges(ts, start_ct, end_ct, i as int, i as int, false)
                        =~= done + split_ranges(ts, start_ct, end_ct, i as int, i as int, false));
                }
                gap_start = i;
            } else {
                i = i + 1;
            }
        }
        if gap_start < n {
            let ghost old_segs = segments@;
            segments.push(self.sub_range(gap_start, n));
            proof {
                let old_done = done;
                done = done.push((gap_start as int, n as int));
                assert forall|k: int| 0 <= k < done.len() implies piece_matches(#[trigger] segments@[k], done[k], self@) by {
                    if k < old_done.len() {
                        assert(segments@[k] == old_segs[k]);
                    }
                }
                assert(old_done + seq![(gap_start as int, n as int)] =~= done);
            }
        } else {
            assert(done =~= total);
        }
        assert(done =~= total);
        segments
    }
}

/// Pieces that match the ranges of a tiling of the whole sequence
/// concatenate back to the sequence; with `split_at`'s contract this says
/// that joining the pieces of `split_at` gives back the commands it split.
pub proof fn lemma_pieces_concatenate(pieces: Seq<Ops>, rs: Seq<(int, int)>, ops: Seq<OpNodeView>)
    requires
        tiles(rs, 0, ops.len() as int),
        pieces_match(pieces, rs, ops),
    ensures
        flatten(parts_view(pieces)) == ops,
{
    lemma_flatten_tiles(ops, rs, 0, ops.len() as int);
    assert(parts_view(pieces) =~= rs.map_values(|r: (int, int)| ops.subrange(r.0, r.1))) by {
        assert forall|k: int| 0 <= k < rs.len() implies #[trigger] parts_view(pieces)[k]
            == rs.map_values(|r: (int, int)| ops.subrange(r.0, r.1))[k] by {
            assert(piece_matches(pieces[k], rs[k], ops));
        }
    }
    assert(ops.subrange(0, ops.len() as int) =~= ops);
}

/// The index ranges of the subpaths of a command-type sequence: a new
/// subpath begins at every `MoveTo` that is not the first command.
pub open spec fn subpath_ranges(ts: Seq<CommandType>, i: int, g: int) -> Seq<(int, int)>
    decreases ts.len() - i,
{
    if i >= ts.len() {
        if g < i {
            seq![(g, i)]
        } else {
            seq![]
        }
    } else if ts[i] == CommandType::MoveTo && g < i {
        seq![(g, i)] + subpath_ranges(ts, i + 1, i)
    } else {
        subpath_ranges(ts, i + 1, g)
    }
}

proof fn lemma_subpath_ranges_tile(ts: Seq<CommandType>, i: int, g: int)
    requires
        0 <= g <= i <= ts.len(),
        i < ts.len() ==> g < i || (g == i && i == 0) || (g + 1 == i),
        g < i || i == 0 || i == ts.len(),
    ensures
        tiles(subpath_ranges(ts, i, g), g, ts.len() as int),
    decreases ts.len() - i,
{
    if i >= ts.len() {
        if g < i {
            assert(subpath_ranges(ts, i, g) == seq![(g, i)]);
        }
    } else if ts[i] == CommandType::MoveTo && g < i {
        lemma_subpath_ranges_tile(ts, i + 1, i);
        lemma_prepend_tile((g, i), subpath_ranges(ts, i + 1, i), g, ts.len() as int);
    } else {
        lemma_subpath_ranges_tile(ts, i + 1, g);
    }
}

/// The subpaths cover the whole sequence, in order, without overlap.
pub proof fn lemma_subpaths_partition(ops: Seq<OpNodeView>)
    ensures
        tiles(subpath_ranges(command_types(ops), 0, 0), 0, ops.len() as int),
{
    lemma_subpath_ranges_tile(command_types(ops), 0, 0);
}

} // verus!
