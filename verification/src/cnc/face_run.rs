//! Running one assembler over the faces of a part: which faces are
//! targeted, how each face's outcome is folded into the node's result,
//! and when the node as a whole has failed.
use vstd::prelude::*;

use crate::ops::assembly::{AssemblyWarning, AssemblyWarningKind};
use crate::text::{copy_strings, join_with, str_equals, str_views};

verus! {

/// The faces an assembler node works on: the named face alone when
/// `face_id` is not empty (the flag is then set), otherwise every face of
/// the part, in the part's order.
pub fn resolve_face_ids(face_id: &String, part_face_ids: &Vec<String>) -> (r: (bool, Vec<String>))
    ensures
        r.0 == (face_id@.len() > 0),
        r.0 ==> r.1@ == seq![*face_id],
        !r.0 ==> r.1@ == part_face_ids@,
{
    if face_id.as_str().unicode_len() > 0 {
        let mut v: Vec<String> = Vec::new();
        v.push(face_id.clone());
        (true, v)
    } else {
        (false, copy_strings(part_face_ids))
    }
}

/// Whether the run over the faces goes on after a face's outcome.
#[derive(Clone, Copy, Debug, PartialEq, Eq, Structural)]
pub enum FaceStep {
    Continue,
    Cancelled,
}

/// The outcomes of the faces assembled so far: the start pose of the
/// first face that succeeded, the end pose of the last one, the faces
/// that succeeded, and a warning for each face that failed.
#[derive(Debug)]
pub struct FaceRun<P> {
    pub start: Option<P>,
    pub end: Option<P>,
    pub processed_face_ids: Vec<String>,
    pub warnings: Vec<AssemblyWarning>,
}

/// The diagnostics of a list of warnings, in order.
pub open spec fn warning_details(ws: Seq<AssemblyWarning>) -> Seq<Seq<char>> {
    ws.map_values(|w: AssemblyWarning| w.detail@)
}

/// The error message of a node none of whose attempted faces succeeded:
/// the diagnostics of its warnings joined with `"; "`.
pub open spec fn all_failed_message(ws: Seq<AssemblyWarning>) -> Seq<char> {
    join_with(warning_details(ws), seq![';', ' '])
}

impl<P> FaceRun<P> {
    /// Nothing assembled yet.
    pub fn new() -> (r: FaceRun<P>)
        ensures
            r.start is None,
            r.end is None,
            r.processed_face_ids@.len() == 0,
            r.warnings@.len() == 0,
    {
        FaceRun { start: None, end: None, processed_face_ids: Vec::new(), warnings: Vec::new() }
    }

    /// Fold in the outcome of face `fid`: its `(start, end)` poses when it
    /// succeeded, or the assembler's error. The error `"cancelled"` stops
    /// the run and changes nothing; any other error is kept as a
    /// face-failed warning and the run goes on with the next face.
    pub fn record(&mut self, fid: &String, result: Result<(P, P), String>) -> (r: FaceStep)
        ensures
            match result {
                Ok((s, e)) => {
                    &&& r == FaceStep::Continue
                    &&& final(self).start == if old(self).start is None {
                        Some(s)
                    } else {
                        old(self).start
                    }
                    &&& final(self).end == Some(e)
                    &&& final(self).processed_face_ids@ == old(self).processed_face_ids@.push(*fid)
                    &&& final(self).warnings@ == old(self).warnings@
                },
                Err(msg) => if msg@ == seq!['c', 'a', 'n', 'c', 'e', 'l', 'l', 'e', 'd'] {
                    &&& r == FaceStep::Cancelled
                    &&& *final(self) == *old(self)
                } else {
                    &&& r == FaceStep::Continue
                    &&& final(self).start == old(self).start
                    &&& final(self).end == old(self).end
                    &&& final(self).processed_face_ids@ == old(self).processed_face_ids@
                    &&& final(self).warnings@ == old(self).warnings@.push(
                        AssemblyWarning {
                            kind: AssemblyWarningKind::FaceFailed,
                            face_id: *fid,
                            region: None,
                            detail: msg,
                        },
                    )
                },
            },
    {
        match result {
            Ok((s, e)) => {
                if self.start.is_none() {
                    self.start = Some(s);
                }
                self.end = Some(e);
                self.processed_face_ids.push(fid.clone());
                FaceStep::Continue
            },
            Err(msg) => {
                proof {
                    reveal_strlit("cancelled");
                    assert("cancelled"@ =~= seq!['c', 'a', 'n', 'c', 'e', 'l', 'l', 'e', 'd']);
                }
                if str_equals(msg.as_str(), "cancelled") {
                    FaceStep::Cancelled
                } else {
                    self.warnings.push(
                        AssemblyWarning {
                            kind: AssemblyWarningKind::FaceFailed,
                            face_id: fid.clone(),
                            region: None,
                            detail: msg,
                        },
                    );
                    FaceStep::Continue
                }
            },
        }
    }

    /// The node has failed when no face succeeded although at least one
    /// was attempted and failed; the error then carries every failure's
    /// diagnostic, joined with `"; "`.
    pub fn failure(&self) -> (r: Option<String>)
        ensures
            (self.processed_face_ids@.len() == 0 && self.warnings@.len() > 0) == r is Some,
            r matches Some(m) ==> m@ == all_failed_message(self.warnings@),
    {
        if self.processed_face_ids.len() > 0 || self.warnings.len() == 0 {
            return None;
        }
        let ghost details = warning_details(self.warnings@);
        let sep = "; ";
        proof {
            reveal_strlit("; ");
        }
        let mut text = String::new();
        let n = self.warnings.len();
        let mut i: usize = 0;
        while i < n
            invariant
                n == self.warnings@.len(),
                details == warning_details(self.warnings@),
                sep@ == seq![';', ' '],
                i <= n,
                text@ == join_with(details.subrange(0, i as int), seq![';', ' ']),
            decreases n - i,
        {
            if i > 0 {
                text.append(sep);
            }
            text.append(self.warnings[i].detail.as_str());
            proof {
                let pre = details.subrange(0, i as int);
                let post = details.subrange(0, i + 1);
                assert(post.drop_last() =~= pre);
                assert(post.last() == self.warnings@[i as int].detail@);
                if i == 0 {
                    assert(join_with(post, seq![';', ' ']) == post[0]);
                    assert(text@ =~= join_with(post, seq![';', ' ']));
                }
            }
            i = i + 1;
        }
        proof {
            assert(details.subrange(0, n as int) =~= details);
        }
        Some(text)
    }
}

} // verus!
