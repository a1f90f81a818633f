//! The decisions of the contour assembler: which side of the line the
//! tool cuts on, and in which order inner and outer contours are cut.
//! The offsetting itself is real-valued geometry done by the caller.
use vstd::prelude::*;

use crate::text::{eq_ignore_ascii_case, str_eq_ignore_ascii_case};

verus! {

/// The side of a contour the tool cuts on.
#[derive(Clone, Copy, Debug, PartialEq, Eq, Structural)]
pub enum CutSide {
    /// On the line: no offset.
    Centerline,
    /// Outside the line: the offset is added.
    Outside,
    /// Inside the line: the offset is subtracted.
    Inside,
}

impl CutSide {
    /// The cut side named `name` (`"outside"` or `"inside"`, in any ASCII
    /// case); any other name cuts on the line.
    pub fn from_name(name: &str) -> (r: CutSide)
        ensures
            r == if eq_ignore_ascii_case(name@, "outside"@) {
                CutSide::Outside
            } else if eq_ignore_ascii_case(name@, "inside"@) {
                CutSide::Inside
            } else {
                CutSide::Centerline
            },
    {
        if str_eq_ignore_ascii_case(name, "outside") {
            CutSide::Outside
        } else if str_eq_ignore_ascii_case(name, "inside") {
            CutSide::Inside
        } else {
            CutSide::Centerline
        }
    }

    /// The sign the offset distance takes on this side: `1`, `-1`, or `0`
    /// when the tool cuts on the line.
    pub fn offset_sign(&self) -> (r: i8)
        ensures
            r == match *self {
                CutSide::Outside => 1i8,
                CutSide::Inside => -1i8,
                CutSide::Centerline => 0i8,
            },
    {
        match self {
            CutSide::Outside => 1,
            CutSide::Inside => -1,
            CutSide::Centerline => 0,
        }
    }
}

/// Whether the cut order asks for inner contours before outer ones
/// (`"inside_outside"`, in any ASCII case).
pub fn inner_first(cut_order: &str) -> (r: bool)
    ensures
        r == eq_ignore_ascii_case(cut_order@, "inside_outside"@),
{
    str_eq_ignore_ascii_case(cut_order, "inside_outside")
}

/// The order in which closed contours are cut: the inner ones, then the
/// outer ones, when `inner_first` holds; the outer ones first otherwise.
/// Each group keeps its own order.
pub fn contour_order(inner: &Vec<usize>, outer: &Vec<usize>, inner_first: bool) -> (r: Vec<usize>)
    ensures
        r@ == if inner_first {
            inner@ + outer@
        } else {
            outer@ + inner@
        },
{
    let (first, second) = if inner_first {
        (inner, outer)
    } else {
        (outer, inner)
    };
    let mut r: Vec<usize> = Vec::new();
    let mut i: usize = 0;
    while i < first.len()
        invariant
            i <= first@.len(),
            r@ == first@.subrange(0, i as int),
        decreases first@.len() - i,
    {
        r.push(first[i]);
        i = i + 1;
    }
    let mut j: usize = 0;
    while j < second.len()
        invariant
            i == first@.len(),
            j <= second@.len(),
            r@ == first@ + second@.subrange(0, j as int),
        decreases second@.len() - j,
    {
        r.push(second[j]);
        proof {
            assert(second@.subrange(0, j + 1) =~= second@.subrange(0, j as int).push(second@[j as int]));
        }
        j = j + 1;
    }
    proof {
        assert(second@.subrange(0, second@.len() as int) =~= second@);
    }
    r
}

} // verus!
