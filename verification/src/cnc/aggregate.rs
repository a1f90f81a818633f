//! The decisions of the aggregation node: which inputs of a group are
//! preceded by a travel link, which input's end the group's final lift
//! starts from, and which upstream nodes the aggregation depends on. The
//! link moves themselves are real-valued and emitted by the caller.
use vstd::prelude::*;

use crate::text::{str_equals, str_views};

verus! {

/// Whether some input before position `i` has known world positions.
pub open spec fn positioned_before(has_positions: Seq<bool>, i: int) -> bool {
    exists|j: int| 0 <= j < i && #[trigger] has_positions[j]
}

/// For each input of a group, whether a travel link is emitted before
/// it: in sequential link mode, when its own start position is known and
/// some earlier input's end position is known (the link starts from the
/// latest such end).
pub fn link_plan(has_positions: &Vec<bool>, sequential: bool) -> (r: Vec<bool>)
    ensures
        r@.len() == has_positions@.len(),
        forall|i: int|
            0 <= i < r@.len() ==> #[trigger] r@[i] == (sequential && has_positions@[i] && positioned_before(
                has_positions@,
                i,
            )),
{
    let mut r: Vec<bool> = Vec::new();
    let mut seen = false;
    let mut i: usize = 0;
    while i < has_positions.len()
        invariant
            i <= has_positions@.len(),
            r@.len() == i,
            seen == positioned_before(has_positions@, i as int),
            forall|k: int|
                0 <= k < i ==> #[trigger] r@[k] == (sequential && has_positions@[k] && positioned_before(
                    has_positions@,
                    k,
                )),
        decreases has_positions@.len() - i,
    {
        let here = has_positions[i];
        r.push(sequential && here && seen);
        proof {
            if here {
                assert(has_positions@[i as int]);
            }
            if positioned_before(has_positions@, i + 1) && !here {
                let j = choose|j: int| 0 <= j < i + 1 && #[trigger] has_positions@[j];
                assert(j < i);
            }
        }
        seen = seen || here;
        i = i + 1;
    }
    r
}

/// The last input of a group whose end position is known: the group's
/// final lift to the safe height starts from its end. `None` when no
/// input's positions are known, and then there is no final lift.
pub fn last_positioned(has_positions: &Vec<bool>) -> (r: Option<usize>)
    ensures
        match r {
            Some(k) => k < has_positions@.len() && has_positions@[k as int] && forall|j: int|
                k < j < has_positions@.len() ==> !#[trigger] has_positions@[j],
            None => forall|j: int| 0 <= j < has_positions@.len() ==> !#[trigger] has_positions@[j],
        },
{
    let mut i = has_positions.len();
    while i > 0
        invariant
            i <= has_positions@.len(),
            forall|j: int| i <= j < has_positions@.len() ==> !#[trigger] has_positions@[j],
        decreases i,
    {
        if has_positions[i - 1] {
            return Some(i - 1);
        }
        i = i - 1;
    }
    None
}

/// The upstream nodes an aggregation reads: every input's source key, each
/// once. They form a set, so no order is promised.
pub fn source_keys(groups: &Vec<Vec<String>>) -> (r: Vec<String>)
    ensures
        forall|k: Seq<char>|
            str_views(r@).contains(k) <==> exists|g: int, i: int|
                0 <= g < groups@.len() && 0 <= i < groups@[g]@.len() && #[trigger] groups@[g]@[i]@ == k,
        forall|a: int, b: int|
            0 <= a < b < r@.len() ==> (#[trigger] r@[a])@ != (#[trigger] r@[b])@,
{
    let mut r: Vec<String> = Vec::new();
    let mut g: usize = 0;
    while g < groups.len()
        invariant
            g <= groups@.len(),
            forall|a: int, b: int| 0 <= a < b < r@.len() ==> (#[trigger] r@[a])@ != (#[trigger] r@[b])@,
            forall|k: Seq<char>|
                str_views(r@).contains(k) <==> exists|h: int, i: int|
                    0 <= h < g && 0 <= i < groups@[h]@.len() && #[trigger] groups@[h]@[i]@ == k,
        decreases groups@.len() - g,
    {
        let inputs = &groups[g];
        let mut i: usize = 0;
        while i < inputs.len()
            invariant
                g < groups@.len(),
                inputs == groups@[g as int],
                i <= inputs@.len(),
                forall|a: int, b: int| 0 <= a < b < r@.len() ==> (#[trigger] r@[a])@ != (#[trigger] r@[b])@,
                forall|k: Seq<char>|
                    str_views(r@).contains(k) <==> (exists|h: int, j: int|
                        0 <= h < g && 0 <= j < groups@[h]@.len() && #[trigger] groups@[h]@[j]@ == k)
                        || (exists|j: int| 0 <= j < i && #[trigger] inputs@[j]@ == k),
            decreases inputs@.len() - i,
        {
            let key = &inputs[i];
            let mut found = false;
            let mut k: usize = 0;
            while k < r.len()
                invariant
                    k <= r@.len(),
                    found == exists|m: int| 0 <= m < k && (#[trigger] r@[m])@ == key@,
                decreases r@.len() - k,
            {
                if str_equals(r[k].as_str(), key.as_str()) {
                    found = true;
                }
                k = k + 1;
            }
            let ghost old_r = r@;
            if !found {
                r.push(key.clone());
            }
            proof {
                assert(inputs@[i as int] == *key);
                assert forall|kk: Seq<char>|
                    str_views(r@).contains(kk) <==> (exists|h: int, j: int|
                        0 <= h < g && 0 <= j < groups@[h]@.len() && #[trigger] groups@[h]@[j]@ == kk)
                        || (exists|j: int| 0 <= j < i + 1 && #[trigger] inputs@[j]@ == kk) by {
                    if str_views(r@).contains(kk) {
                        let w = choose|w: int| 0 <= w < str_views(r@).len() && str_views(r@)[w] == kk;
                        if w < old_r.len() {
                            assert(r@[w] == old_r[w]);
                            assert(str_views(old_r)[w] == kk);
                            assert(str_views(old_r).contains(kk));
                        } else {
                            assert(inputs@[i as int]@ == kk);
                        }
                    }
                    if exists|j: int| 0 <= j < i + 1 && #[trigger] inputs@[j]@ == kk {
                        let j = choose|j: int| 0 <= j < i + 1 && #[trigger] inputs@[j]@ == kk;
                        if j == i {
                            if found {
                                let m = choose|m: int| 0 <= m < old_r.len() && (#[trigger] old_r[m])@ == key@;
                                assert(r@ == old_r);
                                assert(str_views(r@)[m] == kk);
                            } else {
                                assert(str_views(r@)[old_r.len() as int] == kk);
                            }
                        } else {
                            assert(str_views(old_r).contains(kk));
                            let w = choose|w: int| 0 <= w < str_views(old_r).len() && str_views(old_r)[w] == kk;
                            assert(r@[w] == old_r[w]);
                            assert(str_views(r@)[w] == kk);
                        }
                    }
                    if exists|h: int, j: int|
                        0 <= h < g && 0 <= j < groups@[h]@.len() && #[trigger] groups@[h]@[j]@ == kk {
                        assert(str_views(old_r).contains(kk));
                        let w = choose|w: int| 0 <= w < str_views(old_r).len() && str_views(old_r)[w] == kk;
                        assert(r@[w] == old_r[w]);
                        assert(str_views(r@)[w] == kk);
                    }
                }
            }
            i = i + 1;
        }
        proof {
            assert forall|kk: Seq<char>|
                str_views(r@).contains(kk) <==> exists|h: int, j: int|
                    0 <= h < g + 1 && 0 <= j < groups@[h]@.len() && #[trigger] groups@[h]@[j]@ == kk by {
                if exists|h: int, j: int|
                    0 <= h < g + 1 && 0 <= j < groups@[h]@.len() && #[trigger] groups@[h]@[j]@ == kk {
                    let (h, j) = choose|h: int, j: int|
                        0 <= h < g + 1 && 0 <= j < groups@[h]@.len() && #[trigger] groups@[h]@[j]@ == kk;
                    if h == g {
                        assert(inputs@[j]@ == kk);
                    }
                }
            }
        }
        g = g + 1;
    }
    r
}

} // verus!
