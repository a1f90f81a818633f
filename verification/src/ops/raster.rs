//! The integer decisions of raster conversion: scan direction, the order
//! of firing segments, full-sweep power arrays and depth-pass masks.
use vstd::prelude::*;

use crate::image::scan::{apply_dot_width_trim, find_segments, runs_of, trimmed_value};

verus! {

/// How a raster line is traversed.
#[derive(Clone, Copy, Debug, PartialEq, Eq, Structural)]
pub enum ScanMode {
    /// Only the firing segments of each line are traversed.
    Segmented,
    /// Each line is traversed end to end.
    FullSweep,
}

/// Whether scan line `scan_line_index` runs backwards: with bidirectional
/// scanning every odd-numbered line is reversed.
pub fn is_reversed(scan_line_index: i64, bidirectional: bool) -> (r: bool)
    ensures
        r == (bidirectional && (scan_line_index as int) % 2 != 0),
{
    bidirectional && (scan_line_index % 2) != 0
}

/// The firing segments (maximal runs of non-zero samples) of a line in
/// the order they are cut: left to right, or right to left when `rev`.
pub fn ordered_segments(values: &[u8], rev: bool) -> (r: Vec<(usize, usize)>)
    ensures
        runs_of(values@, if rev { r@.reverse() } else { r@ }, true),
{
    let segs = find_segments(values);
    if !rev {
        return segs;
    }
    let mut out: Vec<(usize, usize)> = Vec::new();
    let mut k = segs.len();
    while k > 0
        invariant
            k <= segs@.len(),
            out@ == segs@.subrange(k as int, segs@.len() as int).reverse(),
        decreases k,
    {
        k = k - 1;
        out.push(segs[k]);
        assert(segs@.subrange(k as int, segs@.len() as int).reverse() =~= segs@.subrange(
            k + 1,
            segs@.len() as int,
        ).reverse().push(segs@[k as int]));
    }
    assert(out@.reverse() =~= segs@) by {
        assert(segs@.subrange(0, segs@.len() as int) =~= segs@);
    }
    out
}

/// The samples of `values` with every non-zero sample replaced by `on`.
pub open spec fn binarize(values: Seq<u8>, on: u8) -> Seq<u8> {
    Seq::new(values.len(), |i: int| if values[i] > 0 { on } else { 0u8 })
}

/// The power array of a full-sweep mask line: every set sample fires at
/// `power_byte`, each firing run is trimmed by `trim_px` at both ends, and
/// the array is reversed when the line runs backwards.
pub fn full_sweep_power(values: &[u8], power_byte: u8, trim_px: usize, rev: bool) -> (r: Vec<u8>)
    requires
        trim_px <= usize::MAX / 2,
    ensures
        r@.len() == values@.len(),
        forall|k: int|
            0 <= k < values@.len() ==> #[trigger] r@[k] == trimmed_value(
                binarize(values@, power_byte),
                trim_px as int,
                if rev {
                    values@.len() - 1 - k
                } else {
                    k
                },
            ),
{
    let n = values.len();
    let mut power: Vec<u8> = Vec::new();
    let mut i: usize = 0;
    while i < n
        invariant
            n == values@.len(),
            i <= n,
            power@ == binarize(values@, power_byte).subrange(0, i as int),
        decreases n - i,
    {
        power.push(if values[i] > 0 {
            power_byte
        } else {
            0
        });
        i = i + 1;
        assert(power@ =~= binarize(values@, power_byte).subrange(0, i as int));
    }
    assert(power@ =~= binarize(values@, power_byte));
    let ghost mapped = power@;
    apply_dot_width_trim(power.as_mut_slice(), trim_px);
    if !rev {
        return power;
    }
    let mut out: Vec<u8> = Vec::new();
    let mut k = n;
    while k > 0
        invariant
            k <= n,
            power@.len() == n,
            out@.len() == n - k,
            forall|j: int| 0 <= j < out@.len() ==> #[trigger] out@[j] == power@[n - 1 - j],
        decreases k,
    {
        k = k - 1;
        out.push(power[k]);
    }
    out
}

/// The mask of one depth pass: a pixel is set when its pass level reaches
/// `pass_level`. Also tells whether any pixel is set.
pub fn pass_mask(pass_map: &[i32], pixel_count: usize, pass_level: i32) -> (r: (Vec<u8>, bool))
    requires
        pixel_count <= pass_map@.len(),
    ensures
        r.0@.len() == pixel_count,
        forall|i: int|
            0 <= i < pixel_count ==> #[trigger] r.0@[i] == if pass_map@[i] >= pass_level {
                1u8
            } else {
                0u8
            },
        r.1 == exists|i: int| 0 <= i < pixel_count && #[trigger] pass_map@[i] >= pass_level,
{
    let mut mask: Vec<u8> = Vec::new();
    let mut has_content = false;
    let mut i: usize = 0;
    while i < pixel_count
        invariant
            pixel_count <= pass_map@.len(),
            i <= pixel_count,
            mask@.len() == i,
            forall|j: int|
                0 <= j < i ==> #[trigger] mask@[j] == if pass_map@[j] >= pass_level {
                    1u8
                } else {
                    0u8
                },
            has_content == exists|j: int| 0 <= j < i && #[trigger] pass_map@[j] >= pass_level,
        decreases pixel_count - i,
    {
        if pass_map[i] >= pass_level {
            mask.push(1);
            has_content = true;
        } else {
            mask.push(0);
        }
        i = i + 1;
    }
    (mask, has_content)
}

} // verus!
