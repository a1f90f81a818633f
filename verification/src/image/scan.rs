//! Integer raster helpers: mask bounding boxes, runs of non-zero samples,
//! dot-width trimming and image sampling.
use vstd::prelude::*;

verus! {

/// `[s, e)` is a maximal run of samples that satisfy `on` (non-zero when
/// `on` is true, zero when it is false).
pub open spec fn is_run(v: Seq<u8>, s: int, e: int, on: bool) -> bool {
    &&& 0 <= s < e <= v.len()
    &&& forall|i: int| s <= i < e ==> (#[trigger] v[i] != 0) == on
    &&& s == 0 || (v[s - 1] != 0) != on
    &&& e == v.len() || (v[e] != 0) != on
}

/// `rs` lists, in increasing order, exactly the maximal runs of samples of
/// `v` that satisfy `on`.
pub open spec fn runs_of(v: Seq<u8>, rs: Seq<(usize, usize)>, on: bool) -> bool {
    &&& forall|k: int| 0 <= k < rs.len() ==> is_run(v, #[trigger] rs[k].0 as int, rs[k].1 as int, on)
    &&& forall|k: int| 0 <= k < rs.len() - 1 ==> #[trigger] rs[k].1 < rs[k + 1].0
    &&& forall|i: int|
        0 <= i < v.len() && (#[trigger] v[i] != 0) == on ==> exists|k: int|
            0 <= k < rs.len() && (#[trigger] rs[k]).0 <= i < rs[k].1
}

/// The runs of `v` whose samples satisfy `on`, scanned left to right.
fn runs(values: &[u8], on: bool) -> (r: Vec<(usize, usize)>)
    ensures
        runs_of(values@, r@, on),
{
    let n = values.len();
    let mut segments: Vec<(usize, usize)> = Vec::new();
    let mut i: usize = 0;
    while i < n
        invariant
            n == values@.len(),
            i <= n,
            forall|k: int|
                0 <= k < segments@.len() ==> is_run(
                    values@,
                    #[trigger] segments@[k].0 as int,
                    segments@[k].1 as int,
                    on,
                ),
            forall|k: int| 0 <= k < segments@.len() - 1 ==> #[trigger] segments@[k].1 < segments@[k + 1].0,
            segments@.len() > 0 ==> segments@.last().1 <= i,
            i > 0 && i < n ==> (segments@.len() > 0 && segments@.last().1 == i) || (values@[i - 1] != 0) != on,
            i == n && segments@.len() > 0 ==> segments@.last().1 <= n,
            forall|j: int|
                0 <= j < i && (#[trigger] values@[j] != 0) == on ==> exists|k: int|
                    0 <= k < segments@.len() && (#[trigger] segments@[k]).0 <= j < segments@[k].1,
        decreases n - i,
    {
        if (values[i] != 0) == on {
            let start = i;
            proof {
                if i > 0 {
                    assert((values@[i - 1] != 0) != on || (segments@.len() > 0 && segments@.last().1 == i));
                    if segments@.len() > 0 && segments@.last().1 == i {
                        let k = segments@.len() - 1;
                        assert(is_run(values@, segments@[k].0 as int, segments@[k].1 as int, on));
                    }
                }
            }
            while i < n && (values[i] != 0) == on
                invariant
                    n == values@.len(),
                    start < i <= n || start == i,
                    start <= i <= n,
                    forall|j: int| start <= j < i ==> (#[trigger] values@[j] != 0) == on,
                decreases n - i,
            {
                i = i + 1;
            }
            let ghost old_segs = segments@;
            segments.push((start, i));
            proof {
                assert(start < i);
                assert(is_run(values@, start as int, i as int, on));
                assert forall|k: int|
                    0 <= k < segments@.len() implies is_run(
                    values@,
                    #[trigger] segments@[k].0 as int,
                    segments@[k].1 as int,
                    on,
                ) by {
                    if k < old_segs.len() {
                        assert(segments@[k] == old_segs[k]);
                    }
                }
                assert forall|k: int| 0 <= k < segments@.len() - 1 implies #[trigger] segments@[k].1
                    < segments@[k + 1].0 by {
                    if k + 1 < old_segs.len() {
                        assert(segments@[k] == old_segs[k]);
                        assert(segments@[k + 1] == old_segs[k + 1]);
                    } else {
                        assert(segments@[k] == old_segs[k]);
                        assert(old_segs.last().1 <= start);
                        if old_segs.last().1 == start {
                            assert(is_run(values@, old_segs[k].0 as int, old_segs[k].1 as int, on));
                            assert(start < n);
                            assert((values@[start as int] != 0) == on);
                        }
                    }
                }
                assert forall|j: int|
                    0 <= j < i && (#[trigger] values@[j] != 0) == on implies exists|k: int|
                        0 <= k < segments@.len() && (#[trigger] segments@[k]).0 <= j < segments@[k].1 by {
                    if j < start {
                        let k = choose|k: int| 0 <= k < old_segs.len() && (#[trigger] old_segs[k]).0 <= j < old_segs[k].1;
                        assert(segments@[k] == old_segs[k]);
                    } else {
                        assert(segments@[segments@.len() - 1] == (start, i));
                    }
                }
            }
        } else {
            i = i + 1;
        }
    }
    segments
}

/// The maximal runs of non-zero samples, as half-open index ranges
/// `[start, end)` in increasing order.
pub fn find_segments(values: &[u8]) -> (r: Vec<(usize, usize)>)
    ensures
        runs_of(values@, r@, true),
{
    runs(values, true)
}

/// The maximal runs of zero samples, as half-open index ranges
/// `[start, end)` in increasing order.
pub fn find_zero_runs(values: &[u8]) -> (r: Vec<(usize, usize)>)
    ensures
        runs_of(values@, r@, false),
{
    runs(values, false)
}

/// The first index of the run of non-zero samples that contains `i`.
pub open spec fn run_start(v: Seq<u8>, i: int) -> int
    decreases i,
{
    if i > 0 && v[i - 1] != 0 {
        run_start(v, i - 1)
    } else {
        i
    }
}

/// One past the last index of the run of non-zero samples that contains `i`.
pub open spec fn run_end(v: Seq<u8>, i: int) -> int
    decreases v.len() - i,
{
    if i + 1 < v.len() && v[i + 1] != 0 {
        run_end(v, i + 1)
    } else {
        i + 1
    }
}

/// The sample at `i` after trimming `t` samples off each end of every
/// run of non-zero samples; a run no longer than `2 * t` is cleared.
pub open spec fn trimmed_value(v: Seq<u8>, t: int, i: int) -> u8 {
    if t == 0 || v[i] == 0 {
        v[i]
    } else {
        let s = run_start(v, i);
        let e = run_end(v, i);
        if e - s <= 2 * t || i < s + t || i >= e - t {
            0
        } else {
            v[i]
        }
    }
}

proof fn lemma_run_bounds(v: Seq<u8>, s: int, e: int, i: int)
    requires
        is_run(v, s, e, true),
        s <= i < e,
    ensures
        run_start(v, i) == s,
        run_end(v, i) == e,
{
    lemma_run_start(v, s, e, i);
    lemma_run_end(v, s, e, i);
}

proof fn lemma_run_start(v: Seq<u8>, s: int, e: int, i: int)
    requires
        is_run(v, s, e, true),
        s <= i < e,
    ensures
        run_start(v, i) == s,
    decreases i - s,
{
    if i > s {
        assert(v[i - 1] != 0);
        lemma_run_start(v, s, e, i - 1);
    }
}

proof fn lemma_run_end(v: Seq<u8>, s: int, e: int, i: int)
    requires
        is_run(v, s, e, true),
        s <= i < e,
    ensures
        run_end(v, i) == e,
    decreases e - i,
{
    if i + 1 < e {
        assert(v[i + 1] != 0);
        lemma_run_end(v, s, e, i + 1);
    }
}

/// After trimming the first `k` runs, every sample before the start of
/// run `k` holds its trimmed value and every later sample is untouched.
#[verifier::opaque]
spec fn trim_progress(cur: Seq<u8>, orig: Seq<u8>, segs: Seq<(usize, usize)>, k: int, t: int) -> bool {
    &&& cur.len() == orig.len()
    &&& forall|i: int|
        0 <= i < orig.len() ==> #[trigger] cur[i] == if k < segs.len() && i >= segs[k].0 {
            orig[i]
        } else {
            trimmed_value(orig, t, i)
        }
}

/// Whether trimming the run `[s, e)` by `t` clears the sample at `i`.
spec fn zeroed(s: int, e: int, t: int, i: int) -> bool {
    if e - s <= 2 * t {
        s <= i < e
    } else {
        (s <= i < s + t) || (e - t <= i < e)
    }
}

proof fn lemma_trim_start(orig: Seq<u8>, segs: Seq<(usize, usize)>, t: int)
    requires
        runs_of(orig, segs, true),
    ensures
        trim_progress(orig, orig, segs, 0, t),
{
    reveal(trim_progress);
    assert forall|i: int| 0 <= i < orig.len() implies #[trigger] orig[i] == if 0 < segs.len() && i
        >= segs[0].0 {
        orig[i]
    } else {
        trimmed_value(orig, t, i)
    } by {
        if !(0 < segs.len() && i >= segs[0].0) {
            if orig[i] != 0 {
                let q = choose|q: int| 0 <= q < segs.len() && (#[trigger] segs[q]).0 <= i < segs[q].1;
                if q > 0 {
                    lemma_runs_ordered(orig, segs, 0, q);
                }
            }
        }
    }
}

proof fn lemma_trim_done(cur: Seq<u8>, orig: Seq<u8>, segs: Seq<(usize, usize)>, t: int)
    requires
        trim_progress(cur, orig, segs, segs.len() as int, t),
    ensures
        cur.len() == orig.len(),
        forall|i: int| 0 <= i < orig.len() ==> #[trigger] cur[i] == trimmed_value(orig, t, i),
{
    reveal(trim_progress);
}

/// The value of the sample at `i` once the run `[s, e)` has been trimmed
/// by `t` at each end.
spec fn trim_in_run(orig: Seq<u8>, s: int, e: int, t: int, i: int) -> u8 {
    if e - s <= 2 * t || i < s + t || i >= e - t {
        0
    } else {
        orig[i]
    }
}

proof fn lemma_trim_step(
    before: Seq<u8>,
    after: Seq<u8>,
    orig: Seq<u8>,
    segs: Seq<(usize, usize)>,
    k: int,
    t: int,
)
    requires
        t > 0,
        runs_of(orig, segs, true),
        0 <= k < segs.len(),
        trim_progress(before, orig, segs, k, t),
        after.len() == before.len(),
        forall|i: int|
            0 <= i < after.len() ==> #[trigger] after[i] == if zeroed(
                segs[k].0 as int,
                segs[k].1 as int,
                t,
                i,
            ) {
                0
            } else {
                before[i]
            },
    ensures
        trim_progress(after, orig, segs, k + 1, t),
{
    reveal(trim_progress);
    let start = segs[k].0 as int;
    let end = segs[k].1 as int;
    assert(is_run(orig, start, end, true));
    assert forall|i: int| 0 <= i < after.len() implies #[trigger] after[i] == if start <= i < end {
        trim_in_run(orig, start, end, t, i)
    } else {
        before[i]
    } by {
        if start <= i < end {
            assert(before[i] == orig[i]);
        }
    }
    assert forall|i: int| 0 <= i < orig.len() implies #[trigger] after[i] == if k + 1 < segs.len() && i
        >= segs[k + 1].0 {
        orig[i]
    } else {
        trimmed_value(orig, t, i)
    } by {
        if start <= i < end {
            lemma_run_bounds(orig, start, end, i);
        } else if i >= end {
            if k + 1 < segs.len() {
                lemma_runs_ordered(orig, segs, k, k + 1);
            }
            if !(k + 1 < segs.len() && i >= segs[k + 1].0) {
                assert(orig[i] == 0) by {
                    if orig[i] != 0 {
                        let q = choose|q: int| 0 <= q < segs.len() && (#[trigger] segs[q]).0 <= i < segs[q].1;
                        if q < k {
                            lemma_runs_ordered(orig, segs, q, k);
                        } else if q > k + 1 {
                            lemma_runs_ordered(orig, segs, k + 1, q);
                            assert(is_run(orig, segs[k + 1].0 as int, segs[k + 1].1 as int, true));
                        } else if q == k + 1 {
                        } else {
                        }
                    }
                }
            }
        } else {
            assert(i < start);
        }
    }
}

fn zero_range(values: &mut [u8], lo: usize, hi: usize)
    requires
        lo <= hi <= old(values)@.len(),
    ensures
        final(values)@.len() == old(values)@.len(),
        forall|i: int|
            0 <= i < old(values)@.len() ==> #[trigger] final(values)@[i] == if lo <= i < hi {
                0
            } else {
                old(values)@[i]
            },
{
    let mut j = lo;
    while j < hi
        invariant
            lo <= j <= hi <= values@.len(),
            values@.len() == old(values)@.len(),
            forall|i: int|
                0 <= i < values@.len() ==> #[trigger] values@[i] == if lo <= i < j {
                    0
                } else {
                    old(values)@[i]
                },
        decreases hi - j,
    {
        values[j] = 0;
        j = j + 1;
    }
}

/// Zero `trim_px` samples at each end of every run of non-zero samples,
/// clearing runs no longer than `2 * trim_px` entirely. This shortens the
/// firing time of each run without moving its geometry.
pub fn apply_dot_width_trim(values: &mut [u8], trim_px: usize)
    requires
        trim_px <= usize::MAX / 2,
    ensures
        final(values)@.len() == old(values)@.len(),
        forall|i: int|
            0 <= i < old(values)@.len() ==> #[trigger] final(values)@[i] == trimmed_value(
                old(values)@,
                trim_px as int,
                i,
            ),
{
    if trim_px == 0 {
        return;
    }
    let ghost orig = values@;
    let segs = find_segments(values);
    let mut k: usize = 0;
    proof {
        lemma_trim_start(orig, segs@, trim_px as int);
    }
    while k < segs.len()
        invariant
            orig == old(values)@,
            trim_px > 0,
            trim_px <= usize::MAX / 2,
            runs_of(orig, segs@, true),
            k <= segs@.len(),
            values@.len() == orig.len(),
            trim_progress(values@, orig, segs@, k as int, trim_px as int),
        decreases segs.len() - k,
    {
        let (start, end) = segs[k];
        proof {
            assert(is_run(orig, segs@[k as int].0 as int, segs@[k as int].1 as int, true));
        }
        let ghost before = values@;
        let len = end - start;
        if len <= trim_px * 2 {
            zero_range(values, start, end);
        } else {
            zero_range(values, start, start + trim_px);
            zero_range(values, end - trim_px, end);
        }
        proof {
            lemma_trim_step(before, values@, orig, segs@, k as int, trim_px as int);
        }
        k = k + 1;
    }
    proof {
        lemma_trim_done(values@, orig, segs@, trim_px as int);
    }
}

/// In a run list, a later run starts after an earlier one ends.
proof fn lemma_runs_ordered(v: Seq<u8>, rs: Seq<(usize, usize)>, a: int, b: int)
    requires
        runs_of(v, rs, true),
        0 <= a < b < rs.len(),
    ensures
        rs[a].1 < rs[b].0,
        rs[a].0 < rs[a].1,
    decreases b - a,
{
    assert(is_run(v, rs[b - 1].0 as int, rs[b - 1].1 as int, true));
    assert(is_run(v, rs[a].0 as int, rs[a].1 as int, true));
    assert(rs[b - 1].1 < rs[b].0);
    if a < b - 1 {
        lemma_runs_ordered(v, rs, a, b - 1);
    }
}

/// Trimming only ever clears samples: each sample keeps its value or
/// becomes zero, zero samples stay zero, and a trim of zero changes nothing.
pub proof fn lemma_trim_only_clears(v: Seq<u8>, t: int, i: int)
    requires
        0 <= i < v.len(),
        t >= 0,
    ensures
        trimmed_value(v, t, i) == v[i] || trimmed_value(v, t, i) == 0,
        v[i] == 0 ==> trimmed_value(v, t, i) == 0,
        t == 0 ==> trimmed_value(v, t, i) == v[i],
{
}

/// A sample of a run longer than `2 * t` that lies at least `t` samples
/// away from both ends of its run keeps its value.
pub proof fn lemma_trim_keeps_interior(v: Seq<u8>, s: int, e: int, t: int, i: int)
    requires
        is_run(v, s, e, true),
        t > 0,
        e - s > 2 * t,
        s + t <= i < e - t,
    ensures
        trimmed_value(v, t, i) == v[i],
        v[i] != 0,
{
    lemma_run_bounds(v, s, e, i);
}

/// The pixel at `(x, y)` of a row-major `height` x `width` image, or zero
/// when `(x, y)` lies outside the image.
pub open spec fn pixel_at(image: Seq<u8>, height: int, width: int, x: int, y: int) -> u8 {
    if 0 <= x < width && 0 <= y < height {
        image[y * width + x]
    } else {
        0
    }
}

proof fn lemma_index_in_bounds(height: int, width: int, x: int, y: int)
    requires
        0 <= x < width,
        0 <= y < height,
    ensures
        0 <= y * width + x < height * width,
        y * width + x <= (height - 1) * width + (width - 1),
{
    assert(y * width <= (height - 1) * width) by (nonlinear_arith)
        requires
            0 <= y <= height - 1,
            width >= 0,
    ;
    assert((height - 1) * width + width == height * width) by (nonlinear_arith);
    assert(0 <= y * width) by (nonlinear_arith)
        requires
            0 <= y,
            width >= 0,
    ;
}

/// Sample a row-major `height` x `width` image at `(x, y)`; pixels outside
/// the image read as zero.
pub fn sample_image(image: &[u8], height: usize, width: usize, x: i32, y: i32) -> (r: u8)
    requires
        image@.len() >= height * width,
    ensures
        r == pixel_at(image@, height as int, width as int, x as int, y as int),
{
    if x >= 0 && (x as usize) < width && y >= 0 && (y as usize) < height {
        let yu = y as usize;
        let xu = x as usize;
        proof {
            lemma_index_in_bounds(height as int, width as int, xu as int, yu as int);
        }
        let _len = image.len();
        image[yu * width + xu]
    } else {
        0
    }
}

/// Sample a row-major mask at each of `pixels`, in order.
pub fn sample_mask_along_line(mask: &[u8], height: usize, width: usize, pixels: &[(i32, i32)]) -> (r:
    Vec<u8>)
    requires
        mask@.len() >= height * width,
    ensures
        r@.len() == pixels@.len(),
        forall|k: int|
            0 <= k < pixels@.len() ==> #[trigger] r@[k] == pixel_at(
                mask@,
                height as int,
                width as int,
                pixels@[k].0 as int,
                pixels@[k].1 as int,
            ),
{
    let mut values: Vec<u8> = Vec::new();
    let mut k: usize = 0;
    while k < pixels.len()
        invariant
            mask@.len() >= height * width,
            k <= pixels@.len(),
            values@.len() == k,
            forall|j: int|
                0 <= j < k ==> #[trigger] values@[j] == pixel_at(
                    mask@,
                    height as int,
                    width as int,
                    pixels@[j].0 as int,
                    pixels@[j].1 as int,
                ),
        decreases pixels.len() - k,
    {
        let (px, py) = pixels[k];
        values.push(sample_image(mask, height, width, px, py));
        k = k + 1;
    }
    values
}

/// Whether the mask pixel at `(x, y)` is set.
pub open spec fn mask_set(mask: Seq<u8>, width: int, x: int, y: int) -> bool {
    mask[y * width + x] != 0
}

/// A `(y_min, y_max, x_min, x_max)` box, all bounds inclusive.
pub type BoundingBox = (i32, i32, i32, i32);

/// `b` is the tightest box around the set pixels of a mask that has at
/// least one set pixel.
pub open spec fn is_mask_bbox(mask: Seq<u8>, height: int, width: int, b: BoundingBox) -> bool {
    &&& 0 <= b.0 <= b.1 < height
    &&& 0 <= b.2 <= b.3 < width
    &&& forall|y: int, x: int|
        0 <= y < height && 0 <= x < width && #[trigger] mask_set(mask, width, x, y) ==> b.0 <= y <= b.1
            && b.2 <= x <= b.3
    &&& exists|x: int| 0 <= x < width && #[trigger] mask_set(mask, width, x, b.0 as int)
    &&& exists|x: int| 0 <= x < width && #[trigger] mask_set(mask, width, x, b.1 as int)
    &&& exists|y: int| 0 <= y < height && #[trigger] mask_set(mask, width, b.2 as int, y)
    &&& exists|y: int| 0 <= y < height && #[trigger] mask_set(mask, width, b.3 as int, y)
}

/// The tightest `(y_min, y_max, x_min, x_max)` box around the non-zero
/// pixels of a row-major `height` x `width` mask; `None` when no pixel is
/// set.
pub fn find_mask_bounding_box(mask: &[u8], height: usize, width: usize) -> (r: Option<BoundingBox>)
    requires
        mask@.len() >= height * width,
        height <= i32::MAX,
        width <= i32::MAX,
    ensures
        match r {
            Some(b) => is_mask_bbox(mask@, height as int, width as int, b),
            None => forall|y: int, x: int|
                0 <= y < height && 0 <= x < width ==> !#[trigger] mask_set(mask@, width as int, x, y),
        },
{
    let mut y_min: i32 = i32::MAX;
    let mut y_max: i32 = i32::MIN;
    let mut x_min: i32 = i32::MAX;
    let mut x_max: i32 = i32::MIN;
    let mut found = false;
    let ghost mut wy0: int = 0;
    let ghost mut wx0: int = 0;
    let ghost mut wy1: int = 0;
    let ghost mut wx1: int = 0;
    let mut y: usize = 0;
    while y < height
        invariant
            mask@.len() >= height * width,
            height <= i32::MAX,
            width <= i32::MAX,
            y <= height,
            !found ==> forall|yy: int, xx: int|
                0 <= yy < y && 0 <= xx < width ==> !#[trigger] mask_set(mask@, width as int, xx, yy),
            found ==> {
                &&& 0 <= y_min <= y_max < y
                &&& 0 <= x_min <= x_max < width
                &&& forall|yy: int, xx: int|
                    0 <= yy < y && 0 <= xx < width && #[trigger] mask_set(mask@, width as int, xx, yy)
                        ==> y_min <= yy <= y_max && x_min <= xx <= x_max
                &&& 0 <= wx0 < width && mask_set(mask@, width as int, wx0, y_min as int)
                &&& 0 <= wx1 < width && mask_set(mask@, width as int, wx1, y_max as int)
                &&& 0 <= wy0 < height && mask_set(mask@, width as int, x_min as int, wy0)
                &&& 0 <= wy1 < height && mask_set(mask@, width as int, x_max as int, wy1)
            },
        decreases height - y,
    {
        let mut x: usize = 0;
        while x < width
            invariant
                mask@.len() >= height * width,
                height <= i32::MAX,
                width <= i32::MAX,
                y < height,
                x <= width,
                !found ==> forall|yy: int, xx: int|
                    0 <= yy < height && 0 <= xx < width && (yy < y || (yy == y && xx < x))
                        ==> !#[trigger] mask_set(mask@, width as int, xx, yy),
                found ==> {
                    &&& 0 <= y_min <= y_max <= y
                    &&& 0 <= x_min <= x_max < width
                    &&& forall|yy: int, xx: int|
                        0 <= yy < height && 0 <= xx < width && (yy < y || (yy == y && xx < x))
                            && #[trigger] mask_set(mask@, width as int, xx, yy) ==> y_min <= yy
                            <= y_max && x_min <= xx <= x_max
                    &&& 0 <= wx0 < width && mask_set(mask@, width as int, wx0, y_min as int)
                    &&& 0 <= wx1 < width && mask_set(mask@, width as int, wx1, y_max as int)
                    &&& 0 <= wy0 < height && mask_set(mask@, width as int, x_min as int, wy0)
                    &&& 0 <= wy1 < height && mask_set(mask@, width as int, x_max as int, wy1)
                },
            decreases width - x,
        {
            proof {
                lemma_index_in_bounds(height as int, width as int, x as int, y as int);
            }
            let _len = mask.len();
            if mask[y * width + x] != 0 {
                let yi = y as i32;
                let xi = x as i32;
                if !found {
                    y_min = yi;
                    y_max = yi;
                    x_min = xi;
                    x_max = xi;
                    proof {
                        wx0 = x as int;
                        wx1 = x as int;
                        wy0 = y as int;
                        wy1 = y as int;
                    }
                } else {
                    if yi < y_min {
                        y_min = yi;
                        proof {
                            wx0 = x as int;
                        }
                    }
                    if yi > y_max {
                        y_max = yi;
                        proof {
                            wx1 = x as int;
                        }
                    }
                    if xi < x_min {
                        x_min = xi;
                        proof {
                            wy0 = y as int;
                        }
                    }
                    if xi > x_max {
                        x_max = xi;
                        proof {
                            wy1 = y as int;
                        }
                    }
                }
                found = true;
            }
            x = x + 1;
        }
        y = y + 1;
    }
    if found {
        proof {
            assert(mask_set(mask@, width as int, wx0, y_min as int));
            assert(mask_set(mask@, width as int, wx1, y_max as int));
            assert(mask_set(mask@, width as int, x_min as int, wy0));
            assert(mask_set(mask@, width as int, x_max as int, wy1));
            assert(exists|x: int| 0 <= x < width && #[trigger] mask_set(mask@, width as int, x, y_min as int));
            assert(exists|x: int| 0 <= x < width && #[trigger] mask_set(mask@, width as int, x, y_max as int));
            assert(exists|y: int| 0 <= y < height && #[trigger] mask_set(mask@, width as int, x_min as int, y));
            assert(exists|y: int| 0 <= y < height && #[trigger] mask_set(mask@, width as int, x_max as int, y));
            assert(0 <= y_min <= y_max < height);
            assert(0 <= x_min <= x_max < width);
            assert(forall|yy: int, xx: int|
                0 <= yy < height && 0 <= xx < width && #[trigger] mask_set(mask@, width as int, xx, yy)
                    ==> y_min <= yy <= y_max && x_min <= xx <= x_max);
        }
        let b: BoundingBox = (y_min, y_max, x_min, x_max);
        assert(b.0 == y_min && b.1 == y_max && b.2 == x_min && b.3 == x_max);
        assert(is_mask_bbox(mask@, height as int, width as int, b));
        Some(b)
    } else {
        None
    }
}

} // verus!
