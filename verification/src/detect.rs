//! The change detector: decides whether two raster images represent a changed
//! screen, by comparing a stride-2 sample of their pixels under a per-channel
//! tolerance and a minimum-share-of-pixels threshold.

use vstd::prelude::*;

use crate::raster::{ImageModel, Pixel, RasterImage};

verus! {

/// The absolute difference of two channel bytes.
pub open spec fn channel_diff(a: u8, b: u8) -> int {
    if a >= b {
        a - b
    } else {
        b - a
    }
}

/// Two pixels differ when any one of red, green or blue differs by strictly
/// more than the threshold; alpha is ignored.
pub open spec fn pixels_differ_spec(a: Pixel, b: Pixel, threshold: u8) -> bool {
    ||| channel_diff(a.r, b.r) > threshold
    ||| channel_diff(a.g, b.g) > threshold
    ||| channel_diff(a.b, b.b) > threshold
}

/// Whether two pixels differ beyond the per-channel threshold.
pub fn pixels_differ(a: Pixel, b: Pixel, threshold: u8) -> (r: bool)
    ensures
        r == pixels_differ_spec(a, b, threshold),
{
    let dr = if a.r >= b.r { a.r - b.r } else { b.r - a.r };
    let dg = if a.g >= b.g { a.g - b.g } else { b.g - a.g };
    let db = if a.b >= b.b { a.b - b.b } else { b.b - a.b };
    dr > threshold || dg > threshold || db > threshold
}

/// How many points a stride-2 walk visits along an axis of length `n`: the
/// even coordinates below `n`.
pub open spec fn sampled(n: int) -> int {
    (n + 1) / 2
}

/// Differing samples in row `y`, among the first `i` sampled columns
/// (columns 0, 2, ..., 2 * (i - 1)).
pub open spec fn row_diff_count(prev: ImageModel, cur: ImageModel, threshold: u8, y: int, i: int) -> int
    decreases i,
{
    if i <= 0 {
        0
    } else {
        row_diff_count(prev, cur, threshold, y, i - 1) + if pixels_differ_spec(
            prev.pixel_at(2 * (i - 1), y),
            cur.pixel_at(2 * (i - 1), y),
            threshold,
        ) {
            1int
        } else {
            0int
        }
    }
}

/// Differing samples in the first `j` sampled rows (rows 0, 2, ..., 2 * (j - 1)),
/// each row walked over all its sampled columns.
pub open spec fn grid_diff_count(prev: ImageModel, cur: ImageModel, threshold: u8, j: int) -> int
    decreases j,
{
    if j <= 0 {
        0
    } else {
        grid_diff_count(prev, cur, threshold, j - 1) + row_diff_count(
            prev,
            cur,
            threshold,
            2 * (j - 1),
            sampled(cur.width),
        )
    }
}

/// The estimated number of differing pixels at full resolution: every sampled
/// point stands for four pixels.
pub open spec fn weighted_diff_count(prev: ImageModel, cur: ImageModel, threshold: u8) -> int {
    4 * grid_diff_count(prev, cur, threshold, sampled(cur.height))
}

/// The sampled comparison of two same-shaped images. The share of differing
/// pixels, estimated from the stride-2 sample and expressed as a percentage
/// of all pixels, reaches the change threshold; the threshold is given in
/// hundredths of a percent, so the comparison
/// `diff_percent >= threshold_percent` is taken exactly, as
/// `weighted_count * 100 * 100 >= threshold_centipercent * total`.
/// An image without pixels never counts as changed.
pub open spec fn sampled_change(
    prev: ImageModel,
    cur: ImageModel,
    diff_threshold: u8,
    change_threshold_centipercent: u32,
) -> bool {
    let total = cur.width * cur.height;
    &&& total > 0
    &&& weighted_diff_count(prev, cur, diff_threshold) * 10000 >= change_threshold_centipercent
        * total
}

/// Whether `cur` counts as changed against an optional baseline: always with
/// no baseline, always on a dimension change, and otherwise by the sampled
/// comparison.
pub open spec fn has_changed_spec(
    prev: Option<ImageModel>,
    cur: ImageModel,
    diff_threshold: u8,
    change_threshold_centipercent: u32,
) -> bool {
    match prev {
        Option::None => true,
        Option::Some(p) => {
            ||| p.width != cur.width
            ||| p.height != cur.height
            ||| sampled_change(p, cur, diff_threshold, change_threshold_centipercent)
        },
    }
}

/// The model of an optional borrowed image.
pub open spec fn opt_model(o: Option<&RasterImage>) -> Option<ImageModel> {
    match o {
        Option::None => Option::None,
        Option::Some(p) => Option::Some(p@),
    }
}

/// A row count is between 0 and the number of sampled columns walked.
proof fn lemma_row_count_bounds(prev: ImageModel, cur: ImageModel, threshold: u8, y: int, i: int)
    requires
        i >= 0,
    ensures
        0 <= row_diff_count(prev, cur, threshold, y, i) <= i,
    decreases i,
{
    if i > 0 {
        lemma_row_count_bounds(prev, cur, threshold, y, i - 1);
    }
}

/// A grid count is between 0 and the sampled rows times the sampled columns.
proof fn lemma_grid_count_bounds(prev: ImageModel, cur: ImageModel, threshold: u8, j: int)
    requires
        j >= 0,
        cur.width >= 0,
    ensures
        0 <= grid_diff_count(prev, cur, threshold, j) <= j * sampled(cur.width),
    decreases j,
{
    if j > 0 {
        lemma_grid_count_bounds(prev, cur, threshold, j - 1);
        lemma_row_count_bounds(prev, cur, threshold, 2 * (j - 1), sampled(cur.width));
        assert((j - 1) * sampled(cur.width) + sampled(cur.width) == j * sampled(cur.width))
            by (nonlinear_arith);
    }
}

/// Whether two raster images represent a changed screen: true with no
/// baseline or on a dimension change, and otherwise when the share of
/// differing sampled pixels reaches the change threshold. Pure: neither
/// image is altered.
pub fn has_changed(
    previous: Option<&RasterImage>,
    current: &RasterImage,
    diff_threshold: u8,
    change_threshold_centipercent: u32,
) -> (r: bool)
    requires
        current.wf(),
        previous matches Some(p) ==> p.wf(),
    ensures
        r == has_changed_spec(
            opt_model(previous),
            current@,
            diff_threshold,
            change_threshold_centipercent,
        ),
{
    let prev = match previous {
        Option::None => {
            return true;
        },
        Option::Some(p) => p,
    };
    if prev.width != current.width || prev.height != current.height {
        return true;
    }
    let w: u64 = current.width as u64;
    let h: u64 = current.height as u64;
    let plen: usize = current.pixels.len();
    let mut count: u64 = 0;
    let mut y: u64 = 0;
    proof {
        // A vector's length is a usize, so the pixel count is representable.
        assert(current.pixels@.len() == plen);
    }
    while y < h
        invariant
            prev.wf(),
            current.wf(),
            prev@.width == current@.width,
            prev@.height == current@.height,
            w == current.width,
            h == current.height,
            current.pixels@.len() <= usize::MAX,
            y % 2 == 0,
            y <= h + 1,
            count == grid_diff_count(prev@, current@, diff_threshold, y as int / 2),
        decreases h + 1 - y,
    {
        let ghost yi = y as int / 2;
        proof {
            lemma_grid_count_bounds(prev@, current@, diff_threshold, yi);
        }
        let mut x: u64 = 0;
        while x < w
            invariant
                prev.wf(),
                current.wf(),
                prev@.width == current@.width,
                prev@.height == current@.height,
                w == current.width,
                h == current.height,
                current.pixels@.len() <= usize::MAX,
                y % 2 == 0,
                y < h,
                yi == y as int / 2,
                x % 2 == 0,
                x <= w + 1,
                count == grid_diff_count(prev@, current@, diff_threshold, yi) + row_diff_count(
                    prev@,
                    current@,
                    diff_threshold,
                    y as int,
                    x as int / 2,
                ),
            decreases w + 1 - x,
        {
            proof {
                lemma_grid_count_bounds(prev@, current@, diff_threshold, yi);
                lemma_row_count_bounds(prev@, current@, diff_threshold, y as int, x as int / 2);
                assert(yi * sampled(w as int) + x as int / 2 < u64::MAX) by (nonlinear_arith)
                    requires
                        0 <= yi <= (h as int + 1) / 2,
                        0 <= x <= w + 1,
                        w <= u32::MAX,
                        h <= u32::MAX,
                ;
                assert((y as int) * (w as int) + (x as int) < (w as int) * (h as int))
                    by (nonlinear_arith)
                    requires
                        0 <= y < h,
                        0 <= x < w,
                ;
            }
            let idx: usize = (y as usize) * (w as usize) + (x as usize);
            let a = prev.pixels[idx];
            let b = current.pixels[idx];
            if pixels_differ(a, b, diff_threshold) {
                count += 1;
            }
            proof {
                // One more sampled column of this row has been walked.
                assert(2 * ((x as int + 2) / 2 - 1) == x as int);
            }
            x += 2;
        }
        proof {
            // The whole row is walked: x / 2 now counts every sampled column.
            assert(x as int / 2 == sampled(w as int));
            assert(2 * ((yi + 1) - 1) == y as int);
        }
        y += 2;
    }
    proof {
        assert(y as int / 2 == sampled(h as int));
    }
    proof {
        lemma_grid_count_bounds(prev@, current@, diff_threshold, sampled(h as int));
        assert(sampled(h as int) * sampled(w as int) <= 0x4000_0000_0000_0000) by (nonlinear_arith)
            requires
                w <= u32::MAX,
                h <= u32::MAX,
        ;
    }
    proof {
        assert((w as int) * (h as int) <= u64::MAX) by (nonlinear_arith)
            requires
                w <= u32::MAX,
                h <= u32::MAX,
        ;
        assert((change_threshold_centipercent as int) * ((w as int) * (h as int)) <= u128::MAX)
            by (nonlinear_arith)
            requires
                change_threshold_centipercent <= u32::MAX,
                (w as int) * (h as int) <= u64::MAX,
        ;
    }
    let total: u128 = (w as u128) * (h as u128);
    let weighted: u128 = 4 * (count as u128);
    total > 0 && weighted * 10000 >= (change_threshold_centipercent as u128) * total
}

/// An unchanged screen is never reported as changed: identical raster content
/// of identical size counts as unchanged whenever the change threshold is
/// positive.
pub proof fn lemma_identical_image_unchanged(
    prev: ImageModel,
    cur: ImageModel,
    diff_threshold: u8,
    change_threshold_centipercent: u32,
)
    requires
        prev == cur,
        change_threshold_centipercent > 0,
    ensures
        !has_changed_spec(Some(prev), cur, diff_threshold, change_threshold_centipercent),
{
    lemma_grid_count_zero_on_equal(cur, diff_threshold, sampled(cur.height));
    if cur.width * cur.height > 0 {
        assert(change_threshold_centipercent * (cur.width * cur.height) > 0) by (nonlinear_arith)
            requires
                change_threshold_centipercent >= 1,
                cur.width * cur.height >= 1,
        ;
    }
}

proof fn lemma_row_count_zero_on_equal(img: ImageModel, threshold: u8, y: int, i: int)
    ensures
        row_diff_count(img, img, threshold, y, i) == 0,
    decreases i,
{
    if i > 0 {
        lemma_row_count_zero_on_equal(img, threshold, y, i - 1);
    }
}

proof fn lemma_grid_count_zero_on_equal(img: ImageModel, threshold: u8, j: int)
    ensures
        grid_diff_count(img, img, threshold, j) == 0,
    decreases j,
{
    if j > 0 {
        lemma_grid_count_zero_on_equal(img, threshold, j - 1);
        lemma_row_count_zero_on_equal(img, threshold, 2 * (j - 1), sampled(img.width));
    }
}

/// A dimension change is always a change, whatever the pixel content and the
/// thresholds.
pub proof fn lemma_dimension_change_detected(
    prev: ImageModel,
    cur: ImageModel,
    diff_threshold: u8,
    change_threshold_centipercent: u32,
)
    requires
        prev.width != cur.width || prev.height != cur.height,
    ensures
        has_changed_spec(Some(prev), cur, diff_threshold, change_threshold_centipercent),
{
}

/// Without a baseline, every image counts as changed.
pub proof fn lemma_no_baseline_always_changed(
    cur: ImageModel,
    diff_threshold: u8,
    change_threshold_centipercent: u32,
)
    ensures
        has_changed_spec(None, cur, diff_threshold, change_threshold_centipercent),
{
}

proof fn lemma_row_count_monotonic(
    prev: ImageModel,
    cur: ImageModel,
    t1: u8,
    t2: u8,
    y: int,
    i: int,
)
    requires
        t1 <= t2,
    ensures
        row_diff_count(prev, cur, t2, y, i) <= row_diff_count(prev, cur, t1, y, i),
    decreases i,
{
    if i > 0 {
        lemma_row_count_monotonic(prev, cur, t1, t2, y, i - 1);
    }
}

proof fn lemma_grid_count_monotonic(prev: ImageModel, cur: ImageModel, t1: u8, t2: u8, j: int)
    requires
        t1 <= t2,
    ensures
        grid_diff_count(prev, cur, t2, j) <= grid_diff_count(prev, cur, t1, j),
    decreases j,
{
    if j > 0 {
        lemma_grid_count_monotonic(prev, cur, t1, t2, j - 1);
        lemma_row_count_monotonic(prev, cur, t1, t2, 2 * (j - 1), sampled(cur.width));
    }
}

/// Raising the per-channel tolerance can only lower the estimated count of
/// differing pixels, and so the computed difference percentage: whatever the
/// sampled comparison detects at the higher tolerance it also detects at the
/// lower one.
pub proof fn lemma_threshold_monotonic(
    prev: ImageModel,
    cur: ImageModel,
    t1: u8,
    t2: u8,
    change_threshold_centipercent: u32,
)
    requires
        t1 <= t2,
    ensures
        weighted_diff_count(prev, cur, t2) <= weighted_diff_count(prev, cur, t1),
        sampled_change(prev, cur, t2, change_threshold_centipercent) ==> sampled_change(
            prev,
            cur,
            t1,
            change_threshold_centipercent,
        ),
{
    lemma_grid_count_monotonic(prev, cur, t1, t2, sampled(cur.height));
}

} // verus!
