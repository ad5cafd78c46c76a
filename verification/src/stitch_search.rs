use vstd::prelude::*;
use crate::stitcher::{StitchConfig, StitchRegion, sat_sub};

verus! {

/// The shift range that the correlation scan covers: forward up to
/// `forward_limit`, backward down to `-reverse_limit`, in steps of `stride`.
#[derive(Debug, Clone, Copy, PartialEq, Eq, Structural)]
pub struct ShiftSearch {
    pub forward_limit: i32,
    pub reverse_limit: i32,
    pub stride: i32,
}

pub open spec fn min_i(a: int, b: int) -> int {
    if a <= b { a } else { b }
}

pub open spec fn max_i(a: int, b: int) -> int {
    if a >= b { a } else { b }
}

/// The search range for a region whose scrolling part is `valid_h` rows:
/// none when the rows do not exceed `min_overlap`.
pub open spec fn spec_shift_search(config: StitchConfig, valid_h: int) -> Option<ShiftSearch> {
    if valid_h <= config.min_overlap {
        None
    } else {
        let max_shift = valid_h - config.min_overlap;
        Some(
            ShiftSearch {
                forward_limit: min_i(config.max_scroll_per_frame as int, max_shift) as i32,
                reverse_limit: min_i(config.max_reverse_scroll as int, max_shift) as i32,
                stride: max_i(config.scan_stride as int, 1) as i32,
            },
        )
    }
}

/// The coarse grid of shifts: 0, then `stride, 2*stride, ...` up to the
/// forward limit, then `-stride, -2*stride, ...` down to the reverse limit.
pub open spec fn spec_coarse_shifts(s: ShiftSearch) -> Seq<i32> {
    let nf = if s.forward_limit >= 0 { s.forward_limit / s.stride } else { 0 };
    let nr = if s.reverse_limit >= 0 { s.reverse_limit / s.stride } else { 0 };
    seq![0i32] + Seq::new(nf as nat, |i: int| ((i + 1) * s.stride) as i32) + Seq::new(
        nr as nat,
        |i: int| (-(i + 1) * s.stride) as i32,
    )
}

/// `|x|` on integers.
pub open spec fn abs_i(x: int) -> int {
    if x < 0 { -x } else { x }
}

/// The pick after the first `shifts.len()` shifts: the first qualifying
/// shift of least magnitude so far and that magnitude (0 and `i32::MAX`
/// before any qualifying shift).
pub open spec fn spec_pick(shifts: Seq<i32>, qualifies: Seq<bool>) -> (i32, int)
    decreases shifts.len(),
{
    if shifts.len() == 0 {
        (0i32, i32::MAX as int)
    } else {
        let (b, m) = spec_pick(shifts.drop_last(), qualifies);
        let last = shifts.last();
        if qualifies[shifts.len() - 1] && abs_i(last as int) < m {
            (last, abs_i(last as int))
        } else {
            (b, m)
        }
    }
}

/// The row may be a seam: it and the row above it lie inside both frames.
pub open spec fn seam_row_ok(region: StitchRegion, k: int) -> bool {
    let prev_row = region.fixed_top + k;
    !(prev_row == 0 || prev_row >= region.height || k == 0 || k >= region.height)
}

/// The seam rows among `[start, k)`, in order.
pub open spec fn seam_rows_upto(region: StitchRegion, start: int, k: int) -> Seq<usize>
    decreases k - start,
{
    if k <= start {
        Seq::empty()
    } else {
        let r = seam_rows_upto(region, start, k - 1);
        if seam_row_ok(region, k - 1) {
            r.push((k - 1) as usize)
        } else {
            r
        }
    }
}

/// The divisor of the seam margins (at least 2).
pub open spec fn seam_divisor(config: StitchConfig) -> int {
    max_i(config.seam_margin_divisor as int, 2)
}

/// The first and the end of the rows searched for a seam: from `1/d` of the
/// overlap to `(d-1)/d` of it (the product held at `usize::MAX`), at least
/// one row.
pub open spec fn spec_seam_range(config: StitchConfig, overlap_valid: int) -> (int, int) {
    let d = seam_divisor(config);
    let start = overlap_valid / d;
    let end = min_i(overlap_valid * (d - 1), usize::MAX as int) / d;
    (start, max_i(end, start + 1))
}

/// The rows at which the seam may be cut, in order.
pub open spec fn spec_seam_rows(config: StitchConfig, region: StitchRegion, overlap_valid: int) -> Seq<usize> {
    let (start, end) = spec_seam_range(config, overlap_valid);
    seam_rows_upto(region, start, end)
}

/// The width of a column block.
pub open spec fn spec_block_width(config: StitchConfig) -> int {
    max_i(config.dynamic_block_size as int, 8)
}

/// Number of column blocks of a region `width` wide (at least one).
pub open spec fn spec_block_count(config: StitchConfig, width: int) -> int {
    max_i(width / spec_block_width(config), 1)
}

/// The search range for a region; `None` when the scrolling rows do not
/// exceed `min_overlap`.
pub fn shift_search(config: StitchConfig, region: StitchRegion) -> (r: Option<ShiftSearch>)
    requires
        region.fixed_top + region.fixed_bottom <= usize::MAX,
        sat_sub(region.height as int, region.fixed_top + region.fixed_bottom) <= i32::MAX,
        config.min_overlap <= i32::MAX,
        config.scan_stride <= i32::MAX,
    ensures
        r == spec_shift_search(config, sat_sub(region.height as int, region.fixed_top + region.fixed_bottom)),
{
    let valid_h = region.valid_height() as i32;
    let min_overlap = config.min_overlap as i32;
    if valid_h <= min_overlap {
        return None;
    }
    let max_shift = valid_h - min_overlap;
    let forward_limit = if config.max_scroll_per_frame <= max_shift { config.max_scroll_per_frame } else { max_shift };
    let reverse_limit = if config.max_reverse_scroll <= max_shift { config.max_reverse_scroll } else { max_shift };
    let stride = if config.scan_stride >= 1 { config.scan_stride as i32 } else { 1 };
    Some(ShiftSearch { forward_limit, reverse_limit, stride })
}

/// The coarse grid of shifts to score.
pub fn coarse_shifts(s: ShiftSearch) -> (v: Vec<i32>)
    requires
        s.stride >= 1,
        s.forward_limit + s.stride <= i32::MAX,
        s.reverse_limit + s.stride <= i32::MAX,
        s.reverse_limit > i32::MIN,
    ensures
        v@ == spec_coarse_shifts(s),
{
    let fl = s.forward_limit;
    let rl = s.reverse_limit;
    let stride = s.stride;
    let mut v: Vec<i32> = Vec::new();
    v.push(0);
    let mut s_pos: i32 = stride;
    let ghost mut k: int = 0;
    while s_pos <= fl
        invariant
            stride >= 1,
            fl + stride <= i32::MAX,
            0 <= k,
            s_pos == (k + 1) * stride,
            k == 0 || k * stride <= fl,
            v@ == seq![0i32] + Seq::new(k as nat, |i: int| ((i + 1) * stride) as i32),
        decreases fl + stride - s_pos,
    {
        v.push(s_pos);
        proof {
            assert(seq![0i32] + Seq::new((k + 1) as nat, |i: int| ((i + 1) * stride) as i32) =~= (seq![0i32]
                + Seq::new(k as nat, |i: int| ((i + 1) * stride) as i32)).push(s_pos));
            assert((k + 2) * stride == (k + 1) * stride + stride) by (nonlinear_arith);
        }
        s_pos = s_pos + stride;
        proof {
            k = k + 1;
        }
    }
    proof {
        let nf = if fl >= 0 { fl / stride } else { 0 };
        if fl >= 0 {
            assert(k == fl / stride) by (nonlinear_arith)
                requires
                    stride >= 1,
                    fl >= 0,
                    k >= 0,
                    k == 0 || k * stride <= fl,
                    (k + 1) * stride > fl,
            ;
        } else {
            assert(k == 0) by (nonlinear_arith)
                requires
                    stride >= 1,
                    k >= 0,
                    k == 0 || k * stride <= fl,
                    fl < 0,
            ;
        }
    }
    let ghost base = v@;
    let mut s_neg: i32 = -stride;
    let ghost mut m: int = 0;
    while s_neg >= -rl
        invariant
            stride >= 1,
            rl + stride <= i32::MAX,
            rl > i32::MIN,
            0 <= m,
            s_neg == -(m + 1) * stride,
            m == 0 || m * stride <= rl,
            v@ == base + Seq::new(m as nat, |i: int| (-(i + 1) * stride) as i32),
        decreases s_neg + rl + stride,
    {
        v.push(s_neg);
        proof {
            assert(base + Seq::new((m + 1) as nat, |i: int| (-(i + 1) * stride) as i32) =~= (base + Seq::new(
                m as nat,
                |i: int| (-(i + 1) * stride) as i32,
            )).push(s_neg));
            assert(-(m + 2) * stride == -(m + 1) * stride - stride) by (nonlinear_arith);
            assert((m + 1) * stride <= rl) by (nonlinear_arith)
                requires
                    s_neg == -(m + 1) * stride,
                    s_neg >= -rl,
            ;
        }
        s_neg = s_neg - stride;
        proof {
            m = m + 1;
        }
    }
    proof {
        assert((m + 1) * stride > rl) by (nonlinear_arith)
            requires
                s_neg == -(m + 1) * stride,
                s_neg < -rl,
        ;
        if rl >= 0 {
            assert(m == rl / stride) by (nonlinear_arith)
                requires
                    stride >= 1,
                    rl >= 0,
                    m >= 0,
                    m == 0 || m * stride <= rl,
                    (m + 1) * stride > rl,
            ;
        } else {
            assert(m == 0) by (nonlinear_arith)
                requires
                    stride >= 1,
                    m >= 0,
                    m == 0 || m * stride <= rl,
                    rl < 0,
            ;
        }
        assert(v@ =~= spec_coarse_shifts(s));
    }
    v
}

/// The fine range around the coarse pick: one stride to each side, kept
/// within the search limits.
pub fn fine_shift_range(s: ShiftSearch, coarse: i32) -> (r: (i32, i32))
    requires
        -s.reverse_limit <= coarse <= s.forward_limit,
        s.stride >= 1,
        s.forward_limit + s.stride <= i32::MAX,
        s.reverse_limit + s.stride <= i32::MAX,
        s.reverse_limit > i32::MIN,
    ensures
        r.0 == max_i(coarse - s.stride, -s.reverse_limit),
        r.1 == min_i(coarse + s.stride, s.forward_limit as int),
{
    let lo = coarse - s.stride;
    let start = if lo >= -s.reverse_limit { lo } else { -s.reverse_limit };
    let hi = coarse + s.stride;
    let end = if hi <= s.forward_limit { hi } else { s.forward_limit };
    (start, end)
}

/// The first qualifying shift of least magnitude (0 when none qualifies).
pub fn smallest_qualifying_shift(shifts: &Vec<i32>, qualifies: &Vec<bool>) -> (r: i32)
    requires
        qualifies@.len() == shifts@.len(),
        forall|i: int| 0 <= i < shifts@.len() ==> #[trigger] shifts@[i] > i32::MIN,
    ensures
        r == spec_pick(shifts@, qualifies@).0,
{
    let mut best: i32 = 0;
    let mut mag: i32 = i32::MAX;
    let mut i: usize = 0;
    while i < shifts.len()
        invariant
            i <= shifts@.len(),
            qualifies@.len() == shifts@.len(),
            forall|j: int| 0 <= j < shifts@.len() ==> #[trigger] shifts@[j] > i32::MIN,
            (best, mag as int) == spec_pick(shifts@.take(i as int), qualifies@),
        decreases shifts.len() - i,
    {
        proof {
            let t = shifts@.take(i + 1);
            assert(t.drop_last() =~= shifts@.take(i as int));
            assert(t.last() == shifts@[i as int]);
        }
        let shift = shifts[i];
        let a = if shift < 0 { -shift } else { shift };
        if qualifies[i] && a < mag {
            mag = a;
            best = shift;
        }
        i = i + 1;
    }
    proof {
        assert(shifts@.take(shifts@.len() as int) =~= shifts@);
    }
    best
}

/// The rows at which the seam between the frames may be cut.
pub fn seam_rows(config: StitchConfig, region: StitchRegion, overlap_valid: usize) -> (v: Vec<usize>)
    requires
        region.fixed_top + spec_seam_range(config, overlap_valid as int).1 <= usize::MAX,
    ensures
        v@ == spec_seam_rows(config, region, overlap_valid as int),
{
    let d: usize = if config.seam_margin_divisor >= 2 { config.seam_margin_divisor as usize } else { 2 };
    let start = overlap_valid / d;
    let product: usize = if overlap_valid == 0 || d - 1 <= usize::MAX / overlap_valid {
        proof {
            if overlap_valid > 0 {
                assert((d - 1) * overlap_valid <= ((usize::MAX as int) / (overlap_valid as int)) * overlap_valid)
                    by (nonlinear_arith)
                    requires
                        d - 1 <= (usize::MAX as int) / (overlap_valid as int),
                        overlap_valid > 0,
                ;
                assert(((usize::MAX as int) / (overlap_valid as int)) * overlap_valid <= usize::MAX) by (nonlinear_arith)
                    requires
                        overlap_valid > 0,
                ;
            }
        }
        overlap_valid * (d - 1)
    } else {
        proof {
            assert(overlap_valid * (d - 1) > usize::MAX) by (nonlinear_arith)
                requires
                    overlap_valid > 0,
                    d - 1 > (usize::MAX as int) / (overlap_valid as int),
            ;
        }
        usize::MAX
    };
    let end0 = product / d;
    let end = if end0 >= start + 1 { end0 } else { start + 1 };
    proof {
        assert(start == overlap_valid as int / seam_divisor(config));
    }
    let mut v: Vec<usize> = Vec::new();
    let mut k: usize = start;
    while k < end
        invariant
            start <= k <= end,
            region.fixed_top + end <= usize::MAX,
            v@ == seam_rows_upto(region, start as int, k as int),
        decreases end - k,
    {
        let prev_row = region.fixed_top + k;
        let skip = prev_row == 0 || prev_row >= region.height || k == 0 || k >= region.height;
        if !skip {
            v.push(k);
        }
        k = k + 1;
    }
    v
}

/// The width of a column block (at least 8).
pub fn block_width(config: StitchConfig) -> (w: usize)
    ensures
        w == spec_block_width(config),
{
    if config.dynamic_block_size >= 8 { config.dynamic_block_size } else { 8 }
}

/// Number of column blocks across `width` (at least one).
pub fn block_count(config: StitchConfig, width: usize) -> (n: usize)
    ensures
        n == spec_block_count(config, width as int),
{
    let n = width / block_width(config);
    if n >= 1 { n } else { 1 }
}

/// The columns `[x0, x1)` of block `b`, cut at the region's width.
pub fn block_columns(config: StitchConfig, width: usize, b: usize) -> (r: (usize, usize))
    requires
        (b + 1) * spec_block_width(config) <= usize::MAX,
    ensures
        r.0 == b * spec_block_width(config),
        r.1 == min_i((b + 1) * spec_block_width(config), width as int),
{
    let block = block_width(config);
    proof {
        assert(b * block <= (b + 1) * block) by (nonlinear_arith);
        assert((b + 1) * block == b * block + block) by (nonlinear_arith);
    }
    let x0 = b * block;
    let x1 = x0 + block;
    (x0, if x1 <= width { x1 } else { width })
}

/// The rows `[y_start, y_end)` whose texture counts: below the fixed top
/// band and above the fixed bottom band, at least one row.
pub fn content_rows(region: StitchRegion) -> (r: (usize, usize))
    requires
        region.height < usize::MAX,
    ensures
        r.0 == min_i(region.fixed_top as int, region.height as int),
        r.1 == max_i(sat_sub(region.height as int, region.fixed_bottom as int), r.0 + 1),
{
    let y_start = if region.fixed_top <= region.height { region.fixed_top } else { region.height };
    let bottom = if region.height >= region.fixed_bottom { region.height - region.fixed_bottom } else { 0 };
    (y_start, if bottom >= y_start + 1 { bottom } else { y_start + 1 })
}

/// How many rows from each edge are checked for a fixed band: a third of
/// the height, at least one.
pub fn sticky_check_rows(height: usize) -> (n: usize)
    ensures
        n == max_i(height as int / 3, 1),
{
    let third = height / 3;
    if third >= 1 { third } else { 1 }
}

/// For a shift, the rows that overlap and where they start in the previous
/// and the next frame (below the fixed top band); `None` when the overlap
/// does not exceed `min_overlap`.
pub fn shift_overlap(config: StitchConfig, valid_h: i32, shift: i32) -> (r: Option<(usize, usize, usize)>)
    requires
        shift > i32::MIN,
        valid_h >= 0,
        config.min_overlap <= i32::MAX,
    ensures
        ({
            let overlap = valid_h - abs_i(shift as int);
            if overlap <= config.min_overlap {
                r is None
            } else {
                r == Some(
                    (
                        (if shift >= 0 { shift as int } else { 0 }) as usize,
                        (if shift >= 0 { 0 } else { -shift }) as usize,
                        overlap as usize,
                    ),
                )
            }
        }),
{
    let a = if shift < 0 { -shift } else { shift };
    let overlap = valid_h - a;
    if overlap <= config.min_overlap as i32 {
        return None;
    }
    let prev_off = if shift >= 0 { shift as usize } else { 0 };
    let next_off = if shift >= 0 { 0 } else { (-shift) as usize };
    Some((prev_off, next_off, overlap as usize))
}

} // verus!
