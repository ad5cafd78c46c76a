use vstd::prelude::*;
use vstd::string::StringExecFns;
use crate::frame::{RgbaFrame, row_bytes, spec_copy_rows, resize_triangle, triangle_resized};

verus! {

/// Rows added beyond the needed height whenever the canvas has to grow.
pub const CANVAS_RESIZE_HEADROOM: u32 = 2000;

/// How a frame was handled by the stitcher.
#[derive(Debug, Clone, Copy, PartialEq, Eq, Structural)]
pub enum StitchFrameStatus {
    Appended,
    Stationary,
    LowConfidence,
    Reverse,
}

/// The outcome of one frame: its status, the stitched height afterwards and
/// an explanation when the frame was not used.
#[derive(Debug, Clone)]
pub struct StitchFrameResult {
    pub status: StitchFrameStatus,
    pub height: i32,
    pub warning: Option<String>,
}

/// The integer tuning of the stitcher. The match-score thresholds, which are
/// real numbers, belong to the frame analysis that answers the stitcher's
/// queries.
#[derive(Debug, Clone, Copy, PartialEq, Eq, Structural)]
pub struct StitchConfig {
    pub min_overlap: u32,
    pub min_scroll_threshold: u32,
    pub dynamic_block_size: usize,
    pub min_content_blocks: usize,
    pub max_reverse_scroll: i32,
    /// Largest forward scroll (in px) to search for between two frames. A
    /// momentum flick can exceed this; such frames are simply skipped until the
    /// scroll slows enough that consecutive frames overlap within this range.
    pub max_scroll_per_frame: i32,
    /// Column/row stride for the coarse correlation scan (>=1).
    pub scan_stride: usize,
    pub seam_margin_divisor: u32,
}

/// The tuning that `StitchConfig::default` gives.
pub open spec fn default_stitch_config() -> StitchConfig {
    StitchConfig {
        min_overlap: 24,
        min_scroll_threshold: 4,
        dynamic_block_size: 16,
        min_content_blocks: 3,
        max_reverse_scroll: 8,
        max_scroll_per_frame: 400,
        scan_stride: 4,
        seam_margin_divisor: 5,
    }
}

impl Default for StitchConfig {
    fn default() -> (c: Self)
        ensures
            c == default_stitch_config(),
    {
        StitchConfig {
            min_overlap: 24,
            min_scroll_threshold: 4,
            dynamic_block_size: 16,
            min_content_blocks: 3,
            max_reverse_scroll: 8,
            max_scroll_per_frame: 400,
            scan_stride: 4,
            seam_margin_divisor: 5,
        }
    }
}

/// The part of a frame that scrolls: all rows but the fixed bands at the top
/// and at the bottom.
#[derive(Debug, Clone, Copy, PartialEq, Eq, Structural)]
pub struct StitchRegion {
    pub width: usize,
    pub height: usize,
    pub fixed_top: usize,
    pub fixed_bottom: usize,
}

/// `a - b`, or zero when `b` exceeds `a`.
pub open spec fn sat_sub(a: int, b: int) -> int {
    if a >= b { a - b } else { 0 }
}

impl StitchRegion {
    /// The number of scrolling rows.
    pub fn valid_height(self) -> (h: usize)
        requires
            self.fixed_top + self.fixed_bottom <= usize::MAX,
        ensures
            h == sat_sub(self.height as int, self.fixed_top + self.fixed_bottom),
    {
        let fixed = self.fixed_top + self.fixed_bottom;
        if self.height >= fixed { self.height - fixed } else { 0 }
    }
}

/// The rows that one stitch keeps and appends.
#[derive(Debug, Clone, Copy, PartialEq, Eq, Structural)]
pub struct StitchAppendPlan {
    pub trim_amount: u32,
    pub append_start_y: u32,
    pub append_end_y: u32,
    pub fixed_bottom: u32,
}

/// The vertical shift found between the previous and the next frame, and
/// whether its match score passed the confidence thresholds.
#[derive(Debug, Clone, Copy, PartialEq, Eq, Structural)]
pub struct ShiftEstimate {
    pub delta: i32,
    pub confident: bool,
}

/// A measurement the stitcher needs from the frame analysis before it can
/// go on with the current frame.
#[derive(Debug, Clone, Copy, PartialEq, Eq, Structural)]
pub enum FrameQuery {
    /// Heights of the unchanged, textured bands at the top and bottom.
    StickyBands { width: usize, height: usize },
    /// Number of textured column blocks in the region.
    ContentBlocks { region: StitchRegion },
    /// The vertical shift of the region's content between the two frames.
    ShiftEstimate { region: StitchRegion },
    /// The overlap row where the seam between the frames is least visible.
    Seam { region: StitchRegion, overlap_valid: usize },
}

/// The frame analysis' answer to a `FrameQuery`.
#[derive(Debug, Clone, Copy, PartialEq, Eq, Structural)]
pub enum FrameAnswer {
    StickyBands { fixed_top: u32, fixed_bottom: u32 },
    ContentBlocks { count: usize },
    ShiftEstimate { estimate: Option<ShiftEstimate> },
    Seam { cut: usize },
}

/// What the stitcher asks for next, or how the frame ended.
#[derive(Debug)]
pub enum FrameStep {
    Query(FrameQuery),
    Done(StitchFrameResult),
}

/// A reference frame: its analysis, held as it is, and its size.
#[derive(Debug)]
pub struct FrameRef<A> {
    pub analysis: A,
    pub width: u32,
    pub height: u32,
}

/// Where an unfinished frame stands.
#[derive(Debug, Clone, Copy, PartialEq, Eq, Structural)]
pub enum FrameStage {
    Sticky,
    Blocks { fixed_top: u32, fixed_bottom: u32, valid_h: u32 },
    Shift { fixed_top: u32, fixed_bottom: u32, valid_h: u32 },
    Seam { fixed_top: u32, fixed_bottom: u32, valid_h: u32, overlap_valid: usize },
}

/// A frame between `process_frame_detailed` and its final answer.
#[derive(Debug)]
pub struct PendingFrame<A> {
    pub image: RgbaFrame,
    pub prev: FrameRef<A>,
    pub next: FrameRef<A>,
    pub stage: FrameStage,
}

/// The incremental state of the preview thumbnail.
#[derive(Debug)]
pub struct ThumbnailCache {
    pub target_width: u32,
    pub source_width: u32,
    pub source_height: u32,
    pub dirty_from: u32,
    pub image: Option<RgbaFrame>,
}

impl ThumbnailCache {
    pub open spec fn spec_reset(self) -> ThumbnailCache {
        ThumbnailCache { target_width: 0, source_width: 0, source_height: 0, dirty_from: 0, image: None }
    }

    pub open spec fn spec_mark_dirty_from(self, source_row: u32) -> ThumbnailCache {
        if self.image is None {
            self
        } else {
            ThumbnailCache {
                dirty_from: if self.dirty_from <= source_row { self.dirty_from } else { source_row },
                ..self
            }
        }
    }

    pub fn new() -> (c: Self)
        ensures
            c == (ThumbnailCache { target_width: 0, source_width: 0, source_height: 0, dirty_from: 0, image: None }),
    {
        ThumbnailCache { target_width: 0, source_width: 0, source_height: 0, dirty_from: 0, image: None }
    }

    /// Forgets the cached thumbnail.
    pub fn reset(&mut self)
        ensures
            *final(self) == old(self).spec_reset(),
    {
        self.target_width = 0;
        self.source_width = 0;
        self.source_height = 0;
        self.dirty_from = 0;
        self.image = None;
    }

    /// Records that source rows from `source_row` on have changed.
    pub fn mark_dirty_from(&mut self, source_row: u32)
        ensures
            *final(self) == old(self).spec_mark_dirty_from(source_row),
    {
        if self.image.is_none() {
            return;
        }
        if source_row < self.dirty_from {
            self.dirty_from = source_row;
        }
    }
}

/// How the preview thumbnail is brought up to date with the canvas.
#[derive(Debug, Clone, Copy, PartialEq, Eq, Structural)]
pub enum ThumbnailPlan {
    /// No thumbnail: no canvas, nothing stitched, or a zero width or height.
    Unavailable,
    /// The cached thumbnail is current and has the asked height.
    Cached,
    /// Render all stitched rows from scratch (also when an otherwise current
    /// cached thumbnail has another height).
    Full,
    /// Keep the cached thumbnail above the scaled `dirty_from` row and
    /// re-render the `source_rows` stitched rows from `source_start` on; the
    /// cached thumbnail is kept whole when it already has the target height.
    Incremental { dirty_from: u32, source_start: u32, source_rows: u32, reuse_whole: bool },
}

/// The smallest of three integers.
pub open spec fn min3(a: int, b: int, c: int) -> int {
    if a <= b && a <= c {
        a
    } else if b <= c {
        b
    } else {
        c
    }
}

/// The bytes of an incrementally updated thumbnail: the previous one, cut
/// or padded with zero rows to `target_height` when its height differs,
/// with `strip` (rows `target_width` wide) written from `target_start` on.
pub open spec fn spec_composed_thumbnail(
    prev: RgbaFrame,
    target_width: u32,
    target_height: u32,
    preserved_rows: u32,
    target_start: u32,
    source_rows: int,
    strip: Seq<u8>,
) -> Seq<u8> {
    let base = if prev.spec_height() == target_height {
        prev.bytes()
    } else {
        spec_copy_rows(
            prev.bytes(),
            prev.spec_width(),
            0,
            zeros(target_width as int * target_height as int * 4),
            0,
            min3(preserved_rows as int, prev.spec_height() as int, target_height as int) as u32,
        )
    };
    let target_rows = sat_sub(target_height as int, target_start as int);
    if source_rows > 0 && target_rows > 0 {
        spec_copy_rows(strip, target_width, 0, base, target_start, target_rows as u32)
    } else {
        base
    }
}

/// The abstract state of a `ScrollStitcher`.
pub struct StitcherView<A> {
    pub canvas: Option<RgbaFrame>,
    pub valid_height: u32,
    pub reference: Option<FrameRef<A>>,
    pub footer_height: u32,
    pub config: StitchConfig,
    pub thumbnail: ThumbnailCache,
    pub pending: Option<PendingFrame<A>>,
}

/// Stitches the frames of a scrolling viewport into one tall canvas.
///
/// Each frame goes in by `process_frame_detailed` and then, while the result
/// is a `FrameStep::Query`, by `resume` with the frame analysis' answer. The
/// analysis of a frame (type `A`) is held by the stitcher as the reference
/// for the next frame.
pub struct ScrollStitcher<A> {
    canvas: Option<RgbaFrame>,
    valid_height: u32,
    last_analysis: Option<FrameRef<A>>,
    last_footer_height: u32,
    config: StitchConfig,
    thumbnail: ThumbnailCache,
    pending: Option<PendingFrame<A>>,
}

impl<A> View for ScrollStitcher<A> {
    type V = StitcherView<A>;

    closed spec fn view(&self) -> StitcherView<A> {
        StitcherView {
            canvas: self.canvas,
            valid_height: self.valid_height,
            reference: self.last_analysis,
            footer_height: self.last_footer_height,
            config: self.config,
            thumbnail: self.thumbnail,
            pending: self.pending,
        }
    }
}

/// `max(a, b)` on integers.
pub open spec fn max_of(a: int, b: int) -> int {
    if a >= b { a } else { b }
}

/// All zero bytes.
pub open spec fn zeros(n: int) -> Seq<u8> {
    Seq::new(n as nat, |i: int| 0u8)
}

/// The bytes of a new canvas `width x height` that holds the first frame.
pub open spec fn spec_initial_canvas(first: RgbaFrame) -> Seq<u8> {
    spec_copy_rows(
        first.bytes(),
        first.spec_width(),
        0,
        zeros(first.spec_width() as int * (first.spec_height() as int * 3) * 4),
        0,
        first.spec_height(),
    )
}

/// The height a canvas of height `cap` takes when `total` rows must fit.
pub open spec fn spec_grown_height(cap: u32, total: int) -> int {
    if total > cap {
        max_of(cap as int * 2, total + CANVAS_RESIZE_HEADROOM)
    } else {
        cap as int
    }
}

/// The canvas bytes after keeping `keep` rows and appending rows
/// `[start, start + append)` of `image` after them.
pub open spec fn spec_stitched_canvas(
    canvas: RgbaFrame,
    image: RgbaFrame,
    keep: int,
    start: u32,
    append: int,
) -> Seq<u8> {
    let cap = spec_grown_height(canvas.spec_height(), keep + append);
    let base = if keep + append > canvas.spec_height() {
        spec_copy_rows(
            canvas.bytes(),
            canvas.spec_width(),
            0,
            zeros(canvas.spec_width() as int * cap * 4),
            0,
            keep as u32,
        )
    } else {
        canvas.bytes()
    };
    spec_copy_rows(image.bytes(), image.spec_width(), start, base, keep as u32, append as u32)
}

impl<A> StitcherView<A> {
    /// The byte sizes that a frame of `width x height` leads to fit the
    /// machine's integers.
    pub open spec fn fits_frame(self, width: u32, height: u32) -> bool {
        &&& width as int * 4 <= u32::MAX
        &&& height as int * 3 <= u32::MAX
        &&& width as int * (height as int * 3) * 4 <= usize::MAX
        &&& self.canvas matches Some(c) ==> {
            let need = self.valid_height as int + height as int + CANVAS_RESIZE_HEADROOM;
            &&& need <= u32::MAX
            &&& c.spec_height() as int * 2 <= u32::MAX
            &&& c.spec_width() as int * max_of(c.spec_height() as int * 2, need) * 4 <= usize::MAX
            &&& width as int * need * 4 <= usize::MAX
        }
    }

    /// What an unfinished frame at each stage has established.
    pub open spec fn stage_wf(self, p: PendingFrame<A>) -> bool {
        let h = p.next.height as int;
        let max_band = max_of(h / 3, 1);
        &&& p.image.wf()
        &&& p.next.width == p.image.spec_width() && p.next.height == p.image.spec_height()
        &&& p.prev.width == p.next.width && p.prev.height == p.next.height
        &&& self.fits_frame(p.image.spec_width(), p.image.spec_height())
        &&& match p.stage {
            FrameStage::Sticky => true,
            FrameStage::Blocks { fixed_top, fixed_bottom, valid_h } | FrameStage::Shift {
                fixed_top,
                fixed_bottom,
                valid_h,
            } => {
                &&& fixed_top <= max_band && fixed_bottom <= max_band
                &&& valid_h == sat_sub(h, fixed_top + fixed_bottom)
                &&& valid_h >= self.config.min_overlap
            },
            FrameStage::Seam { fixed_top, fixed_bottom, valid_h, overlap_valid } => {
                &&& fixed_top <= max_band && fixed_bottom <= max_band
                &&& valid_h == sat_sub(h, fixed_top + fixed_bottom)
                &&& overlap_valid <= valid_h
                &&& overlap_valid >= self.config.min_overlap
            },
        }
    }

    /// The stitcher's invariant.
    pub open spec fn wf(self) -> bool {
        &&& match self.canvas {
            Some(c) => c.wf() && self.valid_height <= c.spec_height() && c.spec_width() as int * 4 <= u32::MAX,
            None => self.valid_height == 0,
        }
        &&& self.thumbnail.image matches Some(t) ==> t.wf() && t.spec_width() == self.thumbnail.target_width
        &&& self.pending matches Some(p) ==> self.canvas is Some && self.reference is None && self.stage_wf(p)
    }

    /// The plan `thumbnail_plan` gives for a thumbnail `target_width` wide
    /// and, scaled from the stitched height, `target_height` tall.
    pub open spec fn spec_thumbnail_plan(self, target_width: u32, target_height: u32) -> ThumbnailPlan {
        let valid_h = self.valid_height;
        let th = self.thumbnail;
        match self.canvas {
            None => ThumbnailPlan::Unavailable,
            Some(c) => if target_width == 0 || valid_h == 0 || c.spec_width() == 0 || target_height == 0 {
                ThumbnailPlan::Unavailable
            } else if th.image is None || th.target_width != target_width || th.source_width != c.spec_width()
                || valid_h < th.source_height {
                ThumbnailPlan::Full
            } else {
                let dirty = if th.dirty_from <= valid_h { th.dirty_from } else { valid_h };
                if dirty >= valid_h && th.source_height == valid_h {
                    if th.image->0.spec_height() == target_height {
                        ThumbnailPlan::Cached
                    } else {
                        ThumbnailPlan::Full
                    }
                } else {
                    let source_start = if valid_h > th.source_height {
                        sat_sub(dirty as int, 1) as u32
                    } else {
                        dirty
                    };
                    ThumbnailPlan::Incremental {
                        dirty_from: dirty,
                        source_start,
                        source_rows: (valid_h - source_start) as u32,
                        reuse_whole: th.image->0.spec_height() == target_height,
                    }
                }
            },
        }
    }

    /// The thumbnail after a render of `image` that covers all stitched rows.
    pub open spec fn spec_rendered_thumbnail(self, image: RgbaFrame, target_width: u32) -> ThumbnailCache {
        ThumbnailCache {
            target_width,
            source_width: self.canvas->0.spec_width(),
            source_height: self.valid_height,
            dirty_from: self.valid_height,
            image: Some(image),
        }
    }

    /// The answer fits the query of the unfinished frame.
    pub open spec fn accepts_answer(self, answer: FrameAnswer) -> bool {
        match self.pending {
            None => false,
            Some(p) => {
                let max_band = max_of(p.next.height as int / 3, 1);
                match (p.stage, answer) {
                    (FrameStage::Sticky, FrameAnswer::StickyBands { fixed_top, fixed_bottom }) => fixed_top
                        <= max_band && fixed_bottom <= max_band,
                    (FrameStage::Blocks { .. }, FrameAnswer::ContentBlocks { .. }) => true,
                    (FrameStage::Shift { .. }, FrameAnswer::ShiftEstimate { .. }) => true,
                    (FrameStage::Seam { overlap_valid, .. }, FrameAnswer::Seam { cut }) => cut <= overlap_valid,
                    _ => false,
                }
            },
        }
    }

    /// The region of the unfinished frame between its fixed bands.
    pub open spec fn pending_region(self, fixed_top: u32, fixed_bottom: u32) -> StitchRegion {
        let p = self.pending->0;
        StitchRegion {
            width: p.next.width as usize,
            height: p.next.height as usize,
            fixed_top: fixed_top as usize,
            fixed_bottom: fixed_bottom as usize,
        }
    }

    /// `after` ends the unfinished frame of `self` without touching the
    /// canvas: the reference becomes the next frame (`keep_next`) or stays the
    /// previous one, and the footer height becomes `footer` when given.
    pub open spec fn rejected(self, after: StitcherView<A>, keep_next: bool, footer: Option<u32>) -> bool {
        let p = self.pending->0;
        &&& after.canvas == self.canvas
        &&& after.valid_height == self.valid_height
        &&& after.config == self.config
        &&& after.thumbnail == self.thumbnail
        &&& after.pending is None
        &&& after.reference == Some(if keep_next { p.next } else { p.prev })
        &&& after.footer_height == match footer {
            Some(f) => f,
            None => self.footer_height,
        }
    }

    /// `after` keeps the unfinished frame of `self` at stage `stage`.
    pub open spec fn advanced(self, after: StitcherView<A>, stage: FrameStage) -> bool {
        let p = self.pending->0;
        &&& after.canvas == self.canvas
        &&& after.valid_height == self.valid_height
        &&& after.config == self.config
        &&& after.thumbnail == self.thumbnail
        &&& after.reference == self.reference
        &&& after.footer_height == self.footer_height
        &&& after.pending == Some(PendingFrame { stage, ..p })
    }
}

/// The step ends the frame with an appended result.
pub open spec fn ends_appended(step: FrameStep) -> bool {
    step matches FrameStep::Done(r) && r.status == StitchFrameStatus::Appended
}

/// `after` has the canvas and the stitched height of `before`.
pub open spec fn keeps_canvas<A>(before: StitcherView<A>, after: StitcherView<A>) -> bool {
    after.canvas == before.canvas && after.valid_height == before.valid_height
}

/// The step ends the frame with this status, the stitched height `height`
/// and, when `msg` is given, a warning with that text.
pub open spec fn done_with(step: FrameStep, status: StitchFrameStatus, height: u32, msg: Option<Seq<char>>) -> bool {
    &&& step matches FrameStep::Done(r)
    &&& r.status == status
    &&& r.height == height as i32
    &&& match msg {
        None => r.warning is None,
        Some(m) => r.warning matches Some(w) && w@ == m,
    }
}

proof fn lemma_mul_mono(a: int, b: int, c: int)
    requires
        0 <= a <= b,
        0 <= c,
    ensures
        0 <= a * c <= b * c,
{
    vstd::arithmetic::mul::lemma_mul_inequality(a, b, c);
    vstd::arithmetic::mul::lemma_mul_nonnegative(a, c);
}

impl<A> ScrollStitcher<A> {
    pub fn new() -> (s: Self)
        ensures
            s@.wf(),
            s@.canvas is None,
            s@.reference is None,
            s@.pending is None,
            s@.valid_height == 0,
            s@.footer_height == 0,
            s@.config == default_stitch_config(),
            s@.thumbnail.image is None,
    {
        Self::with_config(StitchConfig::default())
    }

    pub fn with_config(config: StitchConfig) -> (s: Self)
        ensures
            s@.wf(),
            s@.canvas is None,
            s@.reference is None,
            s@.pending is None,
            s@.valid_height == 0,
            s@.footer_height == 0,
            s@.config == config,
            s@.thumbnail == (ThumbnailCache {
                target_width: 0,
                source_width: 0,
                source_height: 0,
                dirty_from: 0,
                image: None,
            }),
    {
        ScrollStitcher {
            canvas: None,
            valid_height: 0,
            last_analysis: None,
            last_footer_height: 0,
            config,
            thumbnail: ThumbnailCache::new(),
            pending: None,
        }
    }

    pub fn config(&self) -> (c: StitchConfig)
        ensures
            c == self@.config,
    {
        self.config
    }

    /// The canvas and how many of its rows hold stitched content.
    pub fn current_image(&self) -> (r: Option<(&RgbaFrame, u32)>)
        ensures
            match self@.canvas {
                None => r is None,
                Some(c) => r matches Some((img, h)) && *img == c && h == self@.valid_height,
            },
    {
        match &self.canvas {
            Some(img) => Some((img, self.valid_height)),
            None => None,
        }
    }

    /// No frame is waiting for an answer.
    pub fn is_idle(&self) -> (b: bool)
        ensures
            b == self@.pending is None,
    {
        self.pending.is_none()
    }

    /// The previous and next analyses of the unfinished frame.
    pub fn pending_pair(&self) -> (r: Option<(&A, &A)>)
        ensures
            match self@.pending {
                None => r is None,
                Some(p) => r matches Some((a, b)) && *a == p.prev.analysis && *b == p.next.analysis,
            },
    {
        match &self.pending {
            Some(p) => Some((&p.prev.analysis, &p.next.analysis)),
            None => None,
        }
    }

    /// A frame of this size can go in without overflowing the canvas sizes.
    pub fn can_accept(&self, width: u32, height: u32) -> (b: bool)
        ensures
            b == self@.fits_frame(width, height),
    {
        let w = width as u128;
        let h = height as u128;
        if w * 4 > u32::MAX as u128 || h * 3 > u32::MAX as u128 {
            return false;
        }
        proof {
            assert(w * (h * 3) * 4 <= (u32::MAX as int) * (u32::MAX as int) * 4) by (nonlinear_arith)
                requires
                    w <= u32::MAX,
                    h * 3 <= u32::MAX,
            ;
        }
        if w * (h * 3) * 4 > usize::MAX as u128 {
            return false;
        }
        match &self.canvas {
            None => true,
            Some(c) => {
                let need: u128 = self.valid_height as u128 + h + CANVAS_RESIZE_HEADROOM as u128;
                let ch = c.height() as u128;
                let cw = c.width() as u128;
                if need > u32::MAX as u128 || ch * 2 > u32::MAX as u128 {
                    return false;
                }
                let cap = if ch * 2 >= need { ch * 2 } else { need };
                proof {
                    assert(cw * cap * 4 <= (u32::MAX as int) * (u32::MAX as int) * 4) by (nonlinear_arith)
                        requires
                            cw <= u32::MAX,
                            cap <= u32::MAX,
                    ;
                    assert(w * need * 4 <= (u32::MAX as int) * (u32::MAX as int) * 4) by (nonlinear_arith)
                        requires
                            w <= u32::MAX,
                            need <= u32::MAX,
                    ;
                }
                cw * cap * 4 <= usize::MAX as u128 && w * need * 4 <= usize::MAX as u128
            },
        }
    }


    /// The stitched rows of the canvas as an image of their own, when there
    /// are any.
    pub fn get_final_image(&self) -> (r: Option<RgbaFrame>)
        requires
            self@.wf(),
        ensures
            match self@.canvas {
                None => r is None,
                Some(c) => if self@.valid_height == 0 || c.spec_width() == 0 {
                    r is None
                } else {
                    &&& r matches Some(f)
                    &&& f.wf()
                    &&& f.spec_width() == c.spec_width()
                    &&& f.spec_height() == self@.valid_height
                    &&& f.bytes() == c.rows(0, self@.valid_height as int)
                },
            },
    {
        let canvas = match &self.canvas {
            Some(c) => c,
            None => return None,
        };
        let h = self.valid_height;
        if h == 0 || canvas.width() == 0 {
            return None;
        }
        let w = canvas.width();
        proof {
            lemma_mul_mono(h as int, canvas.spec_height() as int, w as int * 4);
            assert(w as int * h as int * 4 == h as int * (w as int * 4)) by (nonlinear_arith);
            assert(w as int * canvas.spec_height() as int * 4 == canvas.spec_height() as int * (w as int * 4))
                by (nonlinear_arith);
        }
        let mut final_img = RgbaFrame::new(w, h);
        RgbaFrame::copy_region(canvas, 0, &mut final_img, 0, h);
        proof {
            let wb = row_bytes(w);
            assert(final_img.bytes() =~= canvas.bytes().subrange(0, h as int * wb));
        }
        Some(final_img)
    }

    /// Keeps the stitched rows up to the footer minus `plan.trim_amount`
    /// and appends rows `[append_start_y, append_end_y)` of `new_image`,
    /// growing the canvas when they do not fit.
    fn execute_stitch(&mut self, new_image: &RgbaFrame, plan: StitchAppendPlan) -> (ok: bool)
        requires
            old(self)@.wf(),
            old(self)@.pending is None,
            old(self)@.canvas is Some,
            new_image.wf(),
            old(self)@.fits_frame(new_image.spec_width(), new_image.spec_height()),
            plan.append_start_y <= plan.append_end_y <= new_image.spec_height(),
        ensures
            final(self)@.wf(),
            final(self)@.reference == old(self)@.reference,
            final(self)@.config == old(self)@.config,
            final(self)@.pending is None,
            ({
                let content_end = sat_sub(old(self)@.valid_height as int, old(self)@.footer_height as int);
                let keep = content_end - plan.trim_amount;
                let append = plan.append_end_y - plan.append_start_y;
                let c0 = old(self)@.canvas->0;
                &&& ok == (plan.trim_amount <= content_end)
                &&& !ok ==> {
                    &&& final(self)@.canvas == old(self)@.canvas
                    &&& final(self)@.valid_height == old(self)@.valid_height
                    &&& final(self)@.footer_height == old(self)@.footer_height
                    &&& final(self)@.thumbnail == old(self)@.thumbnail
                }
                &&& ok ==> {
                    &&& final(self)@.canvas matches Some(c) && c.spec_width() == c0.spec_width() && c.spec_height()
                        == spec_grown_height(c0.spec_height(), keep + append) && c.bytes()
                        == spec_stitched_canvas(c0, *new_image, keep, plan.append_start_y, append)
                    &&& final(self)@.valid_height == keep + append
                    &&& final(self)@.footer_height == plan.fixed_bottom
                    &&& final(self)@.thumbnail == old(self)@.thumbnail.spec_mark_dirty_from(
                        if keep <= old(self)@.valid_height { keep as u32 } else { old(self)@.valid_height },
                    )
                }
            }),
    {
        let previous_valid_height = self.valid_height;
        let content_end = if self.valid_height >= self.last_footer_height {
            self.valid_height - self.last_footer_height
        } else {
            0
        };
        if plan.trim_amount > content_end {
            return false;
        }
        let keep_h = content_end - plan.trim_amount;
        let append_h = plan.append_end_y - plan.append_start_y;
        let new_total_h = keep_h + append_h;
        let mut canvas = self.canvas.take().unwrap();
        let ghost c0 = canvas;
        let cw = canvas.width();
        let ch = canvas.height();
        let iw = new_image.width();
        let ih = new_image.height();
        proof {
            lemma_mul_mono(keep_h as int, ch as int, cw as int * 4);
            assert(cw as int * ch as int * 4 == ch as int * (cw as int * 4)) by (nonlinear_arith);
            lemma_mul_mono(plan.append_end_y as int, ih as int, iw as int * 4);
            assert(iw as int * ih as int * 4 == ih as int * (iw as int * 4)) by (nonlinear_arith);
            let need = previous_valid_height as int + ih as int + CANVAS_RESIZE_HEADROOM;
            lemma_mul_mono(new_total_h as int, need, iw as int * 4);
            assert(iw as int * need * 4 == need * (iw as int * 4)) by (nonlinear_arith);
        }
        if new_total_h > ch {
            let doubled = ch * 2;
            let needed = new_total_h + CANVAS_RESIZE_HEADROOM;
            let new_cap = if doubled >= needed { doubled } else { needed };
            proof {
                let need = previous_valid_height as int + ih as int + CANVAS_RESIZE_HEADROOM;
                lemma_mul_mono(new_cap as int, max_of(ch as int * 2, need), cw as int * 4);
                assert(cw as int * new_cap as int * 4 == new_cap as int * (cw as int * 4)) by (nonlinear_arith);
                assert(cw as int * max_of(ch as int * 2, need) * 4 == max_of(ch as int * 2, need) * (cw as int * 4))
                    by (nonlinear_arith);
                lemma_mul_mono(keep_h as int, new_cap as int, cw as int * 4);
            }
            let mut new_canvas = RgbaFrame::new(cw, new_cap);
            proof {
                assert(new_canvas.bytes() =~= zeros(cw as int * new_cap as int * 4));
            }
            RgbaFrame::copy_region(&canvas, 0, &mut new_canvas, 0, keep_h);
            canvas = new_canvas;
        }
        proof {
            lemma_mul_mono(new_total_h as int, canvas.spec_height() as int, cw as int * 4);
        }
        if append_h > 0 {
            RgbaFrame::copy_region(new_image, plan.append_start_y, &mut canvas, keep_h, append_h);
        }
        self.canvas = Some(canvas);
        self.valid_height = new_total_h;
        self.last_footer_height = plan.fixed_bottom;
        let dirty = if keep_h <= previous_valid_height { keep_h } else { previous_valid_height };
        self.thumbnail.mark_dirty_from(dirty);
        true
    }


    /// How to bring the preview thumbnail up to date; `target_height` is the
    /// stitched height scaled to `target_width`.
    pub fn thumbnail_plan(&self, target_width: u32, target_height: u32) -> (p: ThumbnailPlan)
        requires
            self@.wf(),
        ensures
            p == self@.spec_thumbnail_plan(target_width, target_height),
    {
        let canvas = match &self.canvas {
            None => return ThumbnailPlan::Unavailable,
            Some(c) => c,
        };
        let valid_h = self.valid_height;
        let source_width = canvas.width();
        if target_width == 0 || valid_h == 0 || source_width == 0 || target_height == 0 {
            return ThumbnailPlan::Unavailable;
        }
        let requires_full_render = self.thumbnail.image.is_none() || self.thumbnail.target_width != target_width
            || self.thumbnail.source_width != source_width || valid_h < self.thumbnail.source_height;
        if requires_full_render {
            return ThumbnailPlan::Full;
        }
        let dirty_from = if self.thumbnail.dirty_from <= valid_h { self.thumbnail.dirty_from } else { valid_h };
        if dirty_from >= valid_h && self.thumbnail.source_height == valid_h {
            let same_height = match &self.thumbnail.image {
                Some(t) => t.height() == target_height,
                None => false,
            };
            if same_height {
                return ThumbnailPlan::Cached;
            }
            return ThumbnailPlan::Full;
        }
        let reuse_whole = match &self.thumbnail.image {
            Some(prev) => prev.height() == target_height,
            None => false,
        };
        let source_start = if valid_h > self.thumbnail.source_height {
            if dirty_from >= 1 { dirty_from - 1 } else { 0 }
        } else {
            dirty_from
        };
        ThumbnailPlan::Incremental { dirty_from, source_start, source_rows: valid_h - source_start, reuse_whole }
    }

    /// A copy of the cached thumbnail.
    pub fn cached_thumbnail(&self) -> (r: Option<RgbaFrame>)
        ensures
            match self@.thumbnail.image {
                None => r is None,
                Some(t) => r matches Some(c) && c.spec_width() == t.spec_width() && c.spec_height()
                    == t.spec_height() && c.bytes() == t.bytes(),
            },
    {
        match &self.thumbnail.image {
            Some(t) => Some(t.clone()),
            None => None,
        }
    }

    /// Rows `[start, start + count)` of the canvas as an image of their own.
    pub fn canvas_rows(&self, start: u32, count: u32) -> (r: Option<RgbaFrame>)
        requires
            self@.wf(),
            start + count <= self@.valid_height,
        ensures
            match self@.canvas {
                None => r is None,
                Some(c) => r matches Some(f) && f.wf() && f.spec_width() == c.spec_width() && f.spec_height()
                    == count && f.bytes() == c.rows(start as int, start + count),
            },
    {
        let canvas = match &self.canvas {
            Some(c) => c,
            None => return None,
        };
        let w = canvas.width();
        let ghost wb = w as int * 4;
        proof {
            lemma_mul_mono(count as int, canvas.spec_height() as int, wb);
            lemma_mul_mono(start + count, canvas.spec_height() as int, wb);
            lemma_mul_mono(start as int, start + count, wb);
            assert(w as int * count as int * 4 == count as int * wb) by (nonlinear_arith)
                requires
                    wb == w as int * 4,
            ;
            assert(w as int * canvas.spec_height() as int * 4 == canvas.spec_height() as int * wb)
                by (nonlinear_arith)
                requires
                    wb == w as int * 4,
            ;
            assert((start + count) * wb == start * wb + count * wb) by (nonlinear_arith);
        }
        let mut out = RgbaFrame::new(w, count);
        RgbaFrame::copy_region(canvas, start, &mut out, 0, count);
        proof {
            assert(out.bytes() =~= canvas.rows(start as int, start + count));
        }
        Some(out)
    }

    /// Stores a thumbnail rendered from all stitched rows and returns a copy.
    pub fn store_full_thumbnail(&mut self, image: RgbaFrame, target_width: u32) -> (r: RgbaFrame)
        requires
            old(self)@.wf(),
            old(self)@.canvas is Some,
            image.wf(),
            image.spec_width() == target_width,
        ensures
            final(self)@.wf(),
            final(self)@.thumbnail == old(self)@.spec_rendered_thumbnail(image, target_width),
            final(self)@.canvas == old(self)@.canvas,
            final(self)@.valid_height == old(self)@.valid_height,
            final(self)@.reference == old(self)@.reference,
            final(self)@.footer_height == old(self)@.footer_height,
            final(self)@.config == old(self)@.config,
            final(self)@.pending == old(self)@.pending,
            r.spec_width() == image.spec_width() && r.spec_height() == image.spec_height() && r.bytes() == image.bytes(),
    {
        let copy = image.clone();
        let source_width = match &self.canvas {
            Some(c) => c.width(),
            None => 0,
        };
        self.thumbnail.image = Some(image);
        self.thumbnail.target_width = target_width;
        self.thumbnail.source_width = source_width;
        self.thumbnail.source_height = self.valid_height;
        self.thumbnail.dirty_from = self.valid_height;
        copy
    }

    /// Updates the cached thumbnail after an incremental plan and returns a
    /// copy. `preserved_rows` and `target_start` are the plan's `dirty_from`
    /// and `source_start` scaled to the thumbnail; `strip` is the re-rendered
    /// part, `target_width` wide and `target_height - target_start` tall.
    pub fn compose_incremental_thumbnail(
        &mut self,
        target_width: u32,
        target_height: u32,
        preserved_rows: u32,
        target_start: u32,
        strip: Option<RgbaFrame>,
    ) -> (r: RgbaFrame)
        requires
            old(self)@.wf(),
            old(self)@.spec_thumbnail_plan(target_width, target_height) is Incremental,
            target_width as int * 4 <= u32::MAX,
            target_width as int * target_height as int * 4 <= usize::MAX,
            ({
                let plan = old(self)@.spec_thumbnail_plan(target_width, target_height);
                let source_rows = old(self)@.valid_height - plan->source_start;
                let target_rows = sat_sub(target_height as int, target_start as int);
                source_rows > 0 && target_rows > 0 ==> (strip matches Some(st) && st.wf() && st.spec_width()
                    == target_width && st.spec_height() == target_rows)
            }),
        ensures
            final(self)@.wf(),
            final(self)@.canvas == old(self)@.canvas,
            final(self)@.valid_height == old(self)@.valid_height,
            final(self)@.reference == old(self)@.reference,
            final(self)@.footer_height == old(self)@.footer_height,
            final(self)@.config == old(self)@.config,
            final(self)@.pending == old(self)@.pending,
            ({
                let plan = old(self)@.spec_thumbnail_plan(target_width, target_height);
                let prev = old(self)@.thumbnail.image->0;
                let source_rows = old(self)@.valid_height - plan->source_start;
                let expected = spec_composed_thumbnail(
                    prev,
                    target_width,
                    target_height,
                    preserved_rows,
                    target_start,
                    source_rows,
                    match strip {
                        Some(st) => st.bytes(),
                        None => Seq::empty(),
                    },
                );
                &&& final(self)@.thumbnail.target_width == target_width
                &&& final(self)@.thumbnail.source_width == old(self)@.canvas->0.spec_width()
                &&& final(self)@.thumbnail.source_height == old(self)@.valid_height
                &&& final(self)@.thumbnail.dirty_from == old(self)@.valid_height
                &&& final(self)@.thumbnail.image matches Some(t) && t.bytes() == expected && t.spec_height()
                    == target_height && t.spec_width() == target_width
                &&& r.bytes() == expected && r.spec_height() == target_height && r.spec_width() == target_width
            }),
    {
        let valid_h = self.valid_height;
        let dirty_from = if self.thumbnail.dirty_from <= valid_h { self.thumbnail.dirty_from } else { valid_h };
        let source_start = if valid_h > self.thumbnail.source_height {
            if dirty_from >= 1 { dirty_from - 1 } else { 0 }
        } else {
            dirty_from
        };
        let source_h = valid_h - source_start;
        let prev = self.thumbnail.image.take().unwrap();
        let pw = prev.width();
        let ph = prev.height();
        let mut next = if ph == target_height {
            prev
        } else {
            let mut resized = RgbaFrame::new(target_width, target_height);
            let mut copy_rows = preserved_rows;
            if ph < copy_rows {
                copy_rows = ph;
            }
            if target_height < copy_rows {
                copy_rows = target_height;
            }
            proof {
                lemma_mul_mono(copy_rows as int, ph as int, pw as int * 4);
                assert(pw as int * ph as int * 4 == ph as int * (pw as int * 4)) by (nonlinear_arith);
                assert(resized.bytes() =~= zeros(target_width as int * target_height as int * 4));
            }
            if copy_rows > 0 {
                RgbaFrame::copy_region(&prev, 0, &mut resized, 0, copy_rows);
            }
            resized
        };
        let target_h = if target_height >= target_start { target_height - target_start } else { 0 };
        if source_h > 0 && target_h > 0 {
            let st = strip.unwrap();
            proof {
                let wb = target_width as int * 4;
                assert(target_width as int * target_h as int * 4 == target_h as int * wb) by (nonlinear_arith)
                    requires
                        wb == target_width as int * 4,
                ;
                assert(target_width as int * target_height as int * 4 == target_height as int * wb)
                    by (nonlinear_arith)
                    requires
                        wb == target_width as int * 4,
                ;
                assert(target_start + target_h == target_height);
                lemma_mul_mono(target_h as int, target_height as int, wb);
            }
            RgbaFrame::copy_region(&st, 0, &mut next, target_start, target_h);
        }
        let copy = next.clone();
        let source_width = match &self.canvas {
            Some(c) => c.width(),
            None => 0,
        };
        self.thumbnail.image = Some(next);
        self.thumbnail.target_width = target_width;
        self.thumbnail.source_width = source_width;
        self.thumbnail.source_height = valid_h;
        self.thumbnail.dirty_from = valid_h;
        copy
    }

    /// A preview of the stitched rows `target_width` wide, brought up to date
    /// as `thumbnail_plan` says and returned as a copy, or `None` when the plan
    /// is `Unavailable`. `target_height` is the stitched height scaled to
    /// `target_width`; `preserved_rows` and `target_start` are the plan's
    /// `dirty_from` and `source_start` scaled the same way and matter for an
    /// incremental plan only. A full render resizes all stitched rows; an
    /// incremental one resizes the rows from `source_start` on into the rows
    /// from `target_start` on and keeps the cached rows above them.
    pub fn make_thumbnail(
        &mut self,
        target_width: u32,
        target_height: u32,
        preserved_rows: u32,
        target_start: u32,
    ) -> (r: Option<RgbaFrame>)
        requires
            old(self)@.wf(),
            target_width as int * 4 <= u32::MAX,
            target_width as int * target_height as int * 4 <= isize::MAX,
            old(self)@.canvas matches Some(c) ==> c.spec_width() as int * target_height as int * 16 <= isize::MAX,
        ensures
            final(self)@.wf(),
            final(self)@.canvas == old(self)@.canvas,
            final(self)@.valid_height == old(self)@.valid_height,
            final(self)@.reference == old(self)@.reference,
            final(self)@.footer_height == old(self)@.footer_height,
            final(self)@.config == old(self)@.config,
            final(self)@.pending == old(self)@.pending,
            r matches Some(f) ==> f.spec_width() == target_width && f.spec_height() == target_height,
            r matches Some(f) ==> (final(self)@.spec_thumbnail_plan(target_width, target_height) == ThumbnailPlan::Cached
                && (final(self)@.thumbnail.image matches Some(t) && t.bytes() == f.bytes())),
            ({
                let s = old(self)@;
                let c = s.canvas->0;
                let vh = s.valid_height;
                match s.spec_thumbnail_plan(target_width, target_height) {
                    ThumbnailPlan::Unavailable => r is None && final(self)@.thumbnail == s.thumbnail,
                    ThumbnailPlan::Cached => {
                        let t = s.thumbnail.image->0;
                        &&& final(self)@.thumbnail == s.thumbnail
                        &&& r matches Some(f) && f.spec_width() == t.spec_width() && f.spec_height()
                            == t.spec_height() && f.bytes() == t.bytes()
                    },
                    ThumbnailPlan::Full => {
                        let bytes = triangle_resized(c.rows(0, vh as int), c.spec_width(), vh, target_width, target_height);
                        &&& final(self)@.thumbnail.image matches Some(t) && t.spec_width() == target_width
                            && t.spec_height() == target_height && t.bytes() == bytes
                        &&& final(self)@.thumbnail == s.spec_rendered_thumbnail(final(self)@.thumbnail.image->0, target_width)
                        &&& r matches Some(f) && f.spec_width() == target_width && f.spec_height() == target_height
                            && f.bytes() == bytes
                    },
                    ThumbnailPlan::Incremental { source_start, source_rows, .. } => {
                        let target_rows = sat_sub(target_height as int, target_start as int);
                        let strip = if source_rows > 0 && target_rows > 0 {
                            triangle_resized(
                                c.rows(source_start as int, source_start + source_rows),
                                c.spec_width(),
                                source_rows,
                                target_width,
                                target_rows as u32,
                            )
                        } else {
                            Seq::empty()
                        };
                        let expected = spec_composed_thumbnail(
                            s.thumbnail.image->0,
                            target_width,
                            target_height,
                            preserved_rows,
                            target_start,
                            source_rows as int,
                            strip,
                        );
                        &&& final(self)@.thumbnail.target_width == target_width
                        &&& final(self)@.thumbnail.source_width == c.spec_width()
                        &&& final(self)@.thumbnail.source_height == vh
                        &&& final(self)@.thumbnail.dirty_from == vh
                        &&& final(self)@.thumbnail.image matches Some(t) && t.spec_width() == target_width
                            && t.spec_height() == target_height && t.bytes() == expected
                        &&& r matches Some(f) && f.spec_width() == target_width && f.spec_height() == target_height
                            && f.bytes() == expected
                    },
                }
            }),
    {
        match self.thumbnail_plan(target_width, target_height) {
            ThumbnailPlan::Unavailable => None,
            ThumbnailPlan::Cached => self.cached_thumbnail(),
            ThumbnailPlan::Full => {
                let rows = match self.canvas_rows(0, self.valid_height) {
                    Some(f) => f,
                    None => return None,
                };
                let resized = resize_triangle(&rows, target_width, target_height);
                Some(self.store_full_thumbnail(resized, target_width))
            },
            ThumbnailPlan::Incremental { source_start, source_rows, .. } => {
                let target_rows = if target_height >= target_start { target_height - target_start } else { 0 };
                let strip = if source_rows > 0 && target_rows > 0 {
                    let rows = match self.canvas_rows(source_start, source_rows) {
                        Some(f) => f,
                        None => return None,
                    };
                    proof {
                        let cw = rows.spec_width() as int;
                        lemma_mul_mono(target_rows as int, target_height as int, cw * 16);
                        lemma_mul_mono(target_rows as int, target_height as int, target_width as int * 4);
                        assert(cw * target_rows as int * 16 == target_rows as int * (cw * 16)) by (nonlinear_arith);
                        assert(cw * target_height as int * 16 == target_height as int * (cw * 16)) by (nonlinear_arith);
                        assert(target_width as int * target_rows as int * 4 == target_rows as int * (target_width as int
                            * 4)) by (nonlinear_arith);
                        assert(target_width as int * target_height as int * 4 == target_height as int * (
                        target_width as int * 4)) by (nonlinear_arith);
                    }
                    Some(resize_triangle(&rows, target_width, target_rows))
                } else {
                    None
                };
                Some(self.compose_incremental_thumbnail(target_width, target_height, preserved_rows, target_start, strip))
            },
        }
    }

    /// Whether `answer` fits the query of the unfinished frame.
    pub fn accepts(&self, answer: &FrameAnswer) -> (b: bool)
        ensures
            b == self@.accepts_answer(*answer),
    {
        match &self.pending {
            None => false,
            Some(p) => {
                let third = p.next.height / 3;
                let max_band = if third >= 1 { third } else { 1 };
                match (p.stage, *answer) {
                    (FrameStage::Sticky, FrameAnswer::StickyBands { fixed_top, fixed_bottom }) => fixed_top
                        <= max_band && fixed_bottom <= max_band,
                    (FrameStage::Blocks { .. }, FrameAnswer::ContentBlocks { .. }) => true,
                    (FrameStage::Shift { .. }, FrameAnswer::ShiftEstimate { .. }) => true,
                    (FrameStage::Seam { overlap_valid, .. }, FrameAnswer::Seam { cut }) => cut <= overlap_valid,
                    _ => false,
                }
            },
        }
    }

    /// Ends the unfinished frame without stitching it.
    fn reject(
        &mut self,
        prev: FrameRef<A>,
        next: FrameRef<A>,
        keep_next: bool,
        footer: Option<u32>,
        status: StitchFrameStatus,
        warning: Option<String>,
    ) -> (step: FrameStep)
        requires
            old(self)@.pending is None,
        ensures
            final(self)@.canvas == old(self)@.canvas,
            final(self)@.valid_height == old(self)@.valid_height,
            final(self)@.config == old(self)@.config,
            final(self)@.thumbnail == old(self)@.thumbnail,
            final(self)@.pending is None,
            final(self)@.reference == Some(if keep_next { next } else { prev }),
            final(self)@.footer_height == match footer {
                Some(f) => f,
                None => old(self)@.footer_height,
            },
            step == FrameStep::Done(StitchFrameResult { status, height: old(self)@.valid_height as i32, warning }),
    {
        if keep_next {
            self.last_analysis = Some(next);
        } else {
            self.last_analysis = Some(prev);
        }
        if let Some(f) = footer {
            self.last_footer_height = f;
        }
        self.done(status, warning)
    }

    /// Goes on with the unfinished frame, given the frame analysis' answer to
    /// the last query.
    ///
    /// Sticky bands that leave fewer than `min_overlap` scrolling rows, fewer
    /// than `min_content_blocks` textured blocks, a missing shift, a shift
    /// whose score is not confident, a reverse shift, a shift below
    /// `min_scroll_threshold` (stationary), a shift that leaves no or too
    /// little overlap, and a seam that leaves nothing to append all end the
    /// frame without stitching it. Otherwise the frame is stitched below the
    /// kept rows of the canvas.
    #[verifier::rlimit(40)]
    pub fn resume(&mut self, answer: FrameAnswer) -> (step: FrameStep)
        requires
            old(self)@.wf(),
            old(self)@.accepts_answer(answer),
        ensures
            final(self)@.wf(),
            final(self)@.config == old(self)@.config,
            !ends_appended(step) ==> keeps_canvas(old(self)@, final(self)@),
            ({
                let s = old(self)@;
                let t = final(self)@;
                let p = s.pending->0;
                let cfg = s.config;
                let h = p.next.height as int;
                match (p.stage, answer) {
                    (FrameStage::Sticky, FrameAnswer::StickyBands { fixed_top, fixed_bottom }) => {
                        let valid_h = sat_sub(h, fixed_top + fixed_bottom);
                        if valid_h < cfg.min_overlap {
                            &&& s.rejected(t, true, Some(fixed_bottom))
                            &&& done_with(
                                step,
                                StitchFrameStatus::LowConfidence,
                                s.valid_height,
                                Some("Insufficient scrollable content in selection"@),
                            )
                        } else {
                            &&& s.advanced(t, FrameStage::Blocks { fixed_top, fixed_bottom, valid_h: valid_h as u32 })
                            &&& step == FrameStep::Query(
                                FrameQuery::ContentBlocks { region: s.pending_region(fixed_top, fixed_bottom) },
                            )
                        }
                    },
                    (FrameStage::Blocks { fixed_top, fixed_bottom, valid_h }, FrameAnswer::ContentBlocks { count }) => {
                        if count < cfg.min_content_blocks {
                            &&& s.rejected(t, true, Some(fixed_bottom))
                            &&& done_with(
                                step,
                                StitchFrameStatus::LowConfidence,
                                s.valid_height,
                                Some("Not enough textured content to track scrolling"@),
                            )
                        } else {
                            &&& s.advanced(t, FrameStage::Shift { fixed_top, fixed_bottom, valid_h })
                            &&& step == FrameStep::Query(
                                FrameQuery::ShiftEstimate { region: s.pending_region(fixed_top, fixed_bottom) },
                            )
                        }
                    },
                    (FrameStage::Shift { fixed_top, fixed_bottom, valid_h }, FrameAnswer::ShiftEstimate { estimate }) => {
                        match estimate {
                            None => {
                                &&& s.rejected(t, true, Some(fixed_bottom))
                                &&& done_with(
                                    step,
                                    StitchFrameStatus::LowConfidence,
                                    s.valid_height,
                                    Some("Unable to estimate reliable overlap"@),
                                )
                            },
                            Some(e) => if !e.confident {
                                &&& s.rejected(t, false, None)
                                &&& done_with(
                                    step,
                                    StitchFrameStatus::LowConfidence,
                                    s.valid_height,
                                    Some("Low confidence overlap match; keep scrolling smoothly"@),
                                )
                            } else if e.delta < 0 {
                                &&& s.rejected(t, true, Some(fixed_bottom))
                                &&& done_with(
                                    step,
                                    StitchFrameStatus::Reverse,
                                    s.valid_height,
                                    Some("Detected reverse scrolling; capture paused"@),
                                )
                            } else if e.delta < cfg.min_scroll_threshold {
                                &&& s.rejected(t, false, None)
                                &&& done_with(step, StitchFrameStatus::Stationary, s.valid_height, None)
                            } else if e.delta >= valid_h {
                                &&& s.rejected(t, true, Some(fixed_bottom))
                                &&& done_with(
                                    step,
                                    StitchFrameStatus::LowConfidence,
                                    s.valid_height,
                                    Some("Overlap collapsed due to unstable motion"@),
                                )
                            } else if valid_h - e.delta < cfg.min_overlap {
                                &&& s.rejected(t, true, Some(fixed_bottom))
                                &&& done_with(
                                    step,
                                    StitchFrameStatus::LowConfidence,
                                    s.valid_height,
                                    Some("Overlap too small; scroll slower"@),
                                )
                            } else {
                                let overlap_valid = (valid_h - e.delta) as usize;
                                &&& s.advanced(
                                    t,
                                    FrameStage::Seam { fixed_top, fixed_bottom, valid_h, overlap_valid },
                                )
                                &&& step == FrameStep::Query(
                                    FrameQuery::Seam { region: s.pending_region(fixed_top, fixed_bottom), overlap_valid },
                                )
                            },
                        }
                    },
                    (
                        FrameStage::Seam { fixed_top, fixed_bottom, valid_h, overlap_valid },
                        FrameAnswer::Seam { cut },
                    ) => {
                        let trim = overlap_valid - cut;
                        let start = fixed_top + cut;
                        let end = sat_sub(h, fixed_bottom as int);
                        let content_end = sat_sub(s.valid_height as int, s.footer_height as int);
                        let keep = content_end - trim;
                        let append = end - start;
                        let c0 = s.canvas->0;
                        if end <= start {
                            &&& s.rejected(t, true, Some(fixed_bottom))
                            &&& done_with(
                                step,
                                StitchFrameStatus::LowConfidence,
                                s.valid_height,
                                Some("No appendable content after sticky region filtering"@),
                            )
                        } else if trim > content_end {
                            &&& s.rejected(t, true, Some(fixed_bottom))
                            &&& done_with(
                                step,
                                StitchFrameStatus::LowConfidence,
                                s.valid_height,
                                Some("Failed to append frame into scroll canvas"@),
                            )
                        } else {
                            &&& t.canvas matches Some(c) && c.spec_width() == c0.spec_width() && c.spec_height()
                                == spec_grown_height(c0.spec_height(), keep + append) && c.bytes()
                                == spec_stitched_canvas(c0, p.image, keep, start as u32, append)
                            &&& t.valid_height == keep + append
                            &&& t.valid_height == content_end + (valid_h - overlap_valid)
                            &&& t.footer_height == fixed_bottom
                            &&& t.thumbnail == s.thumbnail.spec_mark_dirty_from(
                                if keep <= s.valid_height { keep as u32 } else { s.valid_height },
                            )
                            &&& t.reference == Some(p.next)
                            &&& t.pending is None
                            &&& done_with(step, StitchFrameStatus::Appended, (keep + append) as u32, None)
                        }
                    },
                    _ => false,
                }
            }),
    {
        let pending = self.pending.take().unwrap();
        let PendingFrame { image, prev, next, stage } = pending;
        let h = next.height;
        let w = next.width;
        let third = h / 3;
        let max_band = if third >= 1 { third } else { 1 };
        match (stage, answer) {
            (FrameStage::Sticky, FrameAnswer::StickyBands { fixed_top, fixed_bottom }) => {
                proof {
                    assert(fixed_top + fixed_bottom <= 2 * max_band);
                }
                let fixed = fixed_top + fixed_bottom;
                let valid_h = if h >= fixed { h - fixed } else { 0 };
                if valid_h < self.config.min_overlap {
                    let msg = String::from_str("Insufficient scrollable content in selection");
                    return self.reject(prev, next, true, Some(fixed_bottom), StitchFrameStatus::LowConfidence, Some(msg));
                }
                let region = StitchRegion {
                    width: w as usize,
                    height: h as usize,
                    fixed_top: fixed_top as usize,
                    fixed_bottom: fixed_bottom as usize,
                };
                self.pending = Some(
                    PendingFrame { image, prev, next, stage: FrameStage::Blocks { fixed_top, fixed_bottom, valid_h } },
                );
                FrameStep::Query(FrameQuery::ContentBlocks { region })
            },
            (FrameStage::Blocks { fixed_top, fixed_bottom, valid_h }, FrameAnswer::ContentBlocks { count }) => {
                if count < self.config.min_content_blocks {
                    let msg = String::from_str("Not enough textured content to track scrolling");
                    return self.reject(prev, next, true, Some(fixed_bottom), StitchFrameStatus::LowConfidence, Some(msg));
                }
                let region = StitchRegion {
                    width: w as usize,
                    height: h as usize,
                    fixed_top: fixed_top as usize,
                    fixed_bottom: fixed_bottom as usize,
                };
                self.pending = Some(
                    PendingFrame { image, prev, next, stage: FrameStage::Shift { fixed_top, fixed_bottom, valid_h } },
                );
                FrameStep::Query(FrameQuery::ShiftEstimate { region })
            },
            (FrameStage::Shift { fixed_top, fixed_bottom, valid_h }, FrameAnswer::ShiftEstimate { estimate }) => {
                let e = match estimate {
                    None => {
                        let msg = String::from_str("Unable to estimate reliable overlap");
                        return self.reject(prev, next, true, Some(fixed_bottom), StitchFrameStatus::LowConfidence, Some(msg));
                    },
                    Some(e) => e,
                };
                if !e.confident {
                    let msg = String::from_str("Low confidence overlap match; keep scrolling smoothly");
                    return self.reject(prev, next, false, None, StitchFrameStatus::LowConfidence, Some(msg));
                }
                if e.delta < 0 {
                    let msg = String::from_str("Detected reverse scrolling; capture paused");
                    return self.reject(prev, next, true, Some(fixed_bottom), StitchFrameStatus::Reverse, Some(msg));
                }
                let delta = e.delta as u32;
                if delta < self.config.min_scroll_threshold {
                    return self.reject(prev, next, false, None, StitchFrameStatus::Stationary, None);
                }
                if delta >= valid_h {
                    let msg = String::from_str("Overlap collapsed due to unstable motion");
                    return self.reject(prev, next, true, Some(fixed_bottom), StitchFrameStatus::LowConfidence, Some(msg));
                }
                let overlap_valid = (valid_h - delta) as usize;
                if overlap_valid < self.config.min_overlap as usize {
                    let msg = String::from_str("Overlap too small; scroll slower");
                    return self.reject(prev, next, true, Some(fixed_bottom), StitchFrameStatus::LowConfidence, Some(msg));
                }
                let region = StitchRegion {
                    width: w as usize,
                    height: h as usize,
                    fixed_top: fixed_top as usize,
                    fixed_bottom: fixed_bottom as usize,
                };
                self.pending = Some(
                    PendingFrame {
                        image,
                        prev,
                        next,
                        stage: FrameStage::Seam { fixed_top, fixed_bottom, valid_h, overlap_valid },
                    },
                );
                FrameStep::Query(FrameQuery::Seam { region, overlap_valid })
            },
            (FrameStage::Seam { fixed_top, fixed_bottom, valid_h, overlap_valid }, FrameAnswer::Seam { cut }) => {
                let trim_prev = overlap_valid - cut;
                let append_start = fixed_top as usize + cut;
                let ih = image.height();
                let append_end = (if ih >= fixed_bottom { ih - fixed_bottom } else { 0 }) as usize;
                if append_end <= append_start {
                    let msg = String::from_str("No appendable content after sticky region filtering");
                    return self.reject(prev, next, true, Some(fixed_bottom), StitchFrameStatus::LowConfidence, Some(msg));
                }
                let plan = StitchAppendPlan {
                    trim_amount: trim_prev as u32,
                    append_start_y: append_start as u32,
                    append_end_y: append_end as u32,
                    fixed_bottom,
                };
                if self.execute_stitch(&image, plan) {
                    self.last_analysis = Some(next);
                    self.done(StitchFrameStatus::Appended, None)
                } else {
                    let msg = String::from_str("Failed to append frame into scroll canvas");
                    self.reject(prev, next, true, Some(fixed_bottom), StitchFrameStatus::LowConfidence, Some(msg))
                }
            },
            _ => {
                proof {
                    assert(false);
                }
                self.done(StitchFrameStatus::LowConfidence, None)
            },
        }
    }

    fn done(&self, status: StitchFrameStatus, warning: Option<String>) -> (step: FrameStep)
        ensures
            step == FrameStep::Done(StitchFrameResult { status, height: self@.valid_height as i32, warning }),
    {
        FrameStep::Done(StitchFrameResult { status, height: self.valid_height as i32, warning })
    }

    fn initialize_canvas(&mut self, first_image: RgbaFrame, analysis: A)
        requires
            old(self)@.pending is None,
            first_image.wf(),
            old(self)@.fits_frame(first_image.spec_width(), first_image.spec_height()),
        ensures
            final(self)@.wf(),
            final(self)@.canvas matches Some(c) && c.spec_width() == first_image.spec_width() && c.spec_height()
                == first_image.spec_height() * 3 && c.bytes() == spec_initial_canvas(first_image),
            final(self)@.valid_height == first_image.spec_height(),
            final(self)@.reference == Some(
                FrameRef { analysis, width: first_image.spec_width(), height: first_image.spec_height() },
            ),
            final(self)@.footer_height == 0,
            final(self)@.config == old(self)@.config,
            final(self)@.thumbnail == old(self)@.thumbnail.spec_reset(),
            final(self)@.pending is None,
    {
        let w = first_image.width();
        let h = first_image.height();
        let mut canvas = RgbaFrame::new(w, h * 3);
        proof {
            lemma_mul_mono(0, h as int, w as int * 4);
            lemma_mul_mono(h as int, h as int * 3, w as int * 4);
            assert(w as int * (h as int * 3) * 4 == (h as int * 3) * (w as int * 4)) by (nonlinear_arith);
            assert(canvas.bytes() =~= zeros(w as int * (h as int * 3) * 4));
        }
        RgbaFrame::copy_region(&first_image, 0, &mut canvas, 0, h);
        self.canvas = Some(canvas);
        self.valid_height = h;
        self.last_analysis = Some(FrameRef { analysis, width: w, height: h });
        self.last_footer_height = 0;
        self.thumbnail.reset();
    }

    /// Takes a new frame and its analysis.
    ///
    /// The first frame, or any frame when no reference frame is held, starts
    /// a new canvas. A frame whose size differs from the reference frame
    /// becomes the new reference and is not stitched. Any other frame starts
    /// the queries of `resume`, the first one for its sticky bands.
    pub fn process_frame_detailed(&mut self, new_image: RgbaFrame, analysis: A) -> (step: FrameStep)
        requires
            old(self)@.wf(),
            old(self)@.pending is None,
            new_image.wf(),
            old(self)@.fits_frame(new_image.spec_width(), new_image.spec_height()),
        ensures
            final(self)@.wf(),
            final(self)@.config == old(self)@.config,
            !ends_appended(step) ==> keeps_canvas(old(self)@, final(self)@),
            ({
                let w = new_image.spec_width();
                let h = new_image.spec_height();
                let next = FrameRef { analysis, width: w, height: h };
                if old(self)@.canvas is None || old(self)@.reference is None {
                    &&& final(self)@.canvas matches Some(c) && c.spec_width() == w && c.spec_height() == h * 3
                        && c.bytes() == spec_initial_canvas(new_image)
                    &&& final(self)@.valid_height == h
                    &&& final(self)@.reference == Some(next)
                    &&& final(self)@.footer_height == 0
                    &&& final(self)@.thumbnail == old(self)@.thumbnail.spec_reset()
                    &&& final(self)@.pending is None
                    &&& done_with(step, StitchFrameStatus::Appended, h, None)
                } else if old(self)@.reference->0.width != w || old(self)@.reference->0.height != h {
                    &&& final(self)@.canvas == old(self)@.canvas
                    &&& final(self)@.valid_height == old(self)@.valid_height
                    &&& final(self)@.reference == Some(next)
                    &&& final(self)@.footer_height == 0
                    &&& final(self)@.thumbnail == old(self)@.thumbnail
                    &&& final(self)@.pending is None
                    &&& done_with(
                        step,
                        StitchFrameStatus::LowConfidence,
                        old(self)@.valid_height,
                        Some("Frame geometry changed while scrolling"@),
                    )
                } else {
                    &&& final(self)@.canvas == old(self)@.canvas
                    &&& final(self)@.valid_height == old(self)@.valid_height
                    &&& final(self)@.reference is None
                    &&& final(self)@.footer_height == old(self)@.footer_height
                    &&& final(self)@.thumbnail == old(self)@.thumbnail
                    &&& final(self)@.pending == Some(
                        PendingFrame {
                            image: new_image,
                            prev: old(self)@.reference->0,
                            next,
                            stage: FrameStage::Sticky,
                        },
                    )
                    &&& step == FrameStep::Query(FrameQuery::StickyBands { width: w as usize, height: h as usize })
                }
            }),
    {
        let w = new_image.width();
        let h = new_image.height();
        if self.canvas.is_none() {
            self.initialize_canvas(new_image, analysis);
            return self.done(StitchFrameStatus::Appended, None);
        }
        let prev = match self.last_analysis.take() {
            Some(prev) => prev,
            None => {
                self.initialize_canvas(new_image, analysis);
                return self.done(StitchFrameStatus::Appended, None);
            },
        };
        let next = FrameRef { analysis, width: w, height: h };
        if prev.width != w || prev.height != h {
            self.last_analysis = Some(next);
            self.last_footer_height = 0;
            let msg = String::from_str("Frame geometry changed while scrolling");
            return self.done(StitchFrameStatus::LowConfidence, Some(msg));
        }
        self.pending = Some(PendingFrame { image: new_image, prev, next, stage: FrameStage::Sticky });
        FrameStep::Query(FrameQuery::StickyBands { width: w as usize, height: h as usize })
    }
}

/// A frame that does not end appended leaves the canvas pixels and the
/// stitched height as they were: `views[0]` is the stitcher before
/// `process_frame_detailed`, `views[i + 1]` the stitcher after the call that
/// gave `steps[i]` (that call and each `resume` after it), and none of the
/// steps is an appended result.
pub proof fn lemma_unappended_frame_keeps_canvas<A>(views: Seq<StitcherView<A>>, steps: Seq<FrameStep>)
    requires
        views.len() == steps.len() + 1,
        forall|i: int| 0 <= i < steps.len() ==> !ends_appended(#[trigger] steps[i]),
        forall|i: int|
            0 <= i < steps.len() ==> (!ends_appended(#[trigger] steps[i]) ==> keeps_canvas(views[i], views[i + 1])),
    ensures
        keeps_canvas(views[0], views[views.len() - 1]),
    decreases steps.len(),
{
    if steps.len() > 0 {
        let n = steps.len() - 1;
        assert(!ends_appended(steps[n]));
        lemma_unappended_frame_keeps_canvas(views.take(n + 1), steps.take(n));
        assert(views.take(n + 1)[n] == views[n]);
        assert(views.take(n + 1)[0] == views[0]);
    }
}

/// A canvas started from `first` holds exactly that frame in its first
/// `height` rows, the rows `get_final_image` returns right after it.
pub proof fn lemma_first_frame_is_final_image(first: RgbaFrame, canvas: RgbaFrame)
    requires
        first.wf(),
        canvas.wf(),
        canvas.spec_width() == first.spec_width(),
        canvas.spec_height() == first.spec_height() * 3,
        canvas.bytes() == spec_initial_canvas(first),
    ensures
        canvas.rows(0, first.spec_height() as int) == first.bytes(),
{
    let w = first.spec_width() as int;
    let h = first.spec_height() as int;
    let wb = row_bytes(first.spec_width());
    assert(first.bytes().len() == h * wb) by (nonlinear_arith)
        requires
            first.bytes().len() == w * h * 4,
            wb == w * 4,
    ;
    assert(w * (h * 3) * 4 == 3 * (h * wb)) by (nonlinear_arith)
        requires
            wb == w * 4,
    ;
    assert(0 <= h * wb) by (nonlinear_arith)
        requires
            0 <= h,
            0 <= wb,
    ;
    assert(0 * wb == 0);
    assert(canvas.rows(0, h) =~= first.bytes());
}

/// An appended frame moves the stitched height to the kept content (the
/// height without the last footer) plus the rows the content scrolled: with
/// the seam at `cut` rows into the overlap, `content_end - (overlap_valid -
/// cut)` rows are kept and `valid_h - cut` appended, which is
/// `content_end + valid_h - overlap_valid` whatever the seam.
pub proof fn lemma_append_grows_by_scroll(
    content_end: int,
    valid_h: int,
    overlap_valid: int,
    cut: int,
    fixed_top: int,
    fixed_bottom: int,
    height: int,
)
    requires
        0 <= cut <= overlap_valid <= valid_h,
        valid_h == height - fixed_top - fixed_bottom,
        overlap_valid - cut <= content_end,
        fixed_top + cut < height - fixed_bottom,
    ensures
        ({
            let keep = content_end - (overlap_valid - cut);
            let append = (height - fixed_bottom) - (fixed_top + cut);
            keep + append == content_end + (valid_h - overlap_valid)
        }),
{
}

/// Stitching keeps the first `keep` rows of the canvas as they were and puts
/// rows `[start, start + append)` of the frame right below them, whether or
/// not the canvas had to grow.
pub proof fn lemma_stitch_keeps_prefix_and_appends(
    canvas: RgbaFrame,
    image: RgbaFrame,
    keep: int,
    start: u32,
    append: int,
)
    requires
        canvas.wf(),
        image.wf(),
        canvas.spec_width() == image.spec_width(),
        0 <= keep <= canvas.spec_height(),
        0 <= append,
        start + append <= image.spec_height(),
        keep + append <= u32::MAX,
    ensures
        ({
            let out = spec_stitched_canvas(canvas, image, keep, start, append);
            let wb = row_bytes(canvas.spec_width());
            let cap = spec_grown_height(canvas.spec_height(), keep + append);
            &&& out.len() == cap * wb
            &&& keep + append <= cap
            &&& out.subrange(0, keep * wb) == canvas.rows(0, keep)
            &&& out.subrange(keep * wb, (keep + append) * wb) == image.rows(start as int, start + append)
        }),
{
    let wb = row_bytes(canvas.spec_width());
    let cap = spec_grown_height(canvas.spec_height(), keep + append);
    let ch = canvas.spec_height() as int;
    assert(canvas.bytes().len() == ch * wb) by (nonlinear_arith)
        requires
            canvas.bytes().len() == canvas.spec_width() as int * ch * 4,
            wb == canvas.spec_width() as int * 4,
    ;
    assert(image.bytes().len() == image.spec_height() as int * wb) by (nonlinear_arith)
        requires
            image.bytes().len() == image.spec_width() as int * image.spec_height() as int * 4,
            wb == image.spec_width() as int * 4,
    ;
    assert(0 <= wb);
    lemma_mul_mono(keep, ch, wb);
    lemma_mul_mono(keep, keep + append, wb);
    lemma_mul_mono(start as int, start + append, wb);
    lemma_mul_mono(start + append, image.spec_height() as int, wb);
    assert((keep + append) * wb == keep * wb + append * wb) by (nonlinear_arith);
    assert((start + append) * wb == start * wb + append * wb) by (nonlinear_arith);
    let base = if keep + append > ch {
        spec_copy_rows(canvas.bytes(), canvas.spec_width(), 0, zeros(canvas.spec_width() as int * cap * 4), 0, keep as u32)
    } else {
        canvas.bytes()
    };
    assert(canvas.spec_width() as int * cap * 4 == cap * wb) by (nonlinear_arith)
        requires
            wb == canvas.spec_width() as int * 4,
    ;
    lemma_mul_mono(keep + append, cap, wb);
    assert(base.len() == cap * wb);
    assert(base.subrange(0, keep * wb) =~= canvas.rows(0, keep));
    let out = spec_copy_rows(image.bytes(), image.spec_width(), start, base, keep as u32, append as u32);
    assert(out.subrange(0, keep * wb) =~= canvas.rows(0, keep));
    assert(out.subrange(keep * wb, (keep + append) * wb) =~= image.rows(start as int, start + append));
}

} // verus!
