//! End-to-end scenarios for the scroll stitcher: the verified stitcher
//! driven by the same real-valued frame analysis the application uses,
//! on synthetic scrolling pages.

use image::RgbaImage;
use minnow_capture::frame::RgbaFrame;
use minnow_capture::stitch_search::{
    block_columns, block_count, coarse_shifts, content_rows, fine_shift_range, seam_rows, shift_overlap, shift_search,
    smallest_qualifying_shift, sticky_check_rows,
};
use minnow_capture::stitcher::{
    FrameAnswer, FrameQuery, FrameStep, ScrollStitcher, ShiftEstimate, StitchConfig, StitchFrameResult, StitchRegion,
    ThumbnailPlan,
};

/// The real-valued thresholds of the frame analysis.
#[derive(Debug, Clone, Copy, PartialEq)]
pub struct MatchThresholds {
    pub dynamic_threshold: f32,
    pub content_energy_ratio: f32,
    pub low_confidence_threshold: f32,
    pub low_confidence_gap: f32,
}

impl Default for MatchThresholds {
    fn default() -> Self {
        Self {
            dynamic_threshold: 12.0,
            content_energy_ratio: 0.12,
            low_confidence_threshold: 0.6,
            low_confidence_gap: 0.0,
        }
    }
}

pub fn to_frame(image: RgbaImage) -> RgbaFrame {
    let (width, height) = image.dimensions();
    RgbaFrame::from_raw(width, height, image.into_raw()).expect("an RGBA image holds width * height * 4 bytes")
}

pub fn to_image(frame: RgbaFrame) -> RgbaImage {
    let (width, height) = (frame.width(), frame.height());
    RgbaImage::from_raw(width, height, frame.into_raw()).expect("a frame holds width * height * 4 bytes")
}

/// Grayscale and edge energy of one frame.
#[derive(Default)]
pub struct FrameAnalysis {
    pub width: usize,
    pub height: usize,
    pub gray: Vec<f32>,
    pub edge: Vec<f32>,
}

impl FrameAnalysis {
    pub fn from_frame(frame: &RgbaFrame) -> Self {
        let width = frame.width() as usize;
        let height = frame.height() as usize;
        let gray = grayscale(frame.as_raw());
        let edge = edge_energy(&gray, width, height);
        Self { width, height, gray, edge }
    }
}

fn grayscale(raw: &[u8]) -> Vec<f32> {
    raw.chunks_exact(4)
        .map(|px| (0.299 * f32::from(px[0])) + (0.587 * f32::from(px[1])) + (0.114 * f32::from(px[2])))
        .collect()
}

fn edge_energy(gray: &[f32], width: usize, height: usize) -> Vec<f32> {
    let mut out = vec![0.0; gray.len()];
    if width < 3 || height < 3 {
        return out;
    }
    for y in 1..(height - 1) {
        let row = y * width;
        for x in 1..(width - 1) {
            let i = row + x;
            let gx = gray[i + 1] - gray[i - 1];
            let gy = gray[i + width] - gray[i - width];
            out[i] = gx.abs() + gy.abs();
        }
    }
    out
}

#[derive(Clone, Copy)]
struct FramePairRef<'a> {
    prev: &'a [f32],
    next: &'a [f32],
}

/// Fixed (sticky) header/footer bands: unchanged between frames AND carrying
/// content. Blank rows are unchanged too, but they are scroll space.
fn detect_sticky_regions(
    thresholds: MatchThresholds,
    prev: &[f32],
    next: &[f32],
    edge_prev: &[f32],
    width: usize,
    height: usize,
) -> (u32, u32) {
    if width == 0 || height == 0 {
        return (0, 0);
    }
    let diff_threshold = thresholds.dynamic_threshold;
    let content_threshold = thresholds.dynamic_threshold;
    let max_check = sticky_check_rows(height);

    let row_metrics = |row: usize| -> (f32, f32) {
        let row_start = row * width;
        let mut diff = 0.0f32;
        let mut energy = 0.0f32;
        for x in 0..width {
            let idx = row_start + x;
            diff += (prev[idx] - next[idx]).abs();
            energy += edge_prev[idx];
        }
        (diff / width as f32, energy / width as f32)
    };

    let mut top = 0usize;
    while top < max_check {
        let (diff, energy) = row_metrics(top);
        if diff > diff_threshold || energy < content_threshold {
            break;
        }
        top += 1;
    }

    let mut bottom = 0usize;
    while bottom < max_check {
        let (diff, energy) = row_metrics(height - 1 - bottom);
        if diff > diff_threshold || energy < content_threshold {
            break;
        }
        bottom += 1;
    }

    (top as u32, bottom as u32)
}

/// The column blocks whose edge energy is a meaningful fraction of the
/// busiest block's.
fn detect_content_blocks(
    config: StitchConfig,
    thresholds: MatchThresholds,
    edge_prev: &[f32],
    edge_next: &[f32],
    region: StitchRegion,
    out: &mut Vec<usize>,
) {
    let count = block_count(config, region.width);
    let (y_start, y_end) = content_rows(region);

    out.clear();
    if out.capacity() < count {
        out.reserve(count - out.capacity());
    }

    let mut energies = Vec::with_capacity(count);
    let mut max_energy = 0.0f32;
    for b in 0..count {
        let (x0, x1) = block_columns(config, region.width, b);
        if x1 <= x0 {
            energies.push(0.0);
            continue;
        }
        let mut energy_sum = 0.0f32;
        let mut samples = 0usize;
        for y in y_start..y_end {
            let row = y * region.width;
            for x in x0..x1 {
                let i = row + x;
                energy_sum += edge_prev[i] + edge_next[i];
                samples += 1;
            }
        }
        let energy = if samples == 0 { 0.0 } else { energy_sum / samples as f32 };
        max_energy = max_energy.max(energy);
        energies.push(energy);
    }

    if max_energy <= f32::EPSILON {
        return;
    }
    let threshold = max_energy * thresholds.content_energy_ratio;
    for (b, &energy) in energies.iter().enumerate() {
        if energy >= threshold {
            out.push(b);
        }
    }
}

/// The vertical shift between two frames by scanning candidate shifts with
/// the full-overlap ZNCC: a strided coarse pass (nearest-to-zero shift among
/// near-ties), then a 1px fine pass around it.
fn refine_shift_zncc(
    config: StitchConfig,
    pair: FramePairRef<'_>,
    region: StitchRegion,
    content_blocks: &[usize],
) -> Option<(i32, f32, f32)> {
    let fixed = region.fixed_top.checked_add(region.fixed_bottom).expect("attempt to add with overflow");
    assert!(
        region.height.saturating_sub(fixed) <= i32::MAX as usize
            && config.min_overlap <= i32::MAX as u32
            && config.scan_stride <= i32::MAX as usize,
        "shift search bounds overflow i32"
    );
    let search = shift_search(config, region)?;
    let tie_margin = 0.02f32;
    let stride_us = search.stride as usize;

    assert!(
        search.stride >= 1
            && search.forward_limit.checked_add(search.stride).is_some()
            && search.reverse_limit.checked_add(search.stride).is_some()
            && search.reverse_limit > i32::MIN,
        "attempt to add with overflow"
    );
    let candidates = coarse_shifts(search);
    let mut global_best = f32::MIN;
    let mut scores = Vec::with_capacity(candidates.len());
    for &shift in &candidates {
        let score = zncc_score_for_shift(config, pair, region, shift, content_blocks, stride_us);
        if score > global_best {
            global_best = score;
        }
        scores.push(score);
    }
    let qualifies: Vec<bool> = scores.iter().map(|score| *score >= global_best - tie_margin).collect();
    let coarse_best_shift = smallest_qualifying_shift(&candidates, &qualifies);

    let (fine_start, fine_end) = fine_shift_range(search, coarse_best_shift);
    let mut best_shift = coarse_best_shift;
    let mut best_score = f32::MIN;
    let mut second_score = -2.0f32;
    for shift in fine_start..=fine_end {
        let score = zncc_score_for_shift(config, pair, region, shift, content_blocks, 1);
        if score > best_score {
            second_score = best_score;
            best_score = score;
            best_shift = shift;
        } else if score > second_score {
            second_score = score;
        }
    }

    if best_score < -0.99 {
        return None;
    }
    if second_score < -0.99 {
        second_score = best_score;
    }
    Some((best_shift, best_score, second_score))
}

/// One normalized cross-correlation over the whole overlap for a shift.
fn zncc_score_for_shift(
    config: StitchConfig,
    pair: FramePairRef<'_>,
    region: StitchRegion,
    shift: i32,
    content_blocks: &[usize],
    stride: usize,
) -> f32 {
    let valid_h = region.valid_height() as i32;
    let Some((prev_off, next_off, overlap)) = shift_overlap(config, valid_h, shift) else {
        return -1.0;
    };
    let stride = stride.max(1);
    let base = region.fixed_top;

    let mut sum_p = 0.0f32;
    let mut sum_n = 0.0f32;
    let mut sum_pp = 0.0f32;
    let mut sum_nn = 0.0f32;
    let mut sum_pn = 0.0f32;
    let mut count = 0usize;

    let mut i = 0usize;
    while i < overlap {
        let row_p = (base + prev_off + i) * region.width;
        let row_n = (base + next_off + i) * region.width;
        for &b in content_blocks {
            let (x0, x1) = block_columns(config, region.width, b);
            let mut x = x0;
            while x < x1 {
                let p = pair.prev[row_p + x];
                let n = pair.next[row_n + x];
                sum_p += p;
                sum_n += n;
                sum_pp += p * p;
                sum_nn += n * n;
                sum_pn += p * n;
                count += 1;
                x += stride;
            }
        }
        i += stride;
    }

    if count == 0 {
        return -1.0;
    }
    let n = count as f32;
    let cov = sum_pn - (sum_p * sum_n / n);
    let var_p = (sum_pp - (sum_p * sum_p / n)).max(0.0);
    let var_n = (sum_nn - (sum_n * sum_n / n)).max(0.0);
    let var_floor = n * 1e-3;
    if var_p < var_floor || var_n < var_floor {
        return 0.0;
    }
    let score = cov / (var_p.sqrt() * var_n.sqrt());
    score.clamp(-1.0, 1.0)
}

/// The overlap row whose vertical gradients differ least between the frames.
fn find_smart_seam(
    config: StitchConfig,
    pair: FramePairRef<'_>,
    region: StitchRegion,
    overlap_valid: usize,
    content_blocks: &[usize],
) -> usize {
    let mut best_k = overlap_valid / 2;
    let mut best_energy = f32::MAX;

    let divisor = (config.seam_margin_divisor as usize).max(2);
    let seam_start = overlap_valid / divisor;
    let seam_end = (overlap_valid.saturating_mul(divisor - 1) / divisor).max(seam_start + 1);
    assert!(region.fixed_top.checked_add(seam_end).is_some(), "attempt to add with overflow");
    for k in seam_rows(config, region, overlap_valid) {
        let prev_row = region.fixed_top + k;
        let next_row = k;
        let mut energy = 0.0f32;
        let mut n = 0usize;
        for &b in content_blocks {
            let (x0, x1) = block_columns(config, region.width, b);
            for x in x0..x1 {
                let p_idx = prev_row * region.width + x;
                let p_up = (prev_row - 1) * region.width + x;
                let n_idx = next_row * region.width + x;
                let n_up = (next_row - 1) * region.width + x;
                let p_grad = (pair.prev[p_idx] - pair.prev[p_up]).abs();
                let n_grad = (pair.next[n_idx] - pair.next[n_up]).abs();
                energy += (p_grad - n_grad).abs();
                n += 1;
            }
        }
        if n == 0 {
            continue;
        }
        let avg = energy / n as f32;
        if avg < best_energy {
            best_energy = avg;
            best_k = k;
        }
    }
    best_k
}

/// The stitcher with its frame analysis.
pub struct LongCaptureStitcher {
    core: ScrollStitcher<FrameAnalysis>,
    thresholds: MatchThresholds,
    content_blocks: Vec<usize>,
}

impl Default for LongCaptureStitcher {
    fn default() -> Self {
        Self::new()
    }
}

impl LongCaptureStitcher {
    pub fn new() -> Self {
        Self::with_config(StitchConfig::default(), MatchThresholds::default())
    }

    pub fn with_config(config: StitchConfig, thresholds: MatchThresholds) -> Self {
        Self { core: ScrollStitcher::with_config(config), thresholds, content_blocks: Vec::new() }
    }

    pub fn current_image(&self) -> Option<(&RgbaFrame, u32)> {
        self.core.current_image()
    }

    pub fn get_final_image(&self) -> Option<RgbaImage> {
        self.core.get_final_image().map(to_image)
    }

    pub fn process_frame_detailed(&mut self, new_image: RgbaImage) -> StitchFrameResult {
        let frame = to_frame(new_image);
        assert!(self.core.is_idle(), "a frame is still waiting for its measurements");
        assert!(
            self.core.can_accept(frame.width(), frame.height()),
            "frame of {}x{} overflows the canvas size",
            frame.width(),
            frame.height()
        );
        let analysis = FrameAnalysis::from_frame(&frame);
        let mut step = self.core.process_frame_detailed(frame, analysis);
        loop {
            match step {
                FrameStep::Done(result) => return result,
                FrameStep::Query(query) => {
                    let answer = self.answer(query);
                    assert!(self.core.accepts(&answer), "measurement out of range: {answer:?}");
                    step = self.core.resume(answer);
                }
            }
        }
    }

    fn answer(&mut self, query: FrameQuery) -> FrameAnswer {
        let config = self.core.config();
        let thresholds = self.thresholds;
        let (prev, next) = self.core.pending_pair().expect("a frame is waiting for measurements");
        let pair = FramePairRef { prev: &prev.gray, next: &next.gray };
        match query {
            FrameQuery::StickyBands { width, height } => {
                let (fixed_top, fixed_bottom) =
                    detect_sticky_regions(thresholds, &prev.gray, &next.gray, &prev.edge, width, height);
                FrameAnswer::StickyBands { fixed_top, fixed_bottom }
            }
            FrameQuery::ContentBlocks { region } => {
                detect_content_blocks(config, thresholds, &prev.edge, &next.edge, region, &mut self.content_blocks);
                FrameAnswer::ContentBlocks { count: self.content_blocks.len() }
            }
            FrameQuery::ShiftEstimate { region } => {
                let estimate = refine_shift_zncc(config, pair, region, &self.content_blocks).map(
                    |(delta, best_score, second_score)| {
                        let confidence_gap = best_score - second_score;
                        let confident = !(best_score < thresholds.low_confidence_threshold
                            || confidence_gap < thresholds.low_confidence_gap);
                        ShiftEstimate { delta, confident }
                    },
                );
                FrameAnswer::ShiftEstimate { estimate }
            }
            FrameQuery::Seam { region, overlap_valid } => {
                let cut = find_smart_seam(config, pair, region, overlap_valid, &self.content_blocks);
                FrameAnswer::Seam { cut }
            }
        }
    }

    /// A preview of the stitched rows `target_width` wide, updated
    /// incrementally from the cached one where it can be. The scale is a
    /// real number, so the scaled heights are computed here.
    pub fn make_thumbnail(&mut self, target_width: u32) -> Option<RgbaImage> {
        let (canvas, valid_h) = self.core.current_image()?;
        let source_width = canvas.width();
        let scale = if source_width == 0 { 0.0 } else { target_width as f32 / source_width as f32 };
        let target_height = (valid_h as f32 * scale) as u32;
        let (preserved_rows, target_start) = match self.core.thumbnail_plan(target_width, target_height) {
            ThumbnailPlan::Incremental { dirty_from, source_start, .. } => (
                ((dirty_from as f32) * scale).floor() as u32,
                ((source_start as f32) * scale).floor() as u32,
            ),
            _ => (0, 0),
        };
        assert!(u64::from(target_width) * 4 <= u64::from(u32::MAX), "thumbnail width overflows");
        assert!(
            u128::from(target_width) * u128::from(target_height) * 4 <= isize::MAX as u128
                && u128::from(source_width) * u128::from(target_height) * 16 <= isize::MAX as u128,
            "thumbnail size overflows"
        );
        self.core.make_thumbnail(target_width, target_height, preserved_rows, target_start).map(to_image)
    }
}


fn crop_frame(source: &RgbaImage, y: u32, h: u32) -> RgbaImage {
    image::imageops::crop_imm(source, 0, y, source.width(), h).to_image()
}

/// A text-like page: white background, sparse dark "glyphs" on periodic
/// text lines, with whitespace margins; every line has its own pattern.
fn text_page(width: u32, height: u32) -> RgbaImage {
    let mut page = RgbaImage::from_pixel(width, height, image::Rgba([250, 250, 250, 255]));
    let margin = width / 10;
    for y in 0..height {
        if (y % 20) < 16 {
            let line = y / 20;
            for x in margin..(width - margin) {
                let h = (x.wrapping_mul(2_654_435_761)) ^ (y.wrapping_mul(40_503)) ^ (line.wrapping_mul(2_246_822_519));
                if (h & 0x3) < 2 {
                    let v = (h >> 8 & 0x3f) as u8;
                    page.put_pixel(x, y, image::Rgba([v, v, v, 255]));
                }
            }
        }
    }
    page
}

/// A page whose rows all differ, with no repeating pitch.
fn unique_page(width: u32, height: u32) -> RgbaImage {
    let mut page = RgbaImage::from_pixel(width, height, image::Rgba([250, 250, 250, 255]));
    let margin = width / 10;
    for y in 0..height {
        for x in margin..(width - margin) {
            let h = (x.wrapping_mul(2_654_435_761)) ^ (y.wrapping_mul(2_246_822_519)).wrapping_add(y.wrapping_mul(y));
            if (h & 0x3) < 2 {
                let v = (h >> 8 & 0x3f) as u8;
                page.put_pixel(x, y, image::Rgba([v, v, v, 255]));
            }
        }
    }
    page
}

use minnow_capture::stitcher::StitchFrameStatus;

#[test]
fn stitcher_reconstructs_full_page_on_scroll() {
    let page_w = 300u32;
    let page_h = 1800u32;
    let view_h = 300u32;
    let page = text_page(page_w, page_h);

    for step in [4u32, 8, 12] {
        let mut stitcher = LongCaptureStitcher::new();
        let mut y = 0u32;
        let mut guard = 0;
        loop {
            let _ = stitcher.process_frame_detailed(crop_frame(&page, y, view_h));
            if y + view_h >= page_h {
                break;
            }
            y = (y + step).min(page_h - view_h);
            guard += 1;
            assert!(guard < 5000, "scroll loop failed to terminate");
        }

        let final_img = stitcher.get_final_image().expect("final image");
        assert!(
            final_img.height() >= view_h * 2,
            "step={step}: expected >= {} rows (much more than one viewport), got {}",
            view_h * 2,
            final_img.height()
        );
    }
}

#[test]
fn detect_content_blocks_skips_flat_margins() {
    let page = to_frame(text_page(300, 400));
    let analysis = FrameAnalysis::from_frame(&page);
    let region = StitchRegion { width: analysis.width, height: analysis.height, fixed_top: 0, fixed_bottom: 0 };
    let mut blocks = Vec::new();
    detect_content_blocks(
        StitchConfig::default(),
        MatchThresholds::default(),
        &analysis.edge,
        &analysis.edge,
        region,
        &mut blocks,
    );
    assert!(blocks.len() >= StitchConfig::default().min_content_blocks);
    assert!(!blocks.contains(&0), "flat left margin should not be a content block");
}

#[test]
fn zncc_scores_true_shift_high_and_wrong_shift_low() {
    let page = text_page(240, 900);
    let prev = to_frame(crop_frame(&page, 0, 300));
    let next = to_frame(crop_frame(&page, 20, 300));

    let prev_a = FrameAnalysis::from_frame(&prev);
    let next_a = FrameAnalysis::from_frame(&next);
    let region = StitchRegion { width: prev_a.width, height: prev_a.height, fixed_top: 0, fixed_bottom: 0 };
    let mut blocks = Vec::new();
    detect_content_blocks(
        StitchConfig::default(),
        MatchThresholds::default(),
        &prev_a.edge,
        &next_a.edge,
        region,
        &mut blocks,
    );
    let pair = FramePairRef { prev: &prev_a.gray, next: &next_a.gray };
    let good = zncc_score_for_shift(StitchConfig::default(), pair, region, 20, &blocks, 1);
    let bad = zncc_score_for_shift(StitchConfig::default(), pair, region, 137, &blocks, 1);
    assert!(good > 0.9, "true shift should score high, got {good:.3}");
    assert!(good - bad > 0.3, "true shift must clearly beat a wrong shift ({good:.3} vs {bad:.3})");
}

#[test]
fn stitcher_appends_on_forward_scroll() {
    let mut stitcher = LongCaptureStitcher::new();
    let src = text_page(240, 900);

    assert_eq!(stitcher.process_frame_detailed(crop_frame(&src, 0, 300)).status, StitchFrameStatus::Appended);
    let mut appended = 0;
    for y in [8u32, 16, 24, 32, 40] {
        if stitcher.process_frame_detailed(crop_frame(&src, y, 300)).status == StitchFrameStatus::Appended {
            appended += 1;
        }
    }
    assert!(appended >= 3, "expected most small scrolls to append, got {appended}/5");
    let (_, height) = stitcher.current_image().expect("canvas");
    assert!(height > 300, "canvas should extend past the first frame, got {height}");
}

#[test]
fn stitcher_marks_stationary_for_same_frame() {
    let mut stitcher = LongCaptureStitcher::new();
    let src = text_page(240, 900);
    let first = crop_frame(&src, 40, 300);
    assert_eq!(stitcher.process_frame_detailed(first.clone()).status, StitchFrameStatus::Appended);
    assert_eq!(stitcher.process_frame_detailed(first).status, StitchFrameStatus::Stationary);
}

#[test]
fn thumbnail_keeps_growing_as_canvas_grows() {
    let page = unique_page(300, 6000);
    let view_h = 300u32;
    let mut stitcher = LongCaptureStitcher::new();
    let _ = stitcher.process_frame_detailed(crop_frame(&page, 0, view_h));

    let mut heights = Vec::new();
    let mut y = 0u32;
    for _ in 0..120 {
        y = (y + 12).min(6000 - view_h);
        let _ = stitcher.process_frame_detailed(crop_frame(&page, y, view_h));
        if let Some(t) = stitcher.make_thumbnail(500) {
            heights.push(t.height());
        }
        if y + view_h >= 6000 {
            break;
        }
    }

    let first = *heights.first().expect("some thumbnails");
    let last = *heights.last().expect("some thumbnails");
    assert!(last > first, "thumbnail should grow taller ({first} -> {last})");
    for w in heights.windows(2) {
        assert!(w[1] >= w[0], "thumbnail height regressed: {} -> {}", w[0], w[1]);
    }
}

#[test]
fn stitcher_reports_reverse() {
    let mut stitcher = LongCaptureStitcher::new();
    let src = unique_page(240, 900);
    assert_eq!(stitcher.process_frame_detailed(crop_frame(&src, 60, 300)).status, StitchFrameStatus::Appended);
    let detail = stitcher.process_frame_detailed(crop_frame(&src, 54, 300));
    assert!(matches!(detail.status, StitchFrameStatus::Reverse | StitchFrameStatus::LowConfidence));
}

#[test]
fn slow_sub_threshold_scroll_still_accumulates() {
    let page_h = 900u32;
    let view_h = 300u32;
    let page = text_page(240, page_h);

    let mut stitcher = LongCaptureStitcher::new();
    assert_eq!(stitcher.process_frame_detailed(crop_frame(&page, 0, view_h)).status, StitchFrameStatus::Appended);

    let mut saw_append = false;
    for y in 1..=40u32 {
        if stitcher.process_frame_detailed(crop_frame(&page, y, view_h)).status == StitchFrameStatus::Appended {
            saw_append = true;
        }
    }

    assert!(saw_append, "slow 1px scrolls must eventually append");
    let (_, height) = stitcher.current_image().expect("canvas");
    assert!(height > view_h, "canvas should grow past the first frame, got {height}");
}

#[test]
fn stitched_page_matches_the_source_rows() {
    let page = unique_page(240, 900);
    let mut stitcher = LongCaptureStitcher::new();
    for y in (0..=600u32).step_by(20) {
        let _ = stitcher.process_frame_detailed(crop_frame(&page, y, 300));
    }
    let final_img = stitcher.get_final_image().expect("final image");
    assert!(final_img.height() >= 600);
    let expected = crop_frame(&page, 0, final_img.height());
    assert!(final_img.as_raw() == expected.as_raw(), "stitched rows must equal the page rows");
}
