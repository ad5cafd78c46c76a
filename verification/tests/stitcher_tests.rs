use minnow_capture::frame::RgbaFrame;
use minnow_capture::stitcher::{
    FrameAnswer, FrameQuery, FrameStep, ScrollStitcher, ShiftEstimate, StitchConfig, StitchFrameResult,
    StitchFrameStatus, StitchRegion, ThumbnailPlan,
};

const W: u32 = 6;

/// Rows `[top, top + height)` of a page whose row `r` is coloured by `r`.
fn page_rows(top: u32, height: u32) -> RgbaFrame {
    rows_of_width(W, top, height)
}

fn rows_of_width(width: u32, top: u32, height: u32) -> RgbaFrame {
    let mut data = Vec::new();
    for r in top..top + height {
        for _ in 0..width {
            data.extend_from_slice(&[(r % 256) as u8, (r / 256) as u8, 7, 255]);
        }
    }
    RgbaFrame::from_raw(width, height, data).expect("frame")
}

fn row_ids(frame: &RgbaFrame) -> Vec<u32> {
    let raw = frame.as_raw();
    let wb = (frame.width() * 4) as usize;
    (0..frame.height() as usize).map(|r| raw[r * wb] as u32 + 256 * raw[r * wb + 1] as u32).collect()
}

fn done(step: FrameStep) -> StitchFrameResult {
    match step {
        FrameStep::Done(r) => r,
        FrameStep::Query(q) => panic!("expected a result, got {q:?}"),
    }
}

/// Feeds a frame and answers the queries with fixed measurements.
fn feed(
    s: &mut ScrollStitcher<u32>,
    top: u32,
    height: u32,
    bands: (u32, u32),
    blocks: usize,
    shift: Option<ShiftEstimate>,
    seam_fraction_half: bool,
) -> StitchFrameResult {
    let frame = page_rows(top, height);
    assert!(s.can_accept(frame.width(), frame.height()));
    let mut step = s.process_frame_detailed(frame, top);
    loop {
        let query = match step {
            FrameStep::Done(r) => return r,
            FrameStep::Query(q) => q,
        };
        let answer = match query {
            FrameQuery::StickyBands { .. } => FrameAnswer::StickyBands { fixed_top: bands.0, fixed_bottom: bands.1 },
            FrameQuery::ContentBlocks { .. } => FrameAnswer::ContentBlocks { count: blocks },
            FrameQuery::ShiftEstimate { .. } => FrameAnswer::ShiftEstimate { estimate: shift },
            FrameQuery::Seam { overlap_valid, .. } => {
                FrameAnswer::Seam { cut: if seam_fraction_half { overlap_valid / 2 } else { 0 } }
            }
        };
        assert!(s.accepts(&answer));
        step = s.resume(answer);
    }
}

fn confident(delta: i32) -> Option<ShiftEstimate> {
    Some(ShiftEstimate { delta, confident: true })
}

#[test]
fn first_frame_starts_the_canvas() {
    let mut s = ScrollStitcher::new();
    let r = done(s.process_frame_detailed(page_rows(0, 300), 0u32));
    assert_eq!(r.status, StitchFrameStatus::Appended);
    assert_eq!(r.height, 300);
    assert!(r.warning.is_none());
    let (canvas, h) = s.current_image().expect("canvas");
    assert_eq!((canvas.width(), canvas.height(), h), (W, 900, 300));
    assert_eq!(row_ids(&s.get_final_image().unwrap()), (0..300).collect::<Vec<_>>());
}

#[test]
fn forward_scroll_appends_exactly_the_new_rows() {
    let mut s = ScrollStitcher::new();
    feed(&mut s, 0, 300, (0, 0), 5, None, true);
    let r = feed(&mut s, 20, 300, (0, 0), 5, confident(20), true);
    assert_eq!(r.status, StitchFrameStatus::Appended);
    assert_eq!(r.height, 320);
    let r = feed(&mut s, 45, 300, (0, 0), 5, confident(25), true);
    assert_eq!(r.status, StitchFrameStatus::Appended);
    assert_eq!(r.height, 345);
    assert_eq!(row_ids(&s.get_final_image().unwrap()), (0..345).collect::<Vec<_>>());
}

#[test]
fn sticky_bands_are_not_repeated() {
    let mut s = ScrollStitcher::new();
    feed(&mut s, 0, 300, (0, 0), 5, None, true);
    // Footer of 10 rows: the first 290 rows scroll.
    let r = feed(&mut s, 20, 300, (0, 10), 5, confident(20), false);
    assert_eq!(r.status, StitchFrameStatus::Appended);
    // keep = 300 - 270 = 30 rows, append rows [0, 290) of the new frame.
    assert_eq!(r.height, 320);
    let ids = row_ids(&s.get_final_image().unwrap());
    assert_eq!(&ids[..30], &(0..30).collect::<Vec<_>>()[..]);
    assert_eq!(&ids[30..], &(20..310).collect::<Vec<_>>()[..]);
}

#[test]
fn canvas_grows_beyond_three_frames() {
    let mut s = ScrollStitcher::new();
    feed(&mut s, 0, 100, (0, 0), 5, None, true);
    let mut top = 0;
    for _ in 0..30 {
        top += 40;
        let r = feed(&mut s, top, 100, (0, 0), 5, confident(40), true);
        assert_eq!(r.status, StitchFrameStatus::Appended);
    }
    let (canvas, h) = s.current_image().unwrap();
    assert_eq!(h, 100 + 30 * 40);
    assert!(canvas.height() >= h);
    assert_eq!(row_ids(&s.get_final_image().unwrap()), (0..h).collect::<Vec<_>>());
}

#[test]
fn small_scrolls_are_stationary_and_keep_the_reference() {
    let mut s = ScrollStitcher::new();
    feed(&mut s, 0, 300, (0, 0), 5, None, true);
    let r = feed(&mut s, 2, 300, (0, 0), 5, confident(2), true);
    assert_eq!(r.status, StitchFrameStatus::Stationary);
    assert!(r.warning.is_none());
    assert_eq!(r.height, 300);
    // The reference is still the first frame, so a shift measured against it
    // appends from the first frame's rows.
    let r = feed(&mut s, 24, 300, (0, 0), 5, confident(24), true);
    assert_eq!(r.status, StitchFrameStatus::Appended);
    assert_eq!(row_ids(&s.get_final_image().unwrap()), (0..324).collect::<Vec<_>>());
}

#[test]
fn rejections_report_their_reason() {
    let mut s = ScrollStitcher::new();
    feed(&mut s, 0, 300, (0, 0), 5, None, true);
    let cases: Vec<(Option<ShiftEstimate>, (u32, u32), usize, StitchFrameStatus, &str)> = vec![
        (confident(10), (0, 0), 2, StitchFrameStatus::LowConfidence, "Not enough textured content to track scrolling"),
        (None, (0, 0), 5, StitchFrameStatus::LowConfidence, "Unable to estimate reliable overlap"),
        (
            Some(ShiftEstimate { delta: 10, confident: false }),
            (0, 0),
            5,
            StitchFrameStatus::LowConfidence,
            "Low confidence overlap match; keep scrolling smoothly",
        ),
        (confident(-6), (0, 0), 5, StitchFrameStatus::Reverse, "Detected reverse scrolling; capture paused"),
        (confident(300), (0, 0), 5, StitchFrameStatus::LowConfidence, "Overlap collapsed due to unstable motion"),
        (confident(290), (0, 0), 5, StitchFrameStatus::LowConfidence, "Overlap too small; scroll slower"),
    ];
    for (shift, bands, blocks, status, text) in cases {
        let r = feed(&mut s, 0, 300, bands, blocks, shift, true);
        assert_eq!(r.status, status);
        assert_eq!(r.warning.as_deref(), Some(text));
        assert_eq!(r.height, 300);
        assert!(s.is_idle());
    }
}

#[test]
fn thick_fixed_bands_leave_too_little_to_track() {
    let mut s = ScrollStitcher::new();
    feed(&mut s, 0, 60, (0, 0), 5, None, true);
    let r = feed(&mut s, 5, 60, (20, 20), 5, confident(5), true);
    assert_eq!(r.status, StitchFrameStatus::LowConfidence);
    assert_eq!(r.warning.as_deref(), Some("Insufficient scrollable content in selection"));
    assert_eq!(r.height, 60);
}

#[test]
fn changed_frame_size_is_not_stitched() {
    let mut s = ScrollStitcher::new();
    feed(&mut s, 0, 300, (0, 0), 5, None, true);
    let r = done(s.process_frame_detailed(page_rows(0, 200), 1u32));
    assert_eq!(r.status, StitchFrameStatus::LowConfidence);
    assert_eq!(r.warning.as_deref(), Some("Frame geometry changed while scrolling"));
    assert_eq!(r.height, 300);
}

#[test]
fn wrong_answers_are_not_accepted() {
    let mut s: ScrollStitcher<u32> = ScrollStitcher::new();
    assert!(!s.accepts(&FrameAnswer::ContentBlocks { count: 1 }));
    done(s.process_frame_detailed(page_rows(0, 30), 0));
    match s.process_frame_detailed(page_rows(5, 30), 5) {
        FrameStep::Query(FrameQuery::StickyBands { width, height }) => assert_eq!((width, height), (W as usize, 30)),
        _ => panic!("expected the sticky band query"),
    }
    assert!(!s.is_idle());
    assert_eq!(s.pending_pair().map(|(a, b)| (*a, *b)), Some((0, 5)));
    assert!(!s.accepts(&FrameAnswer::ContentBlocks { count: 1 }));
    assert!(!s.accepts(&FrameAnswer::StickyBands { fixed_top: 11, fixed_bottom: 0 }));
    assert!(s.accepts(&FrameAnswer::StickyBands { fixed_top: 10, fixed_bottom: 10 }));
}

#[test]
fn region_valid_height_saturates() {
    let region = StitchRegion { width: 10, height: 30, fixed_top: 20, fixed_bottom: 15 };
    assert_eq!(region.valid_height(), 0);
    let region = StitchRegion { width: 10, height: 30, fixed_top: 5, fixed_bottom: 5 };
    assert_eq!(region.valid_height(), 20);
}

#[test]
fn default_config_values() {
    let c = StitchConfig::default();
    assert_eq!((c.min_overlap, c.min_scroll_threshold, c.dynamic_block_size, c.min_content_blocks), (24, 4, 16, 3));
    assert_eq!((c.max_reverse_scroll, c.max_scroll_per_frame, c.scan_stride, c.seam_margin_divisor), (8, 400, 4, 5));
}

#[test]
fn thumbnail_plans_follow_the_cache() {
    let mut s: ScrollStitcher<u32> = ScrollStitcher::new();
    assert_eq!(s.thumbnail_plan(50, 100), ThumbnailPlan::Unavailable);
    feed(&mut s, 0, 300, (0, 0), 5, None, true);
    assert_eq!(s.thumbnail_plan(0, 100), ThumbnailPlan::Unavailable);
    assert_eq!(s.thumbnail_plan(3, 0), ThumbnailPlan::Unavailable);
    assert_eq!(s.thumbnail_plan(3, 150), ThumbnailPlan::Full);

    let full = s.canvas_rows(0, 300).unwrap();
    assert_eq!(row_ids(&full), (0..300).collect::<Vec<_>>());
    let stored = s.store_full_thumbnail(rows_of_width(3, 0, 150), 3);
    assert_eq!(stored.height(), 150);
    assert_eq!(s.thumbnail_plan(3, 150), ThumbnailPlan::Cached);
    assert_eq!(s.thumbnail_plan(4, 150), ThumbnailPlan::Full);

    feed(&mut s, 20, 300, (0, 0), 5, confident(20), true);
    // keep = 160 rows, so the thumbnail is dirty from row 160.
    assert_eq!(
        s.thumbnail_plan(3, 160),
        ThumbnailPlan::Incremental { dirty_from: 160, source_start: 159, source_rows: 161, reuse_whole: false }
    );
    let strip = rows_of_width(3, 1000, 160 - 79);
    let composed = s.compose_incremental_thumbnail(3, 160, 80, 79, Some(strip));
    assert_eq!(composed.height(), 160);
    let ids = row_ids(&composed);
    assert_eq!(&ids[..79], &(0..79).collect::<Vec<_>>()[..]);
    assert_eq!(&ids[79..], &(1000..1081).collect::<Vec<_>>()[..]);
    assert_eq!(s.thumbnail_plan(3, 160), ThumbnailPlan::Cached);
    assert_eq!(s.cached_thumbnail().map(|t| t.height()), Some(160));
}

#[test]
fn make_thumbnail_resizes_and_then_reuses_the_cache() {
    let mut s: ScrollStitcher<u32> = ScrollStitcher::new();
    assert!(s.make_thumbnail(3, 150, 0, 0).is_none());
    feed(&mut s, 0, 300, (0, 0), 5, None, true);

    let full = s.make_thumbnail(3, 150, 0, 0).expect("full render");
    assert_eq!((full.width(), full.height()), (3, 150));
    assert_eq!(full.as_raw().len(), 3 * 150 * 4);
    // Row 10 of the half-height preview blends source rows 19..=22.
    let red = full.as_raw()[10 * 3 * 4];
    assert!((20..=21).contains(&red), "row 10 should average rows 20 and 21, got {red}");

    let cached = s.make_thumbnail(3, 150, 0, 0).expect("cached");
    assert_eq!(cached.as_raw(), full.as_raw());

    feed(&mut s, 20, 300, (0, 0), 5, confident(20), true);
    assert_eq!(
        s.thumbnail_plan(3, 160),
        ThumbnailPlan::Incremental { dirty_from: 160, source_start: 159, source_rows: 161, reuse_whole: false }
    );
    let grown = s.make_thumbnail(3, 160, 80, 79).expect("incremental render");
    assert_eq!((grown.width(), grown.height()), (3, 160));
    assert_eq!(&grown.as_raw()[..79 * 12], &full.as_raw()[..79 * 12]);
    assert_eq!(s.thumbnail_plan(3, 160), ThumbnailPlan::Cached);
}

#[test]
fn thumbnail_of_another_height_is_rendered_anew() {
    let mut s: ScrollStitcher<u32> = ScrollStitcher::new();
    feed(&mut s, 0, 300, (0, 0), 5, None, true);
    let small = s.make_thumbnail(3, 1, 0, 0).expect("thumbnail");
    assert_eq!((small.width(), small.height()), (3, 1));
    assert_eq!(s.thumbnail_plan(3, 5), ThumbnailPlan::Full);
    let taller = s.make_thumbnail(3, 5, 0, 0).expect("thumbnail");
    assert_eq!((taller.width(), taller.height()), (3, 5));
    let again = s.make_thumbnail(3, 5, 0, 0).expect("thumbnail");
    assert_eq!(again.as_raw(), taller.as_raw());
}

#[test]
fn first_frame_is_the_final_image() {
    let mut s: ScrollStitcher<u32> = ScrollStitcher::new();
    let frame = page_rows(7, 40);
    let expected = frame.as_raw().clone();
    let r = done(s.process_frame_detailed(frame, 0));
    assert_eq!(r.status, StitchFrameStatus::Appended);
    let img = s.get_final_image().expect("final image");
    assert_eq!((img.width(), img.height()), (W, 40));
    assert_eq!(img.as_raw(), &expected);
}
