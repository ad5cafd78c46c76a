use minnow_capture::frame::RgbaFrame;
use minnow_capture::long_capture::CaptureLoopState;
use minnow_capture::stitcher::StitchFrameStatus;

#[test]
fn first_append_emits_a_preview_and_later_ones_wait_for_the_interval() {
    let mut s = CaptureLoopState::new();
    let a = s.on_frame(StitchFrameStatus::Appended, None, false);
    assert!(a.emit_preview && !a.clear_warning && a.warning.is_none());
    let a = s.on_frame(StitchFrameStatus::Appended, None, false);
    assert!(!a.emit_preview);
    let a = s.on_frame(StitchFrameStatus::Appended, None, true);
    assert!(a.emit_preview);
}

#[test]
fn six_unstable_frames_warn_and_an_append_clears_it() {
    let mut s = CaptureLoopState::new();
    for _ in 0..5 {
        let a = s.on_frame(StitchFrameStatus::LowConfidence, Some("x".to_string()), true);
        assert!(a.warning.is_none());
    }
    let a = s.on_frame(StitchFrameStatus::Reverse, None, true);
    assert_eq!(a.warning.as_deref(), Some("Long capture is unstable; try smoother scrolling"));
    let a = s.on_frame(StitchFrameStatus::LowConfidence, Some("Overlap too small; scroll slower".to_string()), true);
    assert_eq!(a.warning.as_deref(), Some("Overlap too small; scroll slower"));
    assert!(s.warned);
    let a = s.on_frame(StitchFrameStatus::Appended, None, false);
    assert!(a.clear_warning);
    assert_eq!(s.low_confidence_streak, 0);
    assert!(!s.warned);
}

#[test]
fn stationary_frames_reset_the_streak() {
    let mut s = CaptureLoopState::new();
    for _ in 0..5 {
        s.on_frame(StitchFrameStatus::LowConfidence, None, false);
    }
    let a = s.on_frame(StitchFrameStatus::Stationary, None, false);
    assert!(!a.emit_preview && !a.clear_warning && a.warning.is_none());
    let a = s.on_frame(StitchFrameStatus::LowConfidence, None, false);
    assert!(a.warning.is_none());
}

#[test]
fn cropped_frames_are_forced_opaque() {
    // A 200x100 selection cropped out of a uniform, fully transparent screen.
    let mut data = Vec::new();
    for _ in 0..(200 * 100) {
        data.extend_from_slice(&[25, 50, 75, 0]);
    }
    let mut frame = RgbaFrame::from_raw(200, 100, data).unwrap();
    frame.normalize_alpha_opaque();
    assert!(frame.as_raw().chunks_exact(4).all(|px| px[3] == 255));
    assert!(frame.as_raw().chunks_exact(4).all(|px| px == [25, 50, 75, 255]));
}

#[test]
fn frames_need_exactly_their_pixel_bytes() {
    assert!(RgbaFrame::from_raw(2, 2, vec![0; 15]).is_none());
    assert!(RgbaFrame::from_raw(2, 2, vec![0; 17]).is_none());
    let f = RgbaFrame::new(3, 2);
    assert_eq!(f.as_raw().len(), 24);
    assert!(f.as_raw().iter().all(|b| *b == 0));
}

#[test]
fn crop_takes_the_region_row_by_row() {
    let mut data = Vec::new();
    for y in 0..4u8 {
        for x in 0..5u8 {
            data.extend_from_slice(&[x, y, 9, 255]);
        }
    }
    let frame = RgbaFrame::from_raw(5, 4, data).unwrap();
    let region = frame.crop(1, 2, 3, 2).expect("inside the frame");
    assert_eq!((region.width(), region.height()), (3, 2));
    let pixels: Vec<(u8, u8)> = region.as_raw().chunks_exact(4).map(|p| (p[0], p[1])).collect();
    assert_eq!(pixels, vec![(1, 2), (2, 2), (3, 2), (1, 3), (2, 3), (3, 3)]);
    assert!(frame.crop(3, 0, 3, 1).is_none());
    assert!(frame.crop(0, 3, 1, 2).is_none());
}
