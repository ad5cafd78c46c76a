use vstd::prelude::*;
use vstd::string::StringExecFns;
use crate::stitcher::StitchFrameStatus;

verus! {

/// What the long-capture loop reports. `I` is the type of the preview image.
#[derive(Debug)]
pub enum LongCaptureEvent<I> {
    Started,
    Progress { height: i32, preview_image: I },
    Warning { text: String },
    Finished,
}

/// Low-confidence frames in a row after which the loop warns.
pub const LOW_CONFIDENCE_WARNING_STREAK: usize = 6;

/// The loop's memory between frames.
#[derive(Debug, Clone, Copy, PartialEq, Eq, Structural)]
pub struct CaptureLoopState {
    pub low_confidence_streak: usize,
    pub warned: bool,
    pub preview_emitted: bool,
}

/// What the loop does after one stitched frame.
#[derive(Debug)]
pub struct CaptureLoopAction {
    /// Send an empty warning, which clears the shown one.
    pub clear_warning: bool,
    /// Render a thumbnail, send it as progress when there is one, and
    /// restart the preview interval.
    pub emit_preview: bool,
    /// Send this warning.
    pub warning: Option<String>,
}

impl CaptureLoopState {
    pub fn new() -> (s: Self)
        ensures
            s == (CaptureLoopState { low_confidence_streak: 0, warned: false, preview_emitted: false }),
    {
        CaptureLoopState { low_confidence_streak: 0, warned: false, preview_emitted: false }
    }

    /// Decides what to do after a frame of status `status` (with the
    /// stitcher's `warning`), given whether the preview interval has passed
    /// since the last preview.
    pub fn on_frame(&mut self, status: StitchFrameStatus, warning: Option<String>, preview_interval_elapsed: bool) -> (a:
        CaptureLoopAction)
        requires
            old(self).low_confidence_streak < usize::MAX,
        ensures
            match status {
                StitchFrameStatus::Appended => {
                    &&& final(self).low_confidence_streak == 0
                    &&& final(self).warned == false
                    &&& a.clear_warning == old(self).warned
                    &&& a.emit_preview == (!old(self).preview_emitted || preview_interval_elapsed)
                    &&& final(self).preview_emitted == (old(self).preview_emitted || a.emit_preview)
                    &&& a.warning is None
                },
                StitchFrameStatus::Stationary => {
                    &&& *final(self) == CaptureLoopState { low_confidence_streak: 0, ..*old(self) }
                    &&& !a.clear_warning && !a.emit_preview && a.warning is None
                },
                StitchFrameStatus::LowConfidence | StitchFrameStatus::Reverse => {
                    let streak = old(self).low_confidence_streak + 1;
                    &&& final(self).low_confidence_streak == streak
                    &&& final(self).preview_emitted == old(self).preview_emitted
                    &&& final(self).warned == (old(self).warned || streak >= LOW_CONFIDENCE_WARNING_STREAK)
                    &&& !a.clear_warning && !a.emit_preview
                    &&& (streak >= LOW_CONFIDENCE_WARNING_STREAK) == a.warning is Some
                    &&& a.warning matches Some(w) ==> (match warning {
                        Some(given) => w@ == given@,
                        None => w@ == "Long capture is unstable; try smoother scrolling"@,
                    })
                },
            },
    {
        match status {
            StitchFrameStatus::Appended => {
                self.low_confidence_streak = 0;
                let clear_warning = self.warned;
                self.warned = false;
                let emit_preview = !self.preview_emitted || preview_interval_elapsed;
                if emit_preview {
                    self.preview_emitted = true;
                }
                CaptureLoopAction { clear_warning, emit_preview, warning: None }
            },
            StitchFrameStatus::Stationary => {
                self.low_confidence_streak = 0;
                CaptureLoopAction { clear_warning: false, emit_preview: false, warning: None }
            },
            StitchFrameStatus::LowConfidence | StitchFrameStatus::Reverse => {
                self.low_confidence_streak = self.low_confidence_streak + 1;
                if self.low_confidence_streak >= LOW_CONFIDENCE_WARNING_STREAK {
                    self.warned = true;
                    let text = match warning {
                        Some(w) => w,
                        None => String::from_str("Long capture is unstable; try smoother scrolling"),
                    };
                    CaptureLoopAction { clear_warning: false, emit_preview: false, warning: Some(text) }
                } else {
                    CaptureLoopAction { clear_warning: false, emit_preview: false, warning: None }
                }
            },
        }
    }
}

} // verus!
