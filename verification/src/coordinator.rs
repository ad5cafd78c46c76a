use vstd::prelude::*;
use crate::long_capture::LongCaptureEvent;

verus! {

/// The three windows of a long capture.
#[derive(Debug, Clone, Copy, PartialEq, Eq, Structural)]
pub enum LongCaptureWindowKind {
    Frame,
    Toolbar,
    Preview,
}

/// What the long-capture windows show. `P` is the type of the uploaded
/// preview image.
#[derive(Debug)]
pub struct LongCaptureSnapshot<P> {
    pub preview_image: Option<P>,
    pub preview_height_px: i32,
    pub warning_text: String,
    pub busy: bool,
    pub frame_visible: bool,
}

/// A registered window: its id and its handle.
#[derive(Debug)]
pub struct WindowSlot<H> {
    pub id: u64,
    pub handle: H,
}

/// The registered long-capture windows.
#[derive(Debug)]
pub struct LongCaptureWindowHandles<H> {
    pub frame: Option<WindowSlot<H>>,
    pub toolbar: Option<WindowSlot<H>>,
    pub preview: Option<WindowSlot<H>>,
}

/// The coordinator's state: what the windows show, the finished capture
/// (type `I`), the registered windows (handles of type `H`), a revision that
/// grows with each change, and whether the event poller runs.
#[derive(Debug)]
pub struct LongCaptureCoordinatorState<P, I, H> {
    pub snapshot: LongCaptureSnapshot<P>,
    pub capture_image: Option<I>,
    pub handles: LongCaptureWindowHandles<H>,
    pub revision: u64,
    pub poller_running: bool,
}

/// `r + 1`, held at `u64::MAX`.
pub open spec fn bumped(r: u64) -> u64 {
    if r < u64::MAX { (r + 1) as u64 } else { r }
}

/// The state after one event (before the revision moves), and what is left
/// of the final image.
pub open spec fn spec_apply_event<P, I, H>(
    s: LongCaptureCoordinatorState<P, I, H>,
    fin: Option<I>,
    event: LongCaptureEvent<P>,
) -> (LongCaptureCoordinatorState<P, I, H>, Option<I>) {
    match event {
        LongCaptureEvent::Started => (s, fin),
        LongCaptureEvent::Progress { height, preview_image } => (
            LongCaptureCoordinatorState {
                snapshot: LongCaptureSnapshot {
                    preview_height_px: height,
                    preview_image: Some(preview_image),
                    ..s.snapshot
                },
                ..s
            },
            fin,
        ),
        LongCaptureEvent::Warning { text } => (
            LongCaptureCoordinatorState { snapshot: LongCaptureSnapshot { warning_text: text, ..s.snapshot }, ..s },
            fin,
        ),
        LongCaptureEvent::Finished => (
            LongCaptureCoordinatorState {
                capture_image: if fin is Some { fin } else { s.capture_image },
                snapshot: LongCaptureSnapshot { busy: false, ..s.snapshot },
                ..s
            },
            None,
        ),
    }
}

/// The state after the events in order (before the revision moves), and
/// what is left of the final image.
pub open spec fn spec_apply_events<P, I, H>(
    s: LongCaptureCoordinatorState<P, I, H>,
    fin: Option<I>,
    events: Seq<LongCaptureEvent<P>>,
) -> (LongCaptureCoordinatorState<P, I, H>, Option<I>)
    decreases events.len(),
{
    if events.len() == 0 {
        (s, fin)
    } else {
        let (s1, f1) = spec_apply_events(s, fin, events.drop_last());
        spec_apply_event(s1, f1, events.last())
    }
}

impl<P> LongCaptureSnapshot<P> {
    pub fn new() -> (s: Self)
        ensures
            s.preview_image is None,
            s.preview_height_px == 0,
            s.warning_text@ == Seq::<char>::empty(),
            !s.busy,
            s.frame_visible,
    {
        LongCaptureSnapshot {
            preview_image: None,
            preview_height_px: 0,
            warning_text: String::new(),
            busy: false,
            frame_visible: true,
        }
    }
}

impl<P: Clone> LongCaptureSnapshot<P> {
    /// A copy of the snapshot; the preview image is cloned.
    pub fn copy(&self) -> (r: Self)
        ensures
            r.preview_height_px == self.preview_height_px,
            r.warning_text@ == self.warning_text@,
            r.busy == self.busy,
            r.frame_visible == self.frame_visible,
            self.preview_image is None ==> r.preview_image is None,
            self.preview_image matches Some(a) ==> (r.preview_image matches Some(b) && cloned(a, b)),
    {
        LongCaptureSnapshot {
            preview_image: self.preview_image.clone(),
            preview_height_px: self.preview_height_px,
            warning_text: self.warning_text.clone(),
            busy: self.busy,
            frame_visible: self.frame_visible,
        }
    }
}

/// Whether the frame window stays visible after trying to make it
/// click-through: it does when that worked, and is closed otherwise.
pub open spec fn spec_frame_visibility_after_click_through(success: bool) -> bool {
    success
}

pub fn frame_visibility_after_click_through(success: bool) -> (visible: bool)
    ensures
        visible == spec_frame_visibility_after_click_through(success),
{
    success
}

impl<P, I, H> LongCaptureCoordinatorState<P, I, H> {
    /// A state with nothing shown, no capture, no windows, revision `revision`
    /// and no poller.
    pub fn new(revision: u64) -> (s: Self)
        ensures
            s.snapshot.preview_image is None,
            s.snapshot.preview_height_px == 0,
            s.snapshot.warning_text@ == Seq::<char>::empty(),
            !s.snapshot.busy,
            s.snapshot.frame_visible,
            s.capture_image is None,
            s.handles.frame is None && s.handles.toolbar is None && s.handles.preview is None,
            s.revision == revision,
            !s.poller_running,
    {
        LongCaptureCoordinatorState {
            snapshot: LongCaptureSnapshot::new(),
            capture_image: None,
            handles: LongCaptureWindowHandles { frame: None, toolbar: None, preview: None },
            revision,
            poller_running: false,
        }
    }

    pub fn bump_revision(&mut self)
        ensures
            *final(self) == (LongCaptureCoordinatorState { revision: bumped(old(self).revision), ..*old(self) }),
    {
        if self.revision < u64::MAX {
            self.revision = self.revision + 1;
        }
    }

    /// Applies a batch of runtime events in order. `final_image` goes to the
    /// capture at the first `Finished` event. The revision moves once for a
    /// batch that is not empty, and not at all for an empty one.
    pub fn apply_runtime_events(&mut self, events: Vec<LongCaptureEvent<P>>, final_image: Option<I>)
        ensures
            ({
                let (s, _) = spec_apply_events(*old(self), final_image, events@);
                *final(self) == if events@.len() == 0 {
                    *old(self)
                } else {
                    LongCaptureCoordinatorState { revision: bumped(old(self).revision), ..s }
                }
            }),
    {
        let mut changed = false;
        let mut final_image = final_image;
        let ghost start = *self;
        let ghost all = events@;
        let ghost fin0 = final_image;
        for event in it: events
            invariant
                it.seq() == all,
                self.revision == start.revision,
                changed == (it.index() > 0),
                ({
                    let (s, f) = spec_apply_events(start, fin0, all.take(it.index() as int));
                    *self == s && final_image == f
                }),
        {
            proof {
                assert(all.take(it.index() + 1).drop_last() =~= all.take(it.index() as int));
            }
            match event {
                LongCaptureEvent::Started => {
                    changed = true;
                },
                LongCaptureEvent::Progress { height, preview_image } => {
                    self.snapshot.preview_height_px = height;
                    self.snapshot.preview_image = Some(preview_image);
                    changed = true;
                },
                LongCaptureEvent::Warning { text } => {
                    self.snapshot.warning_text = text;
                    changed = true;
                },
                LongCaptureEvent::Finished => {
                    if let Some(image) = final_image.take() {
                        self.capture_image = Some(image);
                    }
                    self.snapshot.busy = false;
                    changed = true;
                },
            }
        }
        proof {
            assert(all.take(all.len() as int) =~= all);
        }
        if changed {
            self.bump_revision();
        }
    }

    pub fn has_registered_windows(&self) -> (b: bool)
        ensures
            b == (self.handles.frame is Some || self.handles.toolbar is Some || self.handles.preview is Some),
    {
        self.handles.frame.is_some() || self.handles.toolbar.is_some() || self.handles.preview.is_some()
    }

    /// Forgets the windows that are no longer alive.
    pub fn clear_dead_windows(&mut self, frame_alive: bool, toolbar_alive: bool, preview_alive: bool)
        ensures
            final(self).handles.frame == if frame_alive { old(self).handles.frame } else { None },
            final(self).handles.toolbar == if toolbar_alive { old(self).handles.toolbar } else { None },
            final(self).handles.preview == if preview_alive { old(self).handles.preview } else { None },
            final(self).snapshot == old(self).snapshot,
            final(self).capture_image == old(self).capture_image,
            final(self).revision == old(self).revision,
            final(self).poller_running == old(self).poller_running,
    {
        if !frame_alive {
            self.handles.frame = None;
        }
        if !toolbar_alive {
            self.handles.toolbar = None;
        }
        if !preview_alive {
            self.handles.preview = None;
        }
    }

    /// Registers the window of `kind`, replacing any earlier one.
    pub fn register_window(&mut self, kind: LongCaptureWindowKind, id: u64, handle: H)
        ensures
            ({
                let slot = Some(WindowSlot { id, handle });
                let h = old(self).handles;
                *final(self) == LongCaptureCoordinatorState {
                    handles: match kind {
                        LongCaptureWindowKind::Frame => LongCaptureWindowHandles { frame: slot, ..h },
                        LongCaptureWindowKind::Toolbar => LongCaptureWindowHandles { toolbar: slot, ..h },
                        LongCaptureWindowKind::Preview => LongCaptureWindowHandles { preview: slot, ..h },
                    },
                    revision: bumped(old(self).revision),
                    ..*old(self)
                }
            }),
    {
        let slot = Some(WindowSlot { id, handle });
        match kind {
            LongCaptureWindowKind::Frame => self.handles.frame = slot,
            LongCaptureWindowKind::Toolbar => self.handles.toolbar = slot,
            LongCaptureWindowKind::Preview => self.handles.preview = slot,
        }
        self.bump_revision();
    }

    /// Records whether the frame window could be made click-through.
    pub fn set_frame_visibility(&mut self, success: bool)
        ensures
            *final(self) == (LongCaptureCoordinatorState {
                snapshot: LongCaptureSnapshot {
                    frame_visible: spec_frame_visibility_after_click_through(success),
                    ..old(self).snapshot
                },
                revision: bumped(old(self).revision),
                ..*old(self)
            }),
    {
        self.snapshot.frame_visible = frame_visibility_after_click_through(success);
        self.bump_revision();
    }

    /// A capture action (copy, save, ...) starts: busy, no warning.
    pub fn start_capture_action(&mut self)
        ensures
            final(self).snapshot.busy,
            final(self).snapshot.warning_text@ == Seq::<char>::empty(),
            final(self).snapshot.preview_image == old(self).snapshot.preview_image,
            final(self).snapshot.preview_height_px == old(self).snapshot.preview_height_px,
            final(self).snapshot.frame_visible == old(self).snapshot.frame_visible,
            final(self).capture_image == old(self).capture_image,
            final(self).handles == old(self).handles,
            final(self).revision == bumped(old(self).revision),
            final(self).poller_running == old(self).poller_running,
    {
        self.snapshot.busy = true;
        self.snapshot.warning_text = String::new();
        self.bump_revision();
    }

    /// A capture action ends with `warning_text` (empty when it worked).
    pub fn finish_capture_action_with_warning(&mut self, warning_text: String)
        ensures
            *final(self) == (LongCaptureCoordinatorState {
                snapshot: LongCaptureSnapshot { busy: false, warning_text, ..old(self).snapshot },
                revision: bumped(old(self).revision),
                ..*old(self)
            }),
    {
        self.snapshot.busy = false;
        self.snapshot.warning_text = warning_text;
        self.bump_revision();
    }

    /// Takes the finished capture; the revision moves when there was one.
    pub fn take_capture_image(&mut self) -> (r: Option<I>)
        ensures
            r == old(self).capture_image,
            *final(self) == (LongCaptureCoordinatorState {
                capture_image: None,
                revision: if r is Some { bumped(old(self).revision) } else { old(self).revision },
                ..*old(self)
            }),
    {
        let image = self.capture_image.take();
        if image.is_some() {
            self.bump_revision();
        }
        image
    }

    /// Marks the poller as running; false when it already was.
    pub fn start_poller(&mut self) -> (started: bool)
        ensures
            started == !old(self).poller_running,
            *final(self) == (LongCaptureCoordinatorState { poller_running: true, ..*old(self) }),
    {
        if self.poller_running {
            return false;
        }
        self.poller_running = true;
        true
    }

    pub fn stop_poller(&mut self)
        ensures
            *final(self) == (LongCaptureCoordinatorState { poller_running: false, ..*old(self) }),
    {
        self.poller_running = false;
    }

    /// Forgets every registered window except the one whose id is `except`.
    pub fn retain_windows_except(&mut self, except: Option<u64>)
        ensures
            ({
                let keep = |slot: Option<WindowSlot<H>>|
                    match slot {
                        Some(w) => if except == Some(w.id) { Some(w) } else { None },
                        None => None,
                    };
                *final(self) == LongCaptureCoordinatorState {
                    handles: LongCaptureWindowHandles {
                        frame: keep(old(self).handles.frame),
                        toolbar: keep(old(self).handles.toolbar),
                        preview: keep(old(self).handles.preview),
                    },
                    ..*old(self)
                }
            }),
    {
        self.handles.frame = Self::keep_if(self.handles.frame.take(), except);
        self.handles.toolbar = Self::keep_if(self.handles.toolbar.take(), except);
        self.handles.preview = Self::keep_if(self.handles.preview.take(), except);
    }

    fn keep_if(slot: Option<WindowSlot<H>>, except: Option<u64>) -> (r: Option<WindowSlot<H>>)
        ensures
            r == match slot {
                Some(w) => if except == Some(w.id) { Some(w) } else { None },
                None => None,
            },
    {
        match slot {
            Some(w) => match except {
                Some(id) => if id == w.id { Some(w) } else { None },
                None => None,
            },
            None => None,
        }
    }
}

/// The batch holds a `Finished` event.
pub open spec fn spec_has_finished<P>(events: Seq<LongCaptureEvent<P>>) -> bool {
    exists|i: int| 0 <= i < events.len() && #[trigger] events[i] is Finished
}

/// Whether the batch holds a `Finished` event (then the final image is
/// fetched for it).
pub fn has_finished_event<P>(events: &Vec<LongCaptureEvent<P>>) -> (b: bool)
    ensures
        b == spec_has_finished(events@),
{
    let mut i: usize = 0;
    while i < events.len()
        invariant
            i <= events@.len(),
            forall|j: int| 0 <= j < i ==> !(#[trigger] events@[j] is Finished),
        decreases events.len() - i,
    {
        if let LongCaptureEvent::Finished = &events[i] {
            return true;
        }
        i = i + 1;
    }
    false
}

/// What the event poller does after a poll.
#[derive(Debug, Clone, Copy, PartialEq, Eq, Structural)]
pub enum PollDecision {
    /// The state changed: refresh the windows (stop when none is alive)
    /// and remember this revision.
    Notify { revision: u64 },
    /// Nothing changed and windows remain: poll again.
    Wait,
    /// Nothing changed and no window remains: stop.
    Stop,
}

/// The poller's decision given the revision it last saw, the revision now,
/// and whether windows are registered.
pub fn poll_decision(seen: u64, current: u64, has_windows: bool) -> (d: PollDecision)
    ensures
        d == if current != seen {
            PollDecision::Notify { revision: current }
        } else if has_windows {
            PollDecision::Wait
        } else {
            PollDecision::Stop
        },
{
    if current != seen {
        PollDecision::Notify { revision: current }
    } else if has_windows {
        PollDecision::Wait
    } else {
        PollDecision::Stop
    }
}

/// A batch of events moves the revision by exactly one (held at `u64::MAX`),
/// and an empty batch changes nothing.
pub proof fn lemma_event_batch_moves_revision_once<P, I, H>(
    s: LongCaptureCoordinatorState<P, I, H>,
    fin: Option<I>,
    events: Seq<LongCaptureEvent<P>>,
)
    ensures
        spec_apply_events(s, fin, events).0.revision == s.revision,
        events.len() == 0 ==> spec_apply_events(s, fin, events) == (s, fin),
    decreases events.len(),
{
    if events.len() > 0 {
        lemma_event_batch_moves_revision_once(s, fin, events.drop_last());
    }
}

/// The final image goes into the capture at the first `Finished` event of a
/// batch; a batch without `Finished` leaves the capture and the busy flag as
/// they were.
pub proof fn lemma_final_image_taken_at_finish<P, I, H>(
    s: LongCaptureCoordinatorState<P, I, H>,
    fin: Option<I>,
    events: Seq<LongCaptureEvent<P>>,
)
    ensures
        (forall|i: int| 0 <= i < events.len() ==> !(#[trigger] events[i] is Finished)) ==> {
            let (t, f) = spec_apply_events(s, fin, events);
            &&& t.capture_image == s.capture_image
            &&& t.snapshot.busy == s.snapshot.busy
            &&& f == fin
        },
        (exists|i: int| 0 <= i < events.len() && #[trigger] events[i] is Finished) ==> {
            let (t, f) = spec_apply_events(s, fin, events);
            &&& !t.snapshot.busy
            &&& f is None
            &&& fin is Some ==> t.capture_image == fin
        },
    decreases events.len(),
{
    if events.len() > 0 {
        let init = events.drop_last();
        lemma_final_image_taken_at_finish(s, fin, init);
        assert forall|i: int| 0 <= i < init.len() implies init[i] == events[i] by {}
        if exists|i: int| 0 <= i < events.len() && #[trigger] events[i] is Finished {
            let i = choose|i: int| 0 <= i < events.len() && #[trigger] events[i] is Finished;
            if i < init.len() {
                assert(init[i] is Finished);
            }
        }
    }
}

/// The warning shown after a batch is the text of the batch's last
/// `Warning` event, also when that text is empty (which clears the warning);
/// a batch without a `Warning` event leaves the shown warning as it was.
pub proof fn lemma_last_warning_is_shown<P, I, H>(
    s: LongCaptureCoordinatorState<P, I, H>,
    fin: Option<I>,
    events: Seq<LongCaptureEvent<P>>,
)
    ensures
        forall|i: int|
            0 <= i < events.len() && (#[trigger] events[i] is Warning) && (forall|j: int|
                i < j < events.len() ==> !(#[trigger] events[j] is Warning)) ==> spec_apply_events(
                s,
                fin,
                events,
            ).0.snapshot.warning_text == events[i]->text,
        (forall|j: int| 0 <= j < events.len() ==> !(#[trigger] events[j] is Warning)) ==> spec_apply_events(
            s,
            fin,
            events,
        ).0.snapshot.warning_text == s.snapshot.warning_text,
    decreases events.len(),
{
    if events.len() > 0 {
        let n = events.len() - 1;
        let init = events.drop_last();
        lemma_last_warning_is_shown(s, fin, init);
        assert(events.last() == events[n]);
        assert forall|j: int| 0 <= j < init.len() implies init[j] == events[j] by {}
        assert forall|i: int|
            0 <= i < events.len() && (#[trigger] events[i] is Warning) && (forall|j: int|
                i < j < events.len() ==> !(#[trigger] events[j] is Warning)) implies spec_apply_events(
                s,
                fin,
                events,
            ).0.snapshot.warning_text == events[i]->text by {
            if i < n {
                assert(!(events[n] is Warning));
                assert(init[i] is Warning);
                assert forall|j: int| i < j < init.len() implies !(#[trigger] init[j] is Warning) by {
                    assert(init[j] == events[j]);
                }
            }
        }
        if forall|j: int| 0 <= j < events.len() ==> !(#[trigger] events[j] is Warning) {
            assert(!(events[n] is Warning));
            assert forall|j: int| 0 <= j < init.len() implies !(#[trigger] init[j] is Warning) by {
                assert(init[j] == events[j]);
            }
        }
    }
}

} // verus!
