//! Holding work for the front end until it has told the back end that it is ready.
//!
//! A capture request (`--capture`, the `flashcap://capture` URL, the menu bar), an
//! image to open, or a request to highlight the capture button can all arrive before
//! the web view has loaded its listeners. Such work is held here and handed over, in
//! one piece and once only, when `frontend-ready` arrives. Once the front end is
//! ready, requests are not held: they go straight through.
use vstd::prelude::*;

verus! {

/// The kind of capture that the front end is asked to run.
#[derive(Clone, Copy, Debug, PartialEq, Eq, Structural)]
pub enum CaptureKind {
    Interactive,
    Timer,
}

impl CaptureKind {
    /// The name of the command that the front end runs for this kind of capture.
    pub open spec fn command_name(self) -> Seq<char> {
        match self {
            CaptureKind::Interactive => "take_screenshot_interactive"@,
            CaptureKind::Timer => "take_screenshot_timer"@,
        }
    }

    /// The command that the front end's `captureScreen()` runs (the payload of `do-capture`).
    pub fn command(self) -> (r: &'static str)
        ensures
            r@ == self.command_name(),
    {
        match self {
            CaptureKind::Interactive => "take_screenshot_interactive",
            CaptureKind::Timer => "take_screenshot_timer",
        }
    }
}

/// The work that was held until the front end became ready.
#[derive(Debug)]
pub struct PendingWork {
    /// The capture that was asked for last, if any.
    pub capture: Option<CaptureKind>,
    /// The images to open, in the order in which they arrived.
    pub files: Vec<String>,
    /// Whether the capture button is to be highlighted.
    pub reactivate: bool,
}

/// The abstract state of the handshake.
pub struct HandshakeState {
    pub ready: bool,
    pub capture: Option<CaptureKind>,
    pub files: Seq<Seq<char>>,
    pub reactivate: bool,
}

/// The abstract content of a `PendingWork`.
pub struct WorkState {
    pub capture: Option<CaptureKind>,
    pub files: Seq<Seq<char>>,
    pub reactivate: bool,
}

impl PendingWork {
    pub open spec fn state(&self) -> WorkState {
        WorkState { capture: self.capture, files: self.files.deep_view(), reactivate: self.reactivate }
    }
}

/// The state in which nothing has happened yet (a cold start).
pub open spec fn initial_state() -> HandshakeState {
    HandshakeState { ready: false, capture: None, files: seq![], reactivate: false }
}

/// What `mark_ready` hands over in state `s`.
pub open spec fn held_work(s: HandshakeState) -> WorkState {
    WorkState { capture: s.capture, files: s.files, reactivate: s.reactivate }
}

/// Whether a piece of work carries nothing.
pub open spec fn is_empty_work(w: WorkState) -> bool {
    w.capture is None && w.files.len() == 0 && !w.reactivate
}

/// The state after `frontend-ready`: ready, with nothing held.
pub open spec fn after_mark_ready(s: HandshakeState) -> HandshakeState {
    HandshakeState { ready: true, capture: None, files: seq![], reactivate: false }
}

/// The state after a capture request of kind `kind`.
pub open spec fn after_request_capture(s: HandshakeState, kind: CaptureKind) -> HandshakeState {
    if s.ready {
        s
    } else {
        HandshakeState { capture: Some(kind), ..s }
    }
}

/// The state after a request to highlight the capture button.
pub open spec fn after_request_reactivate(s: HandshakeState) -> HandshakeState {
    if s.ready {
        s
    } else {
        HandshakeState { reactivate: true, ..s }
    }
}

/// The state after a request to open `files`.
pub open spec fn after_request_open_files(
    s: HandshakeState,
    files: Seq<Seq<char>>,
) -> HandshakeState {
    if s.ready {
        s
    } else {
        HandshakeState { files: s.files + files, ..s }
    }
}

/// The state after a capture is reserved for a cold start with `--capture`.
pub open spec fn after_set_capture_pending(s: HandshakeState) -> HandshakeState {
    HandshakeState { capture: Some(CaptureKind::Interactive), ..s }
}

/// The front end's readiness, and the work held for it.
pub struct FrontendHandshake {
    frontend_ready: bool,
    capture_pending: Option<CaptureKind>,
    pending_files: Vec<String>,
    reactivate_pending: bool,
}

impl View for FrontendHandshake {
    type V = HandshakeState;

    closed spec fn view(&self) -> HandshakeState {
        HandshakeState {
            ready: self.frontend_ready,
            capture: self.capture_pending,
            files: self.pending_files.deep_view(),
            reactivate: self.reactivate_pending,
        }
    }
}

impl Default for FrontendHandshake {
    fn default() -> (r: Self)
        ensures
            r@ == initial_state(),
    {
        let r = FrontendHandshake {
            frontend_ready: false,
            capture_pending: None,
            pending_files: Vec::new(),
            reactivate_pending: false,
        };
        assert(r@.files =~= seq![]);
        r
    }
}

impl FrontendHandshake {
    /// Records `frontend-ready` and takes out the work that was held (which is then gone).
    pub fn mark_ready(&mut self) -> (work: PendingWork)
        ensures
            work.state() == held_work(old(self)@),
            final(self)@ == after_mark_ready(old(self)@),
    {
        self.frontend_ready = true;
        let capture = self.capture_pending.take();
        let mut files: Vec<String> = Vec::new();
        core::mem::swap(&mut files, &mut self.pending_files);
        let reactivate = self.reactivate_pending;
        self.reactivate_pending = false;
        assert(self.pending_files.deep_view() =~= seq![]);
        PendingWork { capture, files, reactivate }
    }

    /// Asks for the capture button to be highlighted. Returns `true` when the front end
    /// is ready (highlight now); otherwise the request is held and `false` is returned.
    pub fn request_reactivate(&mut self) -> (now: bool)
        ensures
            now == old(self)@.ready,
            final(self)@ == after_request_reactivate(old(self)@),
    {
        if self.frontend_ready {
            true
        } else {
            self.reactivate_pending = true;
            false
        }
    }

    /// Asks for a capture. Returns `true` when the front end is ready (emit `do-capture`
    /// now); otherwise the capture is held, replacing one held before, and `false` is
    /// returned.
    pub fn request_capture(&mut self, kind: CaptureKind) -> (now: bool)
        ensures
            now == old(self)@.ready,
            final(self)@ == after_request_capture(old(self)@, kind),
    {
        if self.frontend_ready {
            true
        } else {
            self.capture_pending = Some(kind);
            false
        }
    }

    /// Asks for images to be opened. When the front end is ready the paths come back
    /// unchanged (emit `open-file` now); otherwise they are held after those held before
    /// and `None` is returned.
    pub fn request_open_files(&mut self, files: Vec<String>) -> (now: Option<Vec<String>>)
        ensures
            old(self)@.ready ==> now == Some(files),
            !old(self)@.ready ==> now is None,
            final(self)@ == after_request_open_files(old(self)@, files.deep_view()),
    {
        if self.frontend_ready {
            Some(files)
        } else {
            let ghost before = self.pending_files.deep_view();
            let mut files = files;
            let ghost added = files.deep_view();
            self.pending_files.append(&mut files);
            assert(self.pending_files.deep_view() =~= before + added);
            None
        }
    }

    /// Reserves an interactive capture before the front end is ready (a cold start
    /// with `--capture`).
    pub fn set_capture_pending(&mut self)
        ensures
            final(self)@ == after_set_capture_pending(old(self)@),
    {
        self.capture_pending = Some(CaptureKind::Interactive);
    }

    /// Whether `frontend-ready` has arrived.
    pub fn is_ready(&self) -> (r: bool)
        ensures
            r == self@.ready,
    {
        self.frontend_ready
    }

    /// Whether a capture is held.
    pub fn is_capture_pending(&self) -> (r: bool)
        ensures
            r == self@.capture is Some,
    {
        self.capture_pending.is_some()
    }

    /// Whether images to open are held.
    pub fn is_open_pending(&self) -> (r: bool)
        ensures
            r == (self@.files.len() > 0),
    {
        self.pending_files.len() > 0
    }
}


/// Something that happens to the handshake.
pub enum HandshakeEvent {
    /// `frontend-ready` arrives (`mark_ready`).
    Ready,
    /// A capture of the given kind is asked for (`request_capture`).
    Capture(CaptureKind),
    /// The capture button is to be highlighted (`request_reactivate`).
    Reactivate,
    /// Images are to be opened (`request_open_files`).
    OpenFiles(Seq<Seq<char>>),
    /// A cold start with `--capture` (`set_capture_pending`).
    ReserveCapture,
}

/// The state after one event.
pub open spec fn step(s: HandshakeState, e: HandshakeEvent) -> HandshakeState {
    match e {
        HandshakeEvent::Ready => after_mark_ready(s),
        HandshakeEvent::Capture(kind) => after_request_capture(s, kind),
        HandshakeEvent::Reactivate => after_request_reactivate(s),
        HandshakeEvent::OpenFiles(files) => after_request_open_files(s, files),
        HandshakeEvent::ReserveCapture => after_set_capture_pending(s),
    }
}

/// The state after a sequence of events, in order.
pub open spec fn run_events(s: HandshakeState, evs: Seq<HandshakeEvent>) -> HandshakeState
    decreases evs.len(),
{
    if evs.len() == 0 {
        s
    } else {
        run_events(step(s, evs[0]), evs.drop_first())
    }
}

/// The images that a sequence of events asks to open, in order.
pub open spec fn files_requested(evs: Seq<HandshakeEvent>) -> Seq<Seq<char>>
    decreases evs.len(),
{
    if evs.len() == 0 {
        seq![]
    } else {
        let first = match evs[0] {
            HandshakeEvent::OpenFiles(files) => files,
            _ => seq![],
        };
        first + files_requested(evs.drop_first())
    }
}

/// The capture held after a sequence of events before readiness: the last one asked for.
pub open spec fn capture_requested(held: Option<CaptureKind>, evs: Seq<HandshakeEvent>) -> Option<
    CaptureKind,
>
    decreases evs.len(),
{
    if evs.len() == 0 {
        held
    } else {
        let next = match evs[0] {
            HandshakeEvent::Capture(kind) => Some(kind),
            HandshakeEvent::ReserveCapture => Some(CaptureKind::Interactive),
            _ => held,
        };
        capture_requested(next, evs.drop_first())
    }
}

/// Whether a sequence of events asks for the capture button to be highlighted.
pub open spec fn reactivate_requested(evs: Seq<HandshakeEvent>) -> bool {
    exists|i: int| 0 <= i < evs.len() && evs[i] is Reactivate
}

/// Whether no event of the sequence is `frontend-ready`.
pub open spec fn before_ready(evs: Seq<HandshakeEvent>) -> bool {
    forall|i: int| 0 <= i < evs.len() ==> !(evs[i] is Ready)
}

/// Until the front end is ready, every request is held: images in the order in which
/// they arrived, the capture last asked for with its kind, and a highlight request.
pub proof fn law_requests_are_held_until_ready(s: HandshakeState, evs: Seq<HandshakeEvent>)
    requires
        !s.ready,
        before_ready(evs),
    ensures
        !run_events(s, evs).ready,
        run_events(s, evs).files == s.files + files_requested(evs),
        run_events(s, evs).capture == capture_requested(s.capture, evs),
        run_events(s, evs).reactivate == (s.reactivate || reactivate_requested(evs)),
    decreases evs.len(),
{
    if evs.len() == 0 {
        assert(s.files + seq![] =~= s.files);
    } else {
        let t = step(s, evs[0]);
        let rest = evs.drop_first();
        assert(before_ready(rest)) by {
            assert forall|i: int| 0 <= i < rest.len() implies !(rest[i] is Ready) by {
                assert(rest[i] == evs[i + 1]);
            }
        }
        law_requests_are_held_until_ready(t, rest);
        let first = match evs[0] {
            HandshakeEvent::OpenFiles(files) => files,
            _ => seq![],
        };
        assert(t.files == s.files + first);
        assert(s.files + files_requested(evs) =~= (s.files + first) + files_requested(rest));
        if reactivate_requested(evs) {
            let i = choose|i: int| 0 <= i < evs.len() && evs[i] is Reactivate;
            if i > 0 {
                assert(rest[i - 1] is Reactivate);
            }
        }
        if reactivate_requested(rest) {
            let i = choose|i: int| 0 <= i < rest.len() && rest[i] is Reactivate;
            assert(evs[i + 1] is Reactivate);
        }
    }
}

/// `frontend-ready` hands over everything that was held, and leaves nothing behind:
/// a second `frontend-ready` hands over nothing.
pub proof fn law_held_work_is_taken_exactly_once(s: HandshakeState)
    ensures
        held_work(s).files == s.files,
        held_work(s).capture == s.capture,
        held_work(s).reactivate == s.reactivate,
        after_mark_ready(s).ready,
        is_empty_work(held_work(after_mark_ready(s))),
        after_mark_ready(after_mark_ready(s)) == after_mark_ready(s),
{
}

/// Once the front end is ready it stays ready, whatever happens next.
pub proof fn law_ready_is_permanent(s: HandshakeState, evs: Seq<HandshakeEvent>)
    requires
        s.ready,
    ensures
        run_events(s, evs).ready,
    decreases evs.len(),
{
    if evs.len() > 0 {
        law_ready_is_permanent(step(s, evs[0]), evs.drop_first());
    }
}

/// Once the front end is ready, requests are not held: the state does not change.
pub proof fn law_requests_pass_through_once_ready(s: HandshakeState, e: HandshakeEvent)
    requires
        s.ready,
        !(e is Ready),
        !(e is ReserveCapture),
    ensures
        step(s, e) == s,
{
}

/// From a cold start, whatever is asked for before the front end is ready is handed
/// over at `frontend-ready`, in order and with the capture's kind kept, and nothing
/// of it is handed over a second time.
pub proof fn law_cold_start_work_is_delivered_once(evs: Seq<HandshakeEvent>)
    requires
        before_ready(evs),
    ensures
        held_work(run_events(initial_state(), evs)).files == files_requested(evs),
        held_work(run_events(initial_state(), evs)).capture == capture_requested(None, evs),
        held_work(run_events(initial_state(), evs)).reactivate == reactivate_requested(evs),
        is_empty_work(held_work(after_mark_ready(run_events(initial_state(), evs)))),
{
    law_requests_are_held_until_ready(initial_state(), evs);
    assert(initial_state().files + files_requested(evs) =~= files_requested(evs));
}

} // verus!
