//! The daemon's loop and the threads beside it: what a turn of the loop does in
//! which order, how often captures are tried, and what the watched lines mean.

use crate::overlay::gpu::OverlayGpu;
use crate::overlay::{Extent, Margins, Overlay, OverlayState};
use crate::text;
use vstd::prelude::*;
use vstd::string::*;

verus! {

/// Milliseconds between captures, and between draws without a new frame.
pub const CAPTURE_INTERVAL_MS: u64 = 100;

// ---------------------------------------------------------------------------
// watched lines
// ---------------------------------------------------------------------------

/// Whether the session is locked, and whether the screensaver is up.
#[derive(Debug, Clone, Copy, PartialEq, Eq, Structural)]
pub struct SessionWatch {
    pub locked: bool,
    pub screensaver: bool,
}

/// The state after one more line of the compositor's event socket.
pub open spec fn session_after(watch: SessionWatch, line: Seq<char>) -> SessionWatch {
    if text::begins_with(line, "lock"@) {
        SessionWatch { locked: true, ..watch }
    } else if text::begins_with(line, "unlock"@) {
        SessionWatch { locked: false, ..watch }
    } else if text::occurs_in("org.omarchy.screensaver"@, line) {
        if text::begins_with(line, "openwindow"@) {
            SessionWatch { screensaver: true, ..watch }
        } else if text::begins_with(line, "closewindow"@) {
            SessionWatch { screensaver: false, ..watch }
        } else {
            watch
        }
    } else {
        watch
    }
}

impl SessionWatch {
    pub fn new() -> (watch: Self)
        ensures
            watch == (SessionWatch { locked: false, screensaver: false }),
    {
        SessionWatch { locked: false, screensaver: false }
    }

    /// Takes in a line of the compositor's event socket.
    pub fn line(&mut self, line: &str)
        ensures
            *final(self) == session_after(*old(self), line@),
    {
        let chars = text::chars_of(line);
        let chars = chars.as_slice();
        if text::starts_with(chars, "lock") {
            self.locked = true;
        } else if text::starts_with(chars, "unlock") {
            self.locked = false;
        } else if text::contains(chars, "org.omarchy.screensaver") {
            if text::starts_with(chars, "openwindow") {
                self.screensaver = true;
            } else if text::starts_with(chars, "closewindow") {
                self.screensaver = false;
            }
        }
    }
}

/// What a line of the sleep monitor says, in either case: going to sleep, woken
/// up, or nothing.
pub open spec fn sleep_in(line: Seq<char>) -> Option<bool> {
    if text::occurs_in("boolean true"@, text::lower(line)) {
        Some(true)
    } else if text::occurs_in("boolean false"@, text::lower(line)) {
        Some(false)
    } else {
        None
    }
}

pub fn sleep_line(line: &str) -> (sleeping: Option<bool>)
    ensures
        sleeping == sleep_in(line@),
{
    let chars = text::chars_of(line);
    let lowered = text::lower_chars(chars.as_slice());
    if text::contains(lowered.as_slice(), "boolean true") {
        Some(true)
    } else if text::contains(lowered.as_slice(), "boolean false") {
        Some(false)
    } else {
        None
    }
}

// ---------------------------------------------------------------------------
// the capture thread
// ---------------------------------------------------------------------------

/// How frames are captured.
#[derive(Debug, Clone, Copy, PartialEq, Eq, Structural)]
pub enum CapturePath {
    Dmabuf,
    Shm,
}

/// What to do after an attempt to connect.
#[derive(Debug, Clone, Copy, PartialEq, Eq, Structural)]
pub enum CaptureTurn {
    /// Capture frames.
    Capture,
    /// Connect for shared memory instead.
    ConnectShm,
    /// Give up.
    Stop,
}

/// What one capture gave.
#[derive(Debug, Clone, Copy, PartialEq, Eq, Structural)]
pub enum CaptureOutcome {
    Frame,
    Nothing,
    Error,
}

/// The capture thread. `failures` counts the captures in a row that gave no
/// frame.
#[derive(Debug, Clone, Copy, PartialEq, Eq, Structural)]
pub struct CaptureLoop {
    pub path: CapturePath,
    pub failures: u32,
}

impl CaptureLoop {
    /// Zero-copy where the device can do it, else shared memory.
    pub fn new(zero_copy: bool) -> (capture: Self)
        ensures
            capture == (CaptureLoop {
                path: if zero_copy {
                    CapturePath::Dmabuf
                } else {
                    CapturePath::Shm
                },
                failures: 0,
            }),
    {
        CaptureLoop {
            path: if zero_copy {
                CapturePath::Dmabuf
            } else {
                CapturePath::Shm
            },
            failures: 0,
        }
    }

    /// Takes in whether the client could connect. Where zero-copy capture
    /// cannot, shared memory is tried.
    pub fn connected(&mut self, ok: bool) -> (turn: CaptureTurn)
        ensures
            if ok {
                turn == CaptureTurn::Capture && *final(self) == *old(self)
            } else if old(self).path == CapturePath::Dmabuf {
                &&& turn == CaptureTurn::ConnectShm
                &&& *final(self) == (CaptureLoop { path: CapturePath::Shm, ..*old(self) })
            } else {
                turn == CaptureTurn::Stop && *final(self) == *old(self)
            },
    {
        if ok {
            CaptureTurn::Capture
        } else {
            match self.path {
                CapturePath::Dmabuf => {
                    self.path = CapturePath::Shm;
                    CaptureTurn::ConnectShm
                },
                CapturePath::Shm => CaptureTurn::Stop,
            }
        }
    }

    /// Whether the overlay has to be off the output while a frame is copied:
    /// shared memory gets all that is on it.
    pub fn needs_parking(&self) -> (r: bool)
        ensures
            r == (self.path == CapturePath::Shm),
    {
        match self.path {
            CapturePath::Dmabuf => false,
            CapturePath::Shm => true,
        }
    }

    /// Takes in what a capture gave: milliseconds to wait before the next. Once
    /// zero-copy captures have failed four times in a row, the wait is three
    /// times as long until one succeeds.
    pub fn captured(&mut self, outcome: CaptureOutcome) -> (delay_ms: u64)
        ensures
            final(self).path == old(self).path,
            final(self).failures == if old(self).path == CapturePath::Shm {
                old(self).failures as int
            } else if outcome == CaptureOutcome::Frame {
                0
            } else if old(self).failures == u32::MAX {
                u32::MAX as int
            } else {
                old(self).failures + 1
            },
            delay_ms == if old(self).path == CapturePath::Dmabuf && final(self).failures > 3 {
                3 * CAPTURE_INTERVAL_MS
            } else {
                CAPTURE_INTERVAL_MS as int
            },
    {
        match self.path {
            CapturePath::Shm => CAPTURE_INTERVAL_MS,
            CapturePath::Dmabuf => {
                match outcome {
                    CaptureOutcome::Frame => {
                        self.failures = 0;
                    },
                    _ => {
                        self.failures = self.failures.saturating_add(1);
                    },
                }
                if self.failures > 3 {
                    3 * CAPTURE_INTERVAL_MS
                } else {
                    CAPTURE_INTERVAL_MS
                }
            },
        }
    }
}

// ---------------------------------------------------------------------------
// the loop
// ---------------------------------------------------------------------------

/// What the loop awaits.
#[derive(Debug, Clone, Copy, PartialEq, Eq, Structural)]
pub enum RunStage {
    FirstDraw,
    Dispatching,
    Recreating,
    Pumping,
    Framing,
    Drawing,
    Polling,
    Reading,
    Over,
}

/// What the capture thread has to say of its copies into shared memory. It
/// wants one until one is granted.
#[derive(Debug, Clone, Copy, PartialEq, Eq, Structural)]
pub enum CopyNews {
    Nothing,
    Wanted,
    Over,
}

/// What has happened.
#[derive(Debug)]
pub enum RunEvent {
    /// The awaited work is done.
    Done,
    /// The clients were served; this is how the session and the copies stand.
    Pumped { watch: SessionWatch, sleeping: bool, copy: CopyNews },
    /// The captured frames were taken in, if there were any; this long ago the
    /// picture was last drawn.
    Framed { got: bool, elapsed_ms: u64 },
    /// Something can be read, from the compositor or from others.
    Polled { compositor: bool },
    /// The wait was interrupted.
    Interrupted,
    Failed(String),
}

/// What to do next.
#[derive(Debug)]
pub enum RunAction {
    /// Draw; where `restart_clock` says so, the time since the last draw is
    /// counted from here.
    Draw { restart_clock: bool },
    /// Send and take in what the compositor has to say.
    Dispatch,
    /// Make the swapchain anew at this extent.
    Recreate { extent: Extent },
    /// Serve the socket's clients.
    Pump,
    /// Set these margins, if any. Where `grant` says so, make a round trip, so
    /// that the compositor has them, and let the copy begin. Then wait.
    Hide { margins: Option<Margins>, grant: bool },
    /// The same, but then take in the captured frames.
    Show { margins: Option<Margins>, grant: bool },
    /// Wait for something to read.
    Poll,
    /// Read from the compositor.
    Read,
    /// The compositor closed the surface: end well.
    Exit,
    Refused(String),
}

/// Whether an event can be what the loop awaits.
pub open spec fn run_expects(stage: RunStage, event: RunEvent) -> bool {
    match stage {
        RunStage::Over => false,
        RunStage::Pumping => event is Pumped || event is Failed,
        RunStage::Framing => event is Framed,
        RunStage::Polling => event is Polled || event is Interrupted || event is Failed,
        _ => event is Done || event is Failed,
    }
}

/// How the message for a failure starts; some carry their own start.
pub open spec fn run_failure(stage: RunStage) -> Seq<char> {
    match stage {
        RunStage::Pumping => "socket pump: "@,
        RunStage::Polling => "poll: "@,
        RunStage::Reading => "wayland read: "@,
        _ => ""@,
    }
}

/// The loop. `parked` says that the overlay is hidden, and `copying` that a copy
/// into shared memory has been granted; for either the surface is taken off the
/// output.
#[derive(Debug, Clone, Copy, PartialEq, Eq, Structural)]
pub struct RunLoop {
    pub parked: bool,
    pub copying: bool,
    pub stage: RunStage,
}

impl RunLoop {
    /// Whether the surface is off the output.
    pub open spec fn off_screen(&self) -> bool {
        self.parked || self.copying
    }
}

/// Whether a copy is granted after this news. One that is wanted is granted at
/// once, also while the overlay is hidden.
pub open spec fn copying_after(copying: bool, copy: CopyNews) -> bool {
    match copy {
        CopyNews::Nothing => copying,
        CopyNews::Wanted => true,
        CopyNews::Over => false,
    }
}

/// The margins to set when the surface goes off the output or comes back.
pub open spec fn margins_between(before: RunLoop, after: RunLoop, overlay: Overlay) -> Option<
    Margins,
> {
    if before.off_screen() == after.off_screen() {
        None
    } else if after.off_screen() {
        Some(super::parked_margins())
    } else {
        Some(Margins { top: overlay.bubble_y, left: overlay.bubble_x })
    }
}

/// How a turn begins.
pub open spec fn turn_begun(before: RunLoop, closed: bool, after: RunLoop, action: RunAction) -> bool {
    if closed {
        after == (RunLoop { stage: RunStage::Over, ..before }) && action is Exit
    } else {
        after == (RunLoop { stage: RunStage::Dispatching, ..before }) && action is Dispatch
    }
}

/// Whether the overlay is to be out of sight.
pub open spec fn to_hide(state: OverlayState, watch: SessionWatch, sleeping: bool) -> bool {
    state.idle || watch.locked || watch.screensaver || sleeping
}

/// Whether taking in `event` takes the loop from `before` to `after`, and the
/// overlay with it, with this action. `drawn` is the extent of the picture.
pub open spec fn run_stepped(
    before: RunLoop,
    overlay: Overlay,
    drawn: Extent,
    event: RunEvent,
    after: RunLoop,
    overlay_after: Overlay,
    action: RunAction,
) -> bool {
    let extent = Extent { width: overlay.state.width, height: overlay.state.height };
    &&& overlay_after == if before.stage == RunStage::Dispatching && event is Done {
        Overlay { state: OverlayState { dirty: false, ..overlay.state }, ..overlay }
    } else {
        overlay
    }
    &&& match event {
        RunEvent::Failed(reason) => {
            &&& after == (RunLoop { stage: RunStage::Over, ..before })
            &&& action matches RunAction::Refused(message)
            &&& message@ == run_failure(before.stage) + reason@
        },
        RunEvent::Interrupted => turn_begun(before, overlay.state.closed, after, action),
        RunEvent::Polled { compositor } => if compositor {
            after == (RunLoop { stage: RunStage::Reading, ..before }) && action is Read
        } else {
            turn_begun(before, overlay.state.closed, after, action)
        },
        RunEvent::Framed { got, elapsed_ms } => if got || elapsed_ms >= CAPTURE_INTERVAL_MS {
            &&& after == (RunLoop { stage: RunStage::Drawing, ..before })
            &&& action == (RunAction::Draw { restart_clock: true })
        } else {
            after == (RunLoop { stage: RunStage::Polling, ..before }) && action is Poll
        },
        RunEvent::Pumped { watch, sleeping, copy } => {
            let hide = to_hide(overlay.state, watch, sleeping);
            &&& after.parked == hide
            &&& after.copying == copying_after(before.copying, copy)
            &&& if hide {
                &&& after.stage == RunStage::Polling
                &&& action == (RunAction::Hide {
                    margins: margins_between(before, after, overlay),
                    grant: after.copying && !before.copying,
                })
            } else {
                &&& after.stage == RunStage::Framing
                &&& action == (RunAction::Show {
                    margins: margins_between(before, after, overlay),
                    grant: after.copying && !before.copying,
                })
            }
        },
        RunEvent::Done => match before.stage {
            RunStage::Dispatching => if overlay.state.dirty && extent != drawn {
                &&& after == (RunLoop { stage: RunStage::Recreating, ..before })
                &&& action == (RunAction::Recreate { extent })
            } else {
                after == (RunLoop { stage: RunStage::Pumping, ..before }) && action is Pump
            },
            RunStage::Recreating => after == (RunLoop { stage: RunStage::Pumping, ..before })
                && action is Pump,
            RunStage::Drawing => after == (RunLoop { stage: RunStage::Polling, ..before })
                && action is Poll,
            _ => turn_begun(before, overlay.state.closed, after, action),
        },
    }
}

impl RunLoop {
    /// Starts with a first draw.
    pub fn begin() -> (r: (RunLoop, RunAction))
        ensures
            r.0 == (RunLoop { parked: false, copying: false, stage: RunStage::FirstDraw }),
            r.1 == (RunAction::Draw { restart_clock: false }),
    {
        (
            RunLoop { parked: false, copying: false, stage: RunStage::FirstDraw },
            RunAction::Draw { restart_clock: false },
        )
    }

    fn begin_turn(&mut self, closed: bool) -> (action: RunAction)
        ensures
            turn_begun(*old(self), closed, *final(self), action),
    {
        if closed {
            self.stage = RunStage::Over;
            RunAction::Exit
        } else {
            self.stage = RunStage::Dispatching;
            RunAction::Dispatch
        }
    }

    /// Takes in what has happened: what to do next.
    pub fn step(&mut self, event: RunEvent, overlay: &mut Overlay, gpu: &OverlayGpu) -> (action:
        RunAction)
        requires
            old(overlay).wf(),
            run_expects(old(self).stage, event),
        ensures
            final(overlay).wf(),
            run_stepped(
                *old(self),
                *old(overlay),
                gpu.extent,
                event,
                *final(self),
                *final(overlay),
                action,
            ),
    {
        let stage = self.stage;
        match event {
            RunEvent::Failed(reason) => {
                let mut message = match stage {
                    RunStage::Pumping => "socket pump: ".to_string(),
                    RunStage::Polling => "poll: ".to_string(),
                    RunStage::Reading => "wayland read: ".to_string(),
                    _ => "".to_string(),
                };
                message.append(reason.as_str());
                self.stage = RunStage::Over;
                RunAction::Refused(message)
            },
            RunEvent::Interrupted => self.begin_turn(overlay.closed()),
            RunEvent::Polled { compositor } => {
                if compositor {
                    self.stage = RunStage::Reading;
                    RunAction::Read
                } else {
                    self.begin_turn(overlay.closed())
                }
            },
            RunEvent::Framed { got, elapsed_ms } => {
                if got || elapsed_ms >= CAPTURE_INTERVAL_MS {
                    self.stage = RunStage::Drawing;
                    RunAction::Draw { restart_clock: true }
                } else {
                    self.stage = RunStage::Polling;
                    RunAction::Poll
                }
            },
            RunEvent::Pumped { watch, sleeping, copy } => {
                let hide = overlay.should_hide(watch.locked || watch.screensaver, sleeping);
                let was_copying = self.copying;
                let was_off = self.parked || self.copying;
                self.parked = hide;
                self.copying = match copy {
                    CopyNews::Nothing => was_copying,
                    CopyNews::Wanted => true,
                    CopyNews::Over => false,
                };
                let off = self.parked || self.copying;
                let margins = if off == was_off {
                    None
                } else if off {
                    Some(overlay.park_offscreen())
                } else {
                    Some(overlay.unpark_at_bubble())
                };
                let grant = self.copying && !was_copying;
                if hide {
                    self.stage = RunStage::Polling;
                    RunAction::Hide { margins, grant }
                } else {
                    self.stage = RunStage::Framing;
                    RunAction::Show { margins, grant }
                }
            },
            RunEvent::Done => match stage {
                RunStage::Dispatching => {
                    let extent = overlay.extent();
                    let dirty = overlay.take_dirty();
                    if dirty && gpu.needs_recreate(extent) {
                        self.stage = RunStage::Recreating;
                        RunAction::Recreate { extent }
                    } else {
                        self.stage = RunStage::Pumping;
                        RunAction::Pump
                    }
                },
                RunStage::Recreating => {
                    self.stage = RunStage::Pumping;
                    RunAction::Pump
                },
                RunStage::Drawing => {
                    self.stage = RunStage::Polling;
                    RunAction::Poll
                },
                _ => self.begin_turn(overlay.closed()),
            },
        }
    }
}

// ---------------------------------------------------------------------------
// laws
// ---------------------------------------------------------------------------

/// While the session is locked, idle, asleep or under its screensaver, nothing
/// is drawn: the loop goes on to wait, with the surface off the output.
pub proof fn law_hidden_overlay_is_not_drawn(
    before: RunLoop,
    overlay: Overlay,
    drawn: Extent,
    watch: SessionWatch,
    sleeping: bool,
    copy: CopyNews,
    after: RunLoop,
    overlay_after: Overlay,
    action: RunAction,
)
    requires
        run_stepped(
            before,
            overlay,
            drawn,
            RunEvent::Pumped { watch, sleeping, copy },
            after,
            overlay_after,
            action,
        ),
        to_hide(overlay.state, watch, sleeping),
    ensures
        action is Hide,
        after.off_screen(),
        after.stage == RunStage::Polling,
{
}

/// The surface is moved only when it goes off the output or comes back, and the
/// loop always knows which of the two holds.
pub proof fn law_margins_follow_visibility(
    before: RunLoop,
    overlay: Overlay,
    drawn: Extent,
    event: RunEvent,
    after: RunLoop,
    overlay_after: Overlay,
    action: RunAction,
)
    requires
        run_expects(before.stage, event),
        run_stepped(before, overlay, drawn, event, after, overlay_after, action),
    ensures
        action matches RunAction::Hide { margins, .. } ==> margins == margins_between(
            before,
            after,
            overlay,
        ),
        action matches RunAction::Show { margins, .. } ==> margins == margins_between(
            before,
            after,
            overlay,
        ),
        !(action is Hide) && !(action is Show) ==> after.off_screen() == before.off_screen(),
{
}

/// What a step grants: the margins that it sets, where it lets a copy begin.
pub open spec fn granted_by(action: RunAction) -> Option<Option<Margins>> {
    match action {
        RunAction::Hide { margins, grant: true } | RunAction::Show { margins, grant: true } => Some(
            margins,
        ),
        _ => None,
    }
}

/// A copy into shared memory never shows the overlay: from the step that grants
/// it until the news that it is over, the surface is off the output, and it is
/// so before the copy begins. Every copy that is wanted while none is under way
/// is granted, whether the overlay is hidden or not.
pub proof fn law_copies_are_made_off_screen(
    before: RunLoop,
    overlay: Overlay,
    drawn: Extent,
    event: RunEvent,
    after: RunLoop,
    overlay_after: Overlay,
    action: RunAction,
)
    requires
        run_expects(before.stage, event),
        run_stepped(before, overlay, drawn, event, after, overlay_after, action),
    ensures
        granted_by(action) matches Some(margins) ==> after.copying && after.off_screen() && (
        before.off_screen() || margins == Some(super::parked_margins())),
        before.copying && !(event matches RunEvent::Pumped { copy, .. } && copy == CopyNews::Over)
            ==> after.copying && after.off_screen(),
        granted_by(action) is Some <==> after.copying && !before.copying,
        event matches RunEvent::Pumped { copy, .. } && copy == CopyNews::Wanted && !before.copying
            ==> granted_by(action) is Some,
{
}

/// Once the compositor has closed the surface, the turn that is under way is
/// the last: the next one is not begun.
pub proof fn law_closing_ends_the_loop(
    before: RunLoop,
    overlay: Overlay,
    drawn: Extent,
    event: RunEvent,
    after: RunLoop,
    overlay_after: Overlay,
    action: RunAction,
)
    requires
        run_expects(before.stage, event),
        run_stepped(before, overlay, drawn, event, after, overlay_after, action),
        overlay.state.closed,
    ensures
        !(action is Dispatch),
        action is Exit ==> after.stage == RunStage::Over,
{
}

/// What the lines of the compositor mean: `lock` and `unlock` lock and unlock
/// the session, and the opening and closing of the screensaver's window raise
/// and end it; neither touches the other.
pub proof fn law_session_lines(
    locked: &mut SessionWatch,
    lock: &str,
    unlocked: &mut SessionWatch,
    unlock: &str,
    raised: &mut SessionWatch,
    open: &str,
    ended: &mut SessionWatch,
    close: &str,
    a: Seq<char>,
    b: Seq<char>,
)
    requires
        lock@ == "lock"@ + a,
        unlock@ == "unlock"@ + a,
        open@ == "openwindow"@ + a + "org.omarchy.screensaver"@ + b,
        close@ == "closewindow"@ + a + "org.omarchy.screensaver"@ + b,
        call_ensures(SessionWatch::line, (locked, lock), ()),
        call_ensures(SessionWatch::line, (unlocked, unlock), ()),
        call_ensures(SessionWatch::line, (raised, open), ()),
        call_ensures(SessionWatch::line, (ended, close), ()),
    ensures
        final(locked).locked,
        final(locked).screensaver == old(locked).screensaver,
        !final(unlocked).locked,
        final(unlocked).screensaver == old(unlocked).screensaver,
        final(raised).screensaver,
        final(raised).locked == old(raised).locked,
        !final(ended).screensaver,
        final(ended).locked == old(ended).locked,
{
    let name = "org.omarchy.screensaver"@;
    reveal_strlit("lock");
    reveal_strlit("unlock");
    reveal_strlit("openwindow");
    reveal_strlit("closewindow");
    text::law_parts_are_found(Seq::empty(), "lock"@, a);
    text::law_parts_are_found(Seq::empty(), "unlock"@, a);
    text::law_parts_are_found(Seq::empty(), "openwindow"@, a + name + b);
    text::law_parts_are_found(Seq::empty(), "closewindow"@, a + name + b);
    text::law_parts_are_found("openwindow"@ + a, name, b);
    text::law_parts_are_found("closewindow"@ + a, name, b);
    assert(open@ =~= "openwindow"@ + (a + name + b));
    assert(close@ =~= "closewindow"@ + (a + name + b));
    assert(unlock@.take(4)[0] == 'u' && "lock"@[0] == 'l');
    assert(open@.take(4)[0] == 'o' && open@.take(6)[0] == 'o' && "unlock"@[0] == 'u');
    assert(close@.take(4)[0] == 'c' && close@.take(6)[0] == 'c');
    assert(close@.take(10)[0] == 'c' && "openwindow"@[0] == 'o');
}

/// A line that begins with none of the four words means nothing, and a window
/// that is not the screensaver's does neither.
pub proof fn law_other_session_lines_do_nothing(watch: &mut SessionWatch, line: &str)
    requires
        call_ensures(SessionWatch::line, (watch, line), ()),
        !text::begins_with(line@, "lock"@),
        !text::begins_with(line@, "unlock"@),
        !text::begins_with(line@, "openwindow"@) && !text::begins_with(line@, "closewindow"@)
            || !text::occurs_in("org.omarchy.screensaver"@, line@),
    ensures
        final(watch).locked == old(watch).locked,
        final(watch).screensaver == old(watch).screensaver,
{
}

/// A line of the sleep monitor with `boolean true` in it, in either case, says
/// that the machine goes to sleep; one with `boolean false` alone that it has
/// woken up; one with neither says nothing.
pub proof fn law_sleep_lines(
    line: &str,
    sleeping: Option<bool>,
    a: Seq<char>,
    said: Seq<char>,
    b: Seq<char>,
)
    requires
        call_ensures(sleep_line, (line,), sleeping),
        line@ == a + said + b,
    ensures
        text::lower(said) == "boolean true"@ ==> sleeping == Some(true),
        text::lower(said) == "boolean false"@ && !text::occurs_in(
            "boolean true"@,
            text::lower(line@),
        ) ==> sleeping == Some(false),
        line@.len() < 12 ==> sleeping is None,
{
    let lowered = text::lower(line@);
    assert(lowered =~= text::lower(a) + text::lower(said) + text::lower(b));
    text::law_parts_are_found(text::lower(a), text::lower(said), text::lower(b));
    reveal_strlit("boolean true");
    reveal_strlit("boolean false");
    assert("boolean true"@.len() == 12 && "boolean false"@.len() == 13);
}

/// Zero-copy capture is tried first where the device can do it; where it cannot
/// connect, shared memory is, and where that cannot either the thread stops.
/// Only shared memory needs the overlay off the output.
pub proof fn law_capture_falls_back_once(
    zero_copy: bool,
    fresh: CaptureLoop,
    capture: &mut CaptureLoop,
    ok: bool,
    turn: CaptureTurn,
    asked: &CaptureLoop,
    parking: bool,
)
    requires
        call_ensures(CaptureLoop::new, (zero_copy,), fresh),
        call_ensures(CaptureLoop::connected, (capture, ok), turn),
        call_ensures(CaptureLoop::needs_parking, (asked,), parking),
    ensures
        fresh.path is Dmabuf <==> zero_copy,
        fresh.failures == 0,
        turn is Capture <==> ok,
        !ok && old(capture).path is Dmabuf ==> turn is ConnectShm && final(capture).path is Shm,
        !ok && old(capture).path is Shm ==> turn is Stop,
        ok || old(capture).path is Shm ==> final(capture).path == old(capture).path,
        final(capture).failures == old(capture).failures,
        parking <==> asked.path is Shm,
{
}

/// Captures come every tenth of a second. Zero-copy captures without a frame
/// are counted until there is one again; from the fourth in a row on the wait
/// is three times as long.
pub proof fn law_captures_slow_down_when_they_fail(
    capture: &mut CaptureLoop,
    outcome: CaptureOutcome,
    delay_ms: u64,
)
    requires
        call_ensures(CaptureLoop::captured, (capture, outcome), delay_ms),
    ensures
        final(capture).path == old(capture).path,
        old(capture).path is Shm ==> delay_ms == 100 && final(capture).failures
            == old(capture).failures,
        old(capture).path is Dmabuf && outcome is Frame ==> delay_ms == 100 && final(
            capture).failures == 0,
        old(capture).path is Dmabuf && outcome !is Frame && old(capture).failures < 3
            ==> delay_ms == 100 && final(capture).failures == old(capture).failures + 1,
        old(capture).path is Dmabuf && outcome !is Frame && old(capture).failures >= 3
            ==> delay_ms == 300 && final(capture).failures >= old(capture).failures && final(
            capture).failures >= 4,
{
}

/// After the clients are served the overlay hides while input is idle, the
/// session is locked, the screensaver is up or the machine is going to sleep,
/// and shows otherwise. A copy is under way from when it is wanted until it is
/// over, and is granted when it starts. The margins change exactly when the
/// surface goes off the output, four discs above it, for either reason, or
/// comes back to the bubble.
pub proof fn law_overlay_hides_and_shows(
    run: &mut RunLoop,
    watch: SessionWatch,
    sleeping: bool,
    copy: CopyNews,
    overlay: &mut Overlay,
    gpu: &OverlayGpu,
    action: RunAction,
    margins: Option<Margins>,
    grant: bool,
)
    requires
        call_ensures(
            RunLoop::step,
            (run, RunEvent::Pumped { watch, sleeping, copy }, overlay, gpu),
            action,
        ),
        old(run).stage is Pumping,
        action matches RunAction::Hide { margins: m, grant: g } ==> margins == m && grant == g,
        action matches RunAction::Show { margins: m, grant: g } ==> margins == m && grant == g,
    ensures
        *final(overlay) == *old(overlay),
        ({
            let hide = old(overlay).state.idle || watch.locked || watch.screensaver || sleeping;
            let was_off = old(run).parked || old(run).copying;
            let is_off = final(run).parked || final(run).copying;
            &&& action is Hide <==> hide
            &&& action is Show <==> !hide
            &&& final(run).parked <==> hide
            &&& final(run).stage is Polling <==> hide
            &&& final(run).stage is Framing <==> !hide
            &&& final(run).copying <==> copy is Wanted || copy is Nothing && old(run).copying
            &&& grant <==> copy is Wanted && !old(run).copying
            &&& margins is Some <==> was_off != is_off
            &&& margins is Some && is_off ==> margins->0.top == -880 && margins->0.left == 0
            &&& margins is Some && !is_off ==> margins->0.top == old(overlay).bubble_y
                && margins->0.left == old(overlay).bubble_x
        }),
{
}

/// The picture is drawn when there is a new frame or a tenth of a second has
/// passed, and the clock starts anew; else the loop waits at once. After a draw
/// it waits.
pub proof fn law_draws_come_with_frames_or_time(
    run: &mut RunLoop,
    got: bool,
    elapsed_ms: u64,
    overlay: &mut Overlay,
    gpu: &OverlayGpu,
    action: RunAction,
    drawn: &mut RunLoop,
    other: &mut Overlay,
    next: RunAction,
)
    requires
        call_ensures(
            RunLoop::step,
            (run, RunEvent::Framed { got, elapsed_ms }, overlay, gpu),
            action,
        ),
        call_ensures(RunLoop::step, (drawn, RunEvent::Done, other, gpu), next),
        old(drawn).stage is Drawing,
    ensures
        *final(overlay) == *old(overlay),
        final(run).parked == old(run).parked,
        final(run).copying == old(run).copying,
        got || elapsed_ms >= 100 ==> action == (RunAction::Draw { restart_clock: true }) && final(
            run).stage is Drawing,
        !got && elapsed_ms < 100 ==> action is Poll && final(run).stage is Polling,
        next is Poll,
        final(drawn).stage is Polling,
{
}

/// A turn dispatches first; a surface that was configured to another size has
/// its swapchain made anew, at that size; then the clients are served.
pub proof fn law_turns_follow_the_surface(
    run: &mut RunLoop,
    overlay: &mut Overlay,
    gpu: &OverlayGpu,
    action: RunAction,
    remade: &mut RunLoop,
    other: &mut Overlay,
    next: RunAction,
)
    requires
        call_ensures(RunLoop::step, (run, RunEvent::Done, overlay, gpu), action),
        old(run).stage is Dispatching,
        call_ensures(RunLoop::step, (remade, RunEvent::Done, other, gpu), next),
        old(remade).stage is Recreating,
    ensures
        ({
            let state = old(overlay).state;
            let other_size = state.width != gpu.extent.width || state.height != gpu.extent.height;
            &&& action is Recreate <==> state.dirty && other_size
            &&& action is Pump <==> !(state.dirty && other_size)
            &&& action matches RunAction::Recreate { extent } ==> extent.width == state.width
                && extent.height == state.height
        }),
        !final(overlay).state.dirty,
        final(overlay).bubble_x == old(overlay).bubble_x,
        final(overlay).bubble_y == old(overlay).bubble_y,
        final(overlay).state.closed == old(overlay).state.closed,
        final(run).parked == old(run).parked,
        final(run).copying == old(run).copying,
        next is Pump,
        final(remade).stage is Pumping,
{
}

/// The loop waits until something can be read; what the compositor sent is read
/// before the next turn. A turn is not begun once the surface is closed, and a
/// failure ends the loop with its reason.
pub proof fn law_waits_begin_the_next_turn(
    run: &mut RunLoop,
    event: RunEvent,
    overlay: &mut Overlay,
    gpu: &OverlayGpu,
    action: RunAction,
)
    requires
        call_ensures(RunLoop::step, (run, event, overlay, gpu), action),
        old(run).stage is Polling || old(run).stage is Reading || old(run).stage is FirstDraw,
        run_expects(old(run).stage, event),
    ensures
        *final(overlay) == *old(overlay),
        final(run).parked == old(run).parked,
        final(run).copying == old(run).copying,
        event is Failed ==> action is Refused && final(run).stage is Over,
        event == (RunEvent::Polled { compositor: true }) ==> action is Read && final(run).stage
            is Reading,
        event is Done || event is Interrupted || event == (RunEvent::Polled { compositor: false })
            ==> {
            &&& old(overlay).state.closed ==> action is Exit && final(run).stage is Over
            &&& !old(overlay).state.closed ==> action is Dispatch && final(run).stage
                is Dispatching
        },
{
}

/// The message of a loop that failed says where and ends with the reason.
pub proof fn law_failed_loops_say_where(
    run: &mut RunLoop,
    reason: String,
    overlay: &mut Overlay,
    gpu: &OverlayGpu,
    action: RunAction,
)
    requires
        call_ensures(RunLoop::step, (run, RunEvent::Failed(reason), overlay, gpu), action),
    ensures
        action is Refused,
        action->Refused_0@ == match old(run).stage {
            RunStage::Pumping => "socket pump: "@ + reason@,
            RunStage::Polling => "poll: "@ + reason@,
            RunStage::Reading => "wayland read: "@ + reason@,
            _ => ""@ + reason@,
        },
{
}

/// The loop begins on the output, without a copy and with a first draw that
/// does not count.
pub proof fn law_loops_begin_with_a_draw(r: (RunLoop, RunAction), watch: SessionWatch)
    requires
        call_ensures(RunLoop::begin, (), r),
        call_ensures(SessionWatch::new, (), watch),
    ensures
        !r.0.parked,
        !r.0.copying,
        r.0.stage is FirstDraw,
        r.1 == (RunAction::Draw { restart_clock: false }),
        !watch.locked,
        !watch.screensaver,
{
}

} // verus!
