//! Screen capture through `wlr-screencopy` into shared memory.
//!
//! The compositor first says what buffer it wants to write into, then copies
//! the screen into one and says when it is done. `ShmCapture` follows that
//! exchange: it takes in the events and, after each round trip, decides what to
//! do next. Whoever holds the connection does it.

use crate::actors::ingress::IngressFrame;
use crate::text;
use vstd::prelude::*;
use vstd::string::*;

verus! {

// ---------------------------------------------------------------------------
// globals
// ---------------------------------------------------------------------------

/// A global that the capture client binds.
#[derive(Debug, Clone, Copy, PartialEq, Eq, Structural)]
pub enum CaptureGlobal {
    Output,
    Shm,
    Screencopy,
}

/// A global to bind, at this version.
#[derive(Debug, Clone, Copy, PartialEq, Eq, Structural)]
pub struct CaptureBind {
    pub global: CaptureGlobal,
    pub version: u32,
}

pub open spec fn at_most(version: u32, limit: u32) -> u32 {
    if version <= limit {
        version
    } else {
        limit
    }
}

pub fn capped(version: u32, limit: u32) -> (v: u32)
    ensures
        v == at_most(version, limit),
{
    if version <= limit {
        version
    } else {
        limit
    }
}

/// Which globals have been bound.
#[derive(Debug, Clone, Copy, PartialEq, Eq, Structural)]
pub struct CaptureGlobals {
    pub output: bool,
    pub shm: bool,
    pub screencopy: bool,
}

impl CaptureGlobals {
    pub fn new() -> (globals: Self)
        ensures
            globals == (CaptureGlobals { output: false, shm: false, screencopy: false }),
    {
        CaptureGlobals { output: false, shm: false, screencopy: false }
    }

    /// Takes in an advertised global: what to bind, if anything. Of outputs and
    /// shared memory the first is bound, of screencopy managers every one.
    pub fn advertise(&mut self, interface: &str, version: u32) -> (bind: Option<CaptureBind>)
        ensures
            if interface@ == "wl_output"@ && !old(self).output {
                &&& bind == Some(
                    CaptureBind { global: CaptureGlobal::Output, version: at_most(version, 4) },
                )
                &&& *final(self) == (CaptureGlobals { output: true, ..*old(self) })
            } else if interface@ == "wl_shm"@ && !old(self).shm {
                &&& bind == Some(
                    CaptureBind { global: CaptureGlobal::Shm, version: at_most(version, 1) },
                )
                &&& *final(self) == (CaptureGlobals { shm: true, ..*old(self) })
            } else if interface@ == "zwlr_screencopy_manager_v1"@ {
                &&& bind == Some(
                    CaptureBind {
                        global: CaptureGlobal::Screencopy,
                        version: at_most(version, 3),
                    },
                )
                &&& *final(self) == (CaptureGlobals { screencopy: true, ..*old(self) })
            } else {
                bind is None && *final(self) == *old(self)
            },
    {
        let name = text::chars_of(interface);
        let name = name.as_slice();
        if text::equals(name, "wl_output") && !self.output {
            self.output = true;
            Some(CaptureBind { global: CaptureGlobal::Output, version: capped(version, 4) })
        } else if text::equals(name, "wl_shm") && !self.shm {
            self.shm = true;
            Some(CaptureBind { global: CaptureGlobal::Shm, version: capped(version, 1) })
        } else if text::equals(name, "zwlr_screencopy_manager_v1") {
            self.screencopy = true;
            Some(CaptureBind { global: CaptureGlobal::Screencopy, version: capped(version, 3) })
        } else {
            None
        }
    }

    /// Whether the compositor has all that is needed, or else what it lacks.
    pub fn complete(&self) -> (r: Result<(), String>)
        ensures
            match r {
                Ok(_) => self.output && self.shm && self.screencopy,
                Err(message) => message@ == if !self.output {
                    "compositor advertised no wl_output"@
                } else if !self.shm {
                    "compositor has no wl_shm"@
                } else {
                    "compositor doesn't implement wlr-screencopy-unstable-v1 (not a wlroots compositor?)"@
                } && !(self.output && self.shm && self.screencopy),
            },
    {
        if !self.output {
            return Err("compositor advertised no wl_output".to_string());
        }
        if !self.shm {
            return Err("compositor has no wl_shm".to_string());
        }
        if !self.screencopy {
            return Err(
                "compositor doesn't implement wlr-screencopy-unstable-v1 (not a wlroots compositor?)".to_string(),
            );
        }
        Ok(())
    }
}

// ---------------------------------------------------------------------------
// events
// ---------------------------------------------------------------------------

/// The number of the 32-bit format with alpha in `wl_shm`.
pub const SHM_ARGB8888: u32 = 0;

/// The buffer that the compositor wants to write into.
#[derive(Debug, Clone, Copy, PartialEq, Eq, Structural)]
pub struct BufferSpec {
    pub width: u32,
    pub height: u32,
    pub stride: u32,
    pub format: u32,
}

/// An event of a frame under capture. A format or flags that the protocol does
/// not know are `None`.
#[derive(Debug, Clone, Copy, PartialEq, Eq, Structural)]
#[allow(inconsistent_fields)]
pub enum FrameEvent {
    Buffer { format: Option<u32>, width: u32, height: u32, stride: u32 },
    LinuxDmabuf { format: u32, width: u32, height: u32 },
    Flags { y_invert: Option<bool> },
    BufferDone,
    Ready,
    Failed,
}

/// What the compositor has said about the frame so far.
#[derive(Debug, Clone, Copy, PartialEq, Eq, Structural)]
pub struct ShmState {
    pub spec: Option<BufferSpec>,
    pub buffer_done: bool,
    pub y_invert: bool,
    pub ready: bool,
    pub failed: bool,
}

/// Nothing said yet.
pub open spec fn nothing_said() -> ShmState {
    ShmState { spec: None, buffer_done: false, y_invert: false, ready: false, failed: false }
}

impl ShmState {
    /// The state after one more event. An unknown format is taken for the one
    /// with alpha; unknown flags change nothing; a DMA-BUF offer is of no use.
    pub open spec fn after(self, event: FrameEvent) -> ShmState {
        match event {
            FrameEvent::Buffer { format, width, height, stride } => ShmState {
                spec: Some(
                    BufferSpec {
                        width,
                        height,
                        stride,
                        format: match format {
                            Some(f) => f,
                            None => SHM_ARGB8888,
                        },
                    },
                ),
                ..self
            },
            FrameEvent::Flags { y_invert: Some(y_invert) } => ShmState { y_invert, ..self },
            FrameEvent::BufferDone => ShmState { buffer_done: true, ..self },
            FrameEvent::Ready => ShmState { ready: true, ..self },
            FrameEvent::Failed => ShmState { failed: true, ..self },
            _ => self,
        }
    }

    pub fn take_in(&mut self, event: FrameEvent)
        ensures
            *final(self) == old(self).after(event),
    {
        match event {
            FrameEvent::Buffer { format, width, height, stride } => {
                let format: u32 = match format {
                    Some(f) => f,
                    None => SHM_ARGB8888,
                };
                self.spec = Some(BufferSpec { width, height, stride, format });
            },
            FrameEvent::Flags { y_invert } => {
                match y_invert {
                    Some(y_invert) => {
                        self.y_invert = y_invert;
                    },
                    None => {},
                }
            },
            FrameEvent::BufferDone => {
                self.buffer_done = true;
            },
            FrameEvent::Ready => {
                self.ready = true;
            },
            FrameEvent::Failed => {
                self.failed = true;
            },
            FrameEvent::LinuxDmabuf { .. } => {},
        }
    }
}

// ---------------------------------------------------------------------------
// pixels
// ---------------------------------------------------------------------------

/// One row of `width` pixels that starts at byte `at`, as RGBA. In memory a
/// pixel is blue, green, red, alpha; without an alpha it is opaque.
pub open spec fn pixel_row(src: Seq<u8>, at: int, width: nat, alpha: bool) -> Seq<u8> {
    Seq::new(
        4 * width,
        |i: int|
            if i % 4 == 3 {
                if alpha {
                    src[at + i]
                } else {
                    255u8
                }
            } else {
                src[at + 4 * (i / 4) + 2 - i % 4]
            },
    )
}

/// The row of the buffer that shows up as row `y` of the frame.
pub open spec fn source_row(height: int, y_invert: bool, y: int) -> int {
    if y_invert {
        height - 1 - y
    } else {
        y
    }
}

/// The first `rows` rows of the frame in a buffer, one after another.
pub open spec fn frame_rows(src: Seq<u8>, spec: BufferSpec, y_invert: bool, rows: nat) -> Seq<u8>
    decreases rows,
{
    if rows == 0 {
        Seq::empty()
    } else {
        frame_rows(src, spec, y_invert, (rows - 1) as nat) + pixel_row(
            src,
            source_row(spec.height as int, y_invert, rows - 1) * spec.stride,
            spec.width as nat,
            spec.format == SHM_ARGB8888,
        )
    }
}

/// Whether every row of the buffer lies inside `len` bytes.
pub open spec fn rows_fit(spec: BufferSpec, len: nat) -> bool {
    spec.width > 0 && spec.height > 0 ==> (spec.height - 1) * spec.stride + 4 * spec.width <= len
}

fn push_row(rgba: &mut Vec<u8>, src: &[u8], at: usize, width: u32, alpha: bool)
    requires
        at + 4 * width <= src.len(),
    ensures
        final(rgba)@ == old(rgba)@ + pixel_row(src@, at as int, width as nat, alpha),
{
    let ghost row = pixel_row(src@, at as int, width as nat, alpha);
    let mut x: u32 = 0;
    assert(rgba@ =~= old(rgba)@ + row.take(0));
    while x < width
        invariant
            x <= width,
            at + 4 * width <= src.len(),
            row == pixel_row(src@, at as int, width as nat, alpha),
            rgba@ == old(rgba)@ + row.take(4 * x as int),
        decreases width - x,
    {
        let from: usize = at + 4 * x as usize;
        rgba.push(src[from + 2]);
        rgba.push(src[from + 1]);
        rgba.push(src[from]);
        if alpha {
            rgba.push(src[from + 3]);
        } else {
            rgba.push(255);
        }
        x += 1;
        assert(rgba@ =~= old(rgba)@ + row.take(4 * x as int));
    }
    assert(row.take(4 * x as int) =~= row);
}

/// The frame in a mapped buffer.
pub fn shm_to_rgba(src: &[u8], spec: BufferSpec, y_invert: bool) -> (frame: IngressFrame)
    requires
        rows_fit(spec, src.len() as nat),
    ensures
        frame.width == spec.width,
        frame.height == spec.height,
        frame.rgba@ == frame_rows(src@, spec, y_invert, spec.height as nat),
{
    let mut rgba: Vec<u8> = Vec::new();
    let alpha = spec.format == SHM_ARGB8888;
    let mut y: u32 = 0;
    while y < spec.height
        invariant
            y <= spec.height,
            rows_fit(spec, src.len() as nat),
            alpha == (spec.format == SHM_ARGB8888),
            rgba@ == frame_rows(src@, spec, y_invert, y as nat),
        decreases spec.height - y,
    {
        let row: u32 = if y_invert {
            spec.height - 1 - y
        } else {
            y
        };
        if spec.width > 0 {
            assert(row * spec.stride <= (spec.height - 1) * spec.stride) by (nonlinear_arith)
                requires
                    0 <= row <= spec.height - 1,
                    0 <= spec.stride,
            ;
            assert(0 <= row * spec.stride) by (nonlinear_arith)
                requires
                    0 <= row,
                    0 <= spec.stride,
            ;
            let at: usize = row as usize * spec.stride as usize;
            push_row(&mut rgba, src, at, spec.width, alpha);
        } else {
            assert(pixel_row(src@, row * spec.stride, 0, alpha) =~= Seq::empty());
            assert(rgba@ + pixel_row(src@, row * spec.stride, 0, alpha) =~= rgba@);
        }
        y += 1;
    }
    IngressFrame { width: spec.width, height: spec.height, rgba }
}

// ---------------------------------------------------------------------------
// the exchange
// ---------------------------------------------------------------------------

/// Who captures. The capture client copes with compositors that never say that
/// they are done offering buffers, and reports what went wrong; the overlay
/// itself just tries again later.
#[derive(Debug, Clone, Copy, PartialEq, Eq, Structural)]
pub enum Captor {
    Client,
    Overlay,
}

/// What is awaited, and how many round trips have been made for it.
#[derive(Debug, Clone, Copy, PartialEq, Eq, Structural)]
pub enum CaptureStage {
    Idle,
    Buffer { trips: u32 },
    Pixels { trips: u32, spec: BufferSpec },
}

/// What to do next.
#[derive(Debug, Clone, Copy, PartialEq, Eq, Structural)]
pub enum CaptureAction {
    /// Make a round trip.
    RoundTrip,
    /// Have the frame copied into a buffer of this make and size, then make a
    /// round trip.
    Copy { spec: BufferSpec, size: u64 },
    /// The buffer holds the frame: read it.
    Read { spec: BufferSpec, y_invert: bool },
    /// No frame this time.
    Nothing,
    /// No buffer was ever offered.
    NoBuffer,
    /// The copy came to no end.
    Unfinished,
}

/// Round trips made at most while a buffer is awaited.
pub const BUFFER_TRIPS: u32 = 32;

/// Round trips after which the client takes an offered buffer as the last.
pub const PATIENT_TRIPS: u32 = 8;

/// Round trips made at most while the copy is awaited.
pub open spec fn pixel_trips(captor: Captor) -> u32 {
    match captor {
        Captor::Client => 32,
        Captor::Overlay => 24,
    }
}

/// Whether there is no point in waiting for further buffers.
pub open spec fn buffer_settled(captor: Captor, state: ShmState, trips: u32) -> bool {
    ||| state.buffer_done
    ||| captor == Captor::Client && state.spec is Some && trips > PATIENT_TRIPS
    ||| trips >= BUFFER_TRIPS
}

/// What follows the `trips`-th round trip for a buffer.
pub open spec fn after_buffer_trip(captor: Captor, state: ShmState, trips: u32) -> (
    CaptureStage,
    CaptureAction,
) {
    if state.failed {
        (CaptureStage::Idle, CaptureAction::Nothing)
    } else if !buffer_settled(captor, state, trips) {
        (CaptureStage::Buffer { trips }, CaptureAction::RoundTrip)
    } else {
        match state.spec {
            Some(spec) => (
                CaptureStage::Pixels { trips: 0, spec },
                CaptureAction::Copy { spec, size: (spec.stride * spec.height) as u64 },
            ),
            None => (
                CaptureStage::Idle,
                if captor == Captor::Client {
                    CaptureAction::NoBuffer
                } else {
                    CaptureAction::Nothing
                },
            ),
        }
    }
}

/// What follows the `trips`-th round trip for the copy.
pub open spec fn after_pixel_trip(
    captor: Captor,
    state: ShmState,
    trips: u32,
    spec: BufferSpec,
) -> (CaptureStage, CaptureAction) {
    if !state.ready && !state.failed && trips < pixel_trips(captor) {
        (CaptureStage::Pixels { trips, spec }, CaptureAction::RoundTrip)
    } else if captor == Captor::Client && state.failed {
        (CaptureStage::Idle, CaptureAction::Nothing)
    } else if state.ready {
        (
            CaptureStage::Idle,
            CaptureAction::Read { spec, y_invert: state.y_invert },
        )
    } else {
        (
            CaptureStage::Idle,
            if captor == Captor::Client {
                CaptureAction::Unfinished
            } else {
                CaptureAction::Nothing
            },
        )
    }
}

/// The shared memory that is kept for captures, by its size. One memory is used
/// again for every capture that fits.
#[derive(Debug, Clone, Copy, PartialEq, Eq, Structural)]
pub struct SharedMemory {
    pub held: u64,
}

impl SharedMemory {
    pub fn new() -> (memory: Self)
        ensures
            memory.held == 0,
    {
        SharedMemory { held: 0 }
    }

    /// Whether a capture of this size needs new memory, which is held from then
    /// on in place of the old.
    pub fn grow(&mut self, size: u64) -> (fresh: bool)
        ensures
            fresh == (old(self).held < size),
            final(self).held == if old(self).held < size {
                size
            } else {
                old(self).held
            },
    {
        if self.held < size {
            self.held = size;
            true
        } else {
            false
        }
    }
}

/// One capture after another, through shared memory.
#[derive(Debug, Clone, Copy)]
pub struct ShmCapture {
    pub captor: Captor,
    pub state: ShmState,
    pub stage: CaptureStage,
}

impl ShmCapture {
    /// No wait outlasts its limit.
    pub open spec fn wf(&self) -> bool {
        match self.stage {
            CaptureStage::Idle => true,
            CaptureStage::Buffer { trips } => trips < BUFFER_TRIPS,
            CaptureStage::Pixels { trips, .. } => trips < pixel_trips(self.captor),
        }
    }

    pub fn new(captor: Captor) -> (capture: Self)
        ensures
            capture.wf(),
            capture.captor == captor,
            capture.state == nothing_said(),
            capture.stage == CaptureStage::Idle,
    {
        ShmCapture {
            captor,
            state: ShmState {
                spec: None,
                buffer_done: false,
                y_invert: false,
                ready: false,
                failed: false,
            },
            stage: CaptureStage::Idle,
        }
    }

    /// Starts a capture: what was said of the last frame is forgotten. The
    /// first round trip comes next.
    pub fn begin(&mut self)
        ensures
            final(self).wf(),
            final(self).captor == old(self).captor,
            final(self).state == nothing_said(),
            final(self).stage == (CaptureStage::Buffer { trips: 0 }),
    {
        self.state = ShmState {
            spec: None,
            buffer_done: false,
            y_invert: false,
            ready: false,
            failed: false,
        };
        self.stage = CaptureStage::Buffer { trips: 0 };
    }

    /// Takes in an event of the frame.
    pub fn event(&mut self, event: FrameEvent)
        requires
            old(self).wf(),
        ensures
            final(self).wf(),
            final(self).captor == old(self).captor,
            final(self).stage == old(self).stage,
            final(self).state == old(self).state.after(event),
    {
        self.state.take_in(event);
    }

    /// Decides what to do after a round trip.
    pub fn after_round_trip(&mut self) -> (action: CaptureAction)
        requires
            old(self).wf(),
            old(self).stage != CaptureStage::Idle,
        ensures
            final(self).wf(),
            final(self).captor == old(self).captor,
            final(self).state == old(self).state,
            (final(self).stage, action) == match old(self).stage {
                CaptureStage::Pixels { trips, spec } => after_pixel_trip(
                    old(self).captor,
                    old(self).state,
                    (trips + 1) as u32,
                    spec,
                ),
                CaptureStage::Buffer { trips } => after_buffer_trip(
                    old(self).captor,
                    old(self).state,
                    (trips + 1) as u32,
                ),
                CaptureStage::Idle => (CaptureStage::Idle, CaptureAction::Nothing),
            },
    {
        let state = self.state;
        let client = self.captor == Captor::Client;
        match self.stage {
            CaptureStage::Idle => CaptureAction::Nothing,
            CaptureStage::Buffer { trips } => {
                let trips: u32 = trips + 1;
                if state.failed {
                    self.stage = CaptureStage::Idle;
                    return CaptureAction::Nothing;
                }
                let settled = state.buffer_done || (client && state.spec.is_some() && trips
                    > PATIENT_TRIPS) || trips >= BUFFER_TRIPS;
                if !settled {
                    self.stage = CaptureStage::Buffer { trips };
                    return CaptureAction::RoundTrip;
                }
                match state.spec {
                    Some(spec) => {
                        self.stage = CaptureStage::Pixels { trips: 0, spec };
                        assert(spec.stride * spec.height <= u32::MAX * u32::MAX) by (nonlinear_arith)
                            requires
                                0 <= spec.stride <= u32::MAX,
                                0 <= spec.height <= u32::MAX,
                        ;
                        CaptureAction::Copy { spec, size: spec.stride as u64 * spec.height as u64 }
                    },
                    None => {
                        self.stage = CaptureStage::Idle;
                        if client {
                            CaptureAction::NoBuffer
                        } else {
                            CaptureAction::Nothing
                        }
                    },
                }
            },
            CaptureStage::Pixels { trips, spec } => {
                let trips: u32 = trips + 1;
                let limit: u32 = match self.captor {
                    Captor::Client => 32,
                    Captor::Overlay => 24,
                };
                if !state.ready && !state.failed && trips < limit {
                    self.stage = CaptureStage::Pixels { trips, spec };
                    return CaptureAction::RoundTrip;
                }
                self.stage = CaptureStage::Idle;
                if client && state.failed {
                    return CaptureAction::Nothing;
                }
                if state.ready {
                    CaptureAction::Read { spec, y_invert: state.y_invert }
                } else if client {
                    CaptureAction::Unfinished
                } else {
                    CaptureAction::Nothing
                }
            },
        }
    }

    /// Gives up after a round trip that failed.
    pub fn abandon(&mut self, reason: &str) -> (message: String)
        requires
            old(self).wf(),
        ensures
            final(self).wf(),
            final(self).captor == old(self).captor,
            final(self).stage == CaptureStage::Idle,
            message@ == trip_failure(old(self).captor, old(self).stage is Pixels) + reason@,
    {
        let pixels = matches!(self.stage, CaptureStage::Pixels { .. });
        let mut message = match (self.captor, pixels) {
            (Captor::Client, false) => "roundtrip while awaiting buffer spec failed: ".to_string(),
            (Captor::Client, true) =>
                "roundtrip while awaiting ready/failed failed: ".to_string(),
            (Captor::Overlay, false) => "screencopy buffer roundtrip: ".to_string(),
            (Captor::Overlay, true) => "screencopy ready roundtrip: ".to_string(),
        };
        self.stage = CaptureStage::Idle;
        message.append(reason);
        message
    }
}

/// How the message for a failed round trip starts.
pub open spec fn trip_failure(captor: Captor, pixels: bool) -> Seq<char> {
    match (captor, pixels) {
        (Captor::Client, false) => "roundtrip while awaiting buffer spec failed: "@,
        (Captor::Client, true) => "roundtrip while awaiting ready/failed failed: "@,
        (Captor::Overlay, false) => "screencopy buffer roundtrip: "@,
        (Captor::Overlay, true) => "screencopy ready roundtrip: "@,
    }
}

/// The message for a capture that came to nothing because of the compositor.
pub fn refusal(action: CaptureAction) -> (message: Option<&'static str>)
    ensures
        match message {
            Some(m) => {
                ||| action == CaptureAction::NoBuffer && m@
                    == "compositor never sent a 'buffer' event"@
                ||| action == CaptureAction::Unfinished && m@
                    == "frame neither ready nor failed after copy"@
            },
            None => action != CaptureAction::NoBuffer && action != CaptureAction::Unfinished,
        },
{
    match action {
        CaptureAction::NoBuffer => Some("compositor never sent a 'buffer' event"),
        CaptureAction::Unfinished => Some("frame neither ready nor failed after copy"),
        _ => None,
    }
}

// ---------------------------------------------------------------------------
// laws
// ---------------------------------------------------------------------------

/// How many round trips a capture can still make.
pub open spec fn trips_left(captor: Captor, stage: CaptureStage) -> int {
    match stage {
        CaptureStage::Idle => 0,
        CaptureStage::Buffer { trips } => BUFFER_TRIPS - trips + pixel_trips(captor),
        CaptureStage::Pixels { trips, .. } => pixel_trips(captor) - trips,
    }
}

/// A capture ends: every round trip leaves fewer to make, and from the start
/// there are 64 at most.
pub proof fn law_captures_end(captor: Captor, state: ShmState, stage: CaptureStage)
    requires
        stage matches CaptureStage::Buffer { trips } ==> trips < BUFFER_TRIPS,
        stage matches CaptureStage::Pixels { trips, .. } ==> trips < pixel_trips(captor),
    ensures
        trips_left(captor, CaptureStage::Buffer { trips: 0 }) <= 64,
        stage matches CaptureStage::Buffer { trips } ==> 0 <= trips_left(
            captor,
            after_buffer_trip(captor, state, (trips + 1) as u32).0,
        ) < trips_left(captor, stage),
        stage matches CaptureStage::Pixels { trips, spec } ==> 0 <= trips_left(
            captor,
            after_pixel_trip(captor, state, (trips + 1) as u32, spec).0,
        ) < trips_left(captor, stage),
{
}

/// A frame is read only after the compositor has said that it is ready.
pub proof fn law_only_ready_frames_are_read(
    captor: Captor,
    state: ShmState,
    trips: u32,
    spec: BufferSpec,
)
    ensures
        after_pixel_trip(captor, state, trips, spec).1 is Read ==> state.ready,
        !(after_buffer_trip(captor, state, trips).1 is Read),
{
}

/// Each pixel of the frame comes from its own place in the buffer: with its
/// color bytes turned round, from the mirrored row where the buffer is upside
/// down, opaque where the format has no alpha.
pub proof fn law_pixels_keep_their_place(
    src: Seq<u8>,
    spec: BufferSpec,
    y_invert: bool,
    rows: nat,
    x: int,
    y: int,
)
    requires
        0 <= x < spec.width,
        0 <= y < rows <= spec.height,
    ensures
        frame_rows(src, spec, y_invert, rows).len() == 4 * spec.width * rows,
        ({
            let frame = frame_rows(src, spec, y_invert, rows);
            let to = 4 * spec.width * y + 4 * x;
            let from = source_row(spec.height as int, y_invert, y) * spec.stride + 4 * x;
            &&& 0 <= to && to + 3 < frame.len()
            &&& frame[to] == src[from + 2]
            &&& frame[to + 1] == src[from + 1]
            &&& frame[to + 2] == src[from]
            &&& frame[to + 3] == if spec.format == SHM_ARGB8888 {
                src[from + 3]
            } else {
                255
            }
        }),
    decreases rows,
{
    lemma_rows_len(src, spec, y_invert, (rows - 1) as nat);
    lemma_rows_len(src, spec, y_invert, rows);
    let before = frame_rows(src, spec, y_invert, (rows - 1) as nat);
    assert(4 * spec.width * rows == 4 * spec.width * (rows - 1) + 4 * spec.width)
        by (nonlinear_arith);
    if y < rows - 1 {
        law_pixels_keep_their_place(src, spec, y_invert, (rows - 1) as nat, x, y);
    } else {
        assert(4 * spec.width * y >= 0) by (nonlinear_arith)
            requires
                y >= 0,
                spec.width >= 0,
        ;
        let at = source_row(spec.height as int, y_invert, y) * spec.stride;
        let row = pixel_row(src, at, spec.width as nat, spec.format == SHM_ARGB8888);
        assert(4 * x / 4 == x && 4 * x % 4 == 0);
        assert((4 * x + 1) / 4 == x && (4 * x + 1) % 4 == 1);
        assert((4 * x + 2) / 4 == x && (4 * x + 2) % 4 == 2);
        assert((4 * x + 3) % 4 == 3);
        assert(row[4 * x] == src[at + 4 * x + 2]);
        assert(row[4 * x + 1] == src[at + 4 * x + 1]);
        assert(row[4 * x + 2] == src[at + 4 * x]);
    }
}

proof fn lemma_rows_len(src: Seq<u8>, spec: BufferSpec, y_invert: bool, rows: nat)
    ensures
        frame_rows(src, spec, y_invert, rows).len() == 4 * spec.width * rows,
    decreases rows,
{
    if rows > 0 {
        lemma_rows_len(src, spec, y_invert, (rows - 1) as nat);
        assert(4 * spec.width * rows == 4 * spec.width * (rows - 1) + 4 * spec.width)
            by (nonlinear_arith);
    } else {
        assert(4 * spec.width * rows == 0) by (nonlinear_arith)
            requires
                rows == 0,
        ;
    }
}

/// Pixel `x` of row `y` of the frame is red, green, blue, alpha of the pixel
/// that the buffer holds as blue, green, red, alpha at byte `4 * x` of row `y`,
/// or of row `height - 1 - y` where the buffer is upside down. Only the format
/// with alpha has one, every other is opaque.
pub proof fn law_frames_show_the_buffer(
    src: &[u8],
    spec: BufferSpec,
    y_invert: bool,
    frame: IngressFrame,
    x: int,
    y: int,
    from: int,
)
    requires
        call_ensures(shm_to_rgba, (src, spec, y_invert), frame),
        0 <= x < spec.width,
        0 <= y < spec.height,
        y_invert ==> from == (spec.height - 1 - y) * spec.stride + 4 * x,
        !y_invert ==> from == y * spec.stride + 4 * x,
    ensures
        frame.width == spec.width,
        frame.height == spec.height,
        frame.rgba@.len() == 4 * spec.width * spec.height,
        frame.rgba@[4 * spec.width * y + 4 * x] == src@[from + 2],
        frame.rgba@[4 * spec.width * y + 4 * x + 1] == src@[from + 1],
        frame.rgba@[4 * spec.width * y + 4 * x + 2] == src@[from],
        spec.format == 0 ==> frame.rgba@[4 * spec.width * y + 4 * x + 3] == src@[from + 3],
        spec.format != 0 ==> frame.rgba@[4 * spec.width * y + 4 * x + 3] == 255,
{
    law_pixels_keep_their_place(src@, spec, y_invert, spec.height as nat, x, y);
}

/// The flag turns the picture upside down: row `y` of the frame read with it is
/// row `height - 1 - y` of the frame read without it.
pub proof fn law_inverted_frames_are_mirrored(
    src: &[u8],
    spec: BufferSpec,
    upright: IngressFrame,
    inverted: IngressFrame,
    i: int,
    y: int,
)
    requires
        call_ensures(shm_to_rgba, (src, spec, false), upright),
        call_ensures(shm_to_rgba, (src, spec, true), inverted),
        0 <= i < 4 * spec.width,
        0 <= y < spec.height,
    ensures
        upright.rgba@.len() == inverted.rgba@.len(),
        inverted.rgba@[4 * spec.width * y + i] == upright.rgba@[4 * spec.width * (spec.height - 1
            - y) + i],
{
    let x = i / 4;
    let z = spec.height - 1 - y;
    law_frames_show_the_buffer(src, spec, true, inverted, x, y, z * spec.stride + 4 * x);
    law_frames_show_the_buffer(src, spec, false, upright, x, z, z * spec.stride + 4 * x);
    assert(i == 4 * x || i == 4 * x + 1 || i == 4 * x + 2 || i == 4 * x + 3);
}

/// Each event changes what it is about and nothing else: a buffer offer gives
/// the size, the row length and the format (with alpha where it is unknown),
/// flags give the orientation, and the other three say what has happened.
pub proof fn law_events_are_noted(state: &mut ShmState, event: FrameEvent)
    requires
        call_ensures(ShmState::take_in, (state, event), ()),
    ensures
        event matches FrameEvent::Buffer { format, width, height, stride } ==> {
            &&& final(state).spec is Some
            &&& final(state).spec->0.width == width
            &&& final(state).spec->0.height == height
            &&& final(state).spec->0.stride == stride
            &&& format is Some ==> final(state).spec->0.format == format->0
            &&& format is None ==> final(state).spec->0.format == 0
        },
        event !is Buffer ==> final(state).spec == old(state).spec,
        event matches FrameEvent::Flags { y_invert: Some(flag) } ==> final(state).y_invert == flag,
        !(event matches FrameEvent::Flags { y_invert: Some(_) }) ==> final(state).y_invert
            == old(state).y_invert,
        final(state).buffer_done <==> old(state).buffer_done || event is BufferDone,
        final(state).ready <==> old(state).ready || event is Ready,
        final(state).failed <==> old(state).failed || event is Failed,
{
}

/// While a buffer is awaited: a failed frame ends the capture; an offer is
/// taken once the compositor is done offering, once the client has waited
/// eight round trips, or at the thirty-second, into a buffer of as many rows as
/// the frame has; and without an offer the wait ends at the thirty-second.
pub proof fn law_buffer_offers_are_taken(
    capture: &mut ShmCapture,
    action: CaptureAction,
    trips: u32,
)
    requires
        call_ensures(ShmCapture::after_round_trip, (capture,), action),
        old(capture).wf(),
        old(capture).stage == (CaptureStage::Buffer { trips }),
    ensures
        final(capture).state == old(capture).state,
        final(capture).captor == old(capture).captor,
        ({
            let state = old(capture).state;
            let client = old(capture).captor is Client;
            let over = trips + 1 >= 32;
            &&& state.failed ==> action is Nothing && final(capture).stage is Idle
            &&& !state.failed && state.spec is Some && (state.buffer_done || over || client
                && trips >= 8) ==> {
                &&& action == (CaptureAction::Copy {
                    spec: state.spec->0,
                    size: (state.spec->0.stride * state.spec->0.height) as u64,
                })
                &&& final(capture).stage == (CaptureStage::Pixels {
                    trips: 0,
                    spec: state.spec->0,
                })
            }
            &&& !state.failed && state.spec is Some && !state.buffer_done && !over && !(client
                && trips >= 8) ==> action is RoundTrip
            &&& !state.failed && state.spec is None && (state.buffer_done || over) ==> {
                &&& client ==> action is NoBuffer
                &&& !client ==> action is Nothing
                &&& final(capture).stage is Idle
            }
            &&& !state.failed && state.spec is None && !state.buffer_done && !over
                ==> action is RoundTrip
            &&& action is RoundTrip ==> final(capture).stage == (CaptureStage::Buffer {
                trips: (trips + 1) as u32,
            })
        }),
{
}

/// While the copy is awaited: a ready frame is read the way round the
/// compositor said; a client takes no frame that also failed; and a copy that
/// comes to no end is given up after 32 round trips, or 24 by the overlay.
pub proof fn law_ready_frames_are_read(
    capture: &mut ShmCapture,
    action: CaptureAction,
    trips: u32,
    spec: BufferSpec,
)
    requires
        call_ensures(ShmCapture::after_round_trip, (capture,), action),
        old(capture).wf(),
        old(capture).stage == (CaptureStage::Pixels { trips, spec }),
    ensures
        final(capture).state == old(capture).state,
        final(capture).captor == old(capture).captor,
        ({
            let state = old(capture).state;
            let client = old(capture).captor is Client;
            let over = trips + 1 >= if client {
                32int
            } else {
                24
            };
            &&& state.ready && (!client || !state.failed) ==> action == (CaptureAction::Read {
                spec,
                y_invert: state.y_invert,
            }) && final(capture).stage is Idle
            &&& client && state.failed ==> action is Nothing && final(capture).stage is Idle
            &&& !client && state.failed && !state.ready ==> action is Nothing && final(capture).stage is Idle
            &&& !state.ready && !state.failed && !over ==> action is RoundTrip && final(capture).stage == (CaptureStage::Pixels { trips: (trips + 1) as u32, spec })
            &&& !state.ready && !state.failed && over ==> {
                &&& client ==> action is Unfinished
                &&& !client ==> action is Nothing
                &&& final(capture).stage is Idle
            }
        }),
{
}

/// Each global is bound under its own interface name, at the advertised version
/// or the highest that is spoken here: 4, 1 and 3. A second output or shared
/// memory is left alone.
pub proof fn law_globals_are_bound_by_name(
    globals: &mut CaptureGlobals,
    interface: &str,
    version: u32,
    bind: Option<CaptureBind>,
)
    requires
        call_ensures(CaptureGlobals::advertise, (globals, interface, version), bind),
    ensures
        bind matches Some(b) ==> b.version <= version && match b.global {
            CaptureGlobal::Output => interface@ == "wl_output"@ && !old(globals).output && final(globals).output && (b.version == 4 || b.version == version) && b.version <= 4,
            CaptureGlobal::Shm => interface@ == "wl_shm"@ && !old(globals).shm && final(globals).shm && (b.version == 1 || b.version == version) && b.version <= 1,
            CaptureGlobal::Screencopy => interface@ == "zwlr_screencopy_manager_v1"@ && final(globals).screencopy && (b.version == 3 || b.version == version) && b.version <= 3,
        },
        bind is None ==> *final(globals) == *old(globals),
        interface@ == "wl_output"@ && !old(globals).output ==> bind is Some,
        interface@ == "wl_shm"@ && !old(globals).shm ==> bind is Some,
        interface@ == "zwlr_screencopy_manager_v1"@ ==> bind is Some,
        old(globals).output ==> final(globals).output,
        old(globals).shm ==> final(globals).shm,
        old(globals).screencopy ==> final(globals).screencopy,
        final(globals).output && !old(globals).output ==> interface@ == "wl_output"@,
        final(globals).shm && !old(globals).shm ==> interface@ == "wl_shm"@,
        final(globals).screencopy && !old(globals).screencopy ==> interface@
            == "zwlr_screencopy_manager_v1"@,
{
    reveal_strlit("wl_output");
    reveal_strlit("wl_shm");
    reveal_strlit("zwlr_screencopy_manager_v1");
    assert("wl_output"@.len() != "wl_shm"@.len());
    assert("wl_output"@.len() != "zwlr_screencopy_manager_v1"@.len());
    assert("wl_shm"@.len() != "zwlr_screencopy_manager_v1"@.len());
}

/// Memory is made anew exactly when what is held is too small, and is then
/// large enough; it never shrinks.
pub proof fn law_shared_memory_grows(memory: &mut SharedMemory, size: u64, fresh: bool)
    requires
        call_ensures(SharedMemory::grow, (memory, size), fresh),
    ensures
        fresh <==> size > old(memory).held,
        final(memory).held >= size,
        final(memory).held >= old(memory).held,
        !fresh ==> final(memory).held == old(memory).held,
        fresh ==> final(memory).held == size,
{
}

/// A capture can begin exactly where the compositor has all three globals, and
/// is else told the first that it lacks.
pub proof fn law_captures_need_three_globals(globals: &CaptureGlobals, r: Result<(), String>)
    requires
        call_ensures(CaptureGlobals::complete, (globals,), r),
    ensures
        r is Ok <==> globals.output && globals.shm && globals.screencopy,
        r is Err ==> r->Err_0@ == if !globals.output {
            "compositor advertised no wl_output"@
        } else if !globals.shm {
            "compositor has no wl_shm"@
        } else {
            "compositor doesn't implement wlr-screencopy-unstable-v1 (not a wlroots compositor?)"@
        },
{
}

/// The message of a capture that came to nothing says what was awaited, and of
/// a round trip that failed it ends with the reason.
pub proof fn law_failed_captures_say_why(
    capture: &mut ShmCapture,
    reason: &str,
    message: String,
    action: CaptureAction,
    refused: Option<&'static str>,
)
    requires
        call_ensures(ShmCapture::abandon, (capture, reason), message),
        call_ensures(refusal, (action,), refused),
    ensures
        final(capture).stage is Idle,
        message@ == if old(capture).captor is Client {
            if old(capture).stage is Pixels {
                "roundtrip while awaiting ready/failed failed: "@ + reason@
            } else {
                "roundtrip while awaiting buffer spec failed: "@ + reason@
            }
        } else {
            if old(capture).stage is Pixels {
                "screencopy ready roundtrip: "@ + reason@
            } else {
                "screencopy buffer roundtrip: "@ + reason@
            }
        },
        refused is Some <==> action is NoBuffer || action is Unfinished,
        action is NoBuffer ==> refused->0@ == "compositor never sent a 'buffer' event"@,
        action is Unfinished ==> refused->0@ == "frame neither ready nor failed after copy"@,
{
}

/// A new capture has forgotten everything that was said of the last frame.
pub proof fn law_captures_start_afresh(capture: &mut ShmCapture)
    requires
        call_ensures(ShmCapture::begin, (capture,), ()),
    ensures
        final(capture).captor == old(capture).captor,
        final(capture).stage == (CaptureStage::Buffer { trips: 0 }),
        final(capture).state.spec is None,
        !final(capture).state.buffer_done,
        !final(capture).state.y_invert,
        !final(capture).state.ready,
        !final(capture).state.failed,
{
}

/// An event of a frame under capture is noted, and nothing else changes; a new
/// capture has nothing noted.
pub proof fn law_captures_note_events(
    capture: &mut ShmCapture,
    state: &mut ShmState,
    event: FrameEvent,
    captor: Captor,
    fresh: ShmCapture,
)
    requires
        call_ensures(ShmCapture::event, (capture, event), ()),
        *old(state) == old(capture).state,
        call_ensures(ShmState::take_in, (state, event), ()),
        call_ensures(ShmCapture::new, (captor,), fresh),
    ensures
        final(capture).state == *final(state),
        final(capture).captor == old(capture).captor,
        final(capture).stage == old(capture).stage,
        fresh.captor == captor,
        fresh.stage is Idle,
        fresh.state.spec is None,
        !fresh.state.ready,
        !fresh.state.failed,
{
}

} // verus!
