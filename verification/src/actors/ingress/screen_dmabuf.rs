//! Screen capture through `wlr-screencopy` into a DMA-BUF: the compositor says
//! what it wants to write into, a buffer of that make is allocated and turned
//! into a Wayland buffer, the compositor copies the screen into it, and its
//! file descriptor is handed on for import.
//!
//! `DmabufCapture` follows that exchange and decides; whoever holds the
//! connection and the allocator acts.

use crate::actors::ingress::screen_wlr;
use crate::actors::ingress::screen_wlr::FrameEvent;
use crate::actors::ingress::{DmabufFrame, DmabufPlane, DRM_FORMAT_MOD_INVALID};
use crate::text;
use vstd::prelude::*;
use vstd::string::*;

verus! {

// ---------------------------------------------------------------------------
// globals
// ---------------------------------------------------------------------------

#[derive(Debug, Clone, Copy, PartialEq, Eq, Structural)]
pub enum DmabufGlobal {
    Output,
    Screencopy,
    LinuxDmabuf,
}

/// A global to bind, at this version.
#[derive(Debug, Clone, Copy, PartialEq, Eq, Structural)]
pub struct DmabufBind {
    pub global: DmabufGlobal,
    pub version: u32,
}

/// Which globals have been bound.
#[derive(Debug, Clone, Copy, PartialEq, Eq, Structural)]
pub struct DmabufGlobals {
    pub output: bool,
    pub screencopy: bool,
    pub linux_dmabuf: bool,
}

impl DmabufGlobals {
    pub fn new() -> (globals: Self)
        ensures
            globals == (DmabufGlobals { output: false, screencopy: false, linux_dmabuf: false }),
    {
        DmabufGlobals { output: false, screencopy: false, linux_dmabuf: false }
    }

    /// Takes in an advertised global: what to bind, if anything. Of each kind
    /// the first is bound.
    pub fn advertise(&mut self, interface: &str, version: u32) -> (bind: Option<DmabufBind>)
        ensures
            if interface@ == "wl_output"@ && !old(self).output {
                &&& bind == Some(
                    DmabufBind {
                        global: DmabufGlobal::Output,
                        version: screen_wlr::at_most(version, 4),
                    },
                )
                &&& *final(self) == (DmabufGlobals { output: true, ..*old(self) })
            } else if interface@ == "zwlr_screencopy_manager_v1"@ && !old(self).screencopy {
                &&& bind == Some(
                    DmabufBind {
                        global: DmabufGlobal::Screencopy,
                        version: screen_wlr::at_most(version, 3),
                    },
                )
                &&& *final(self) == (DmabufGlobals { screencopy: true, ..*old(self) })
            } else if interface@ == "zwp_linux_dmabuf_v1"@ && !old(self).linux_dmabuf {
                &&& bind == Some(
                    DmabufBind {
                        global: DmabufGlobal::LinuxDmabuf,
                        version: screen_wlr::at_most(version, 3),
                    },
                )
                &&& *final(self) == (DmabufGlobals { linux_dmabuf: true, ..*old(self) })
            } else {
                bind is None && *final(self) == *old(self)
            },
    {
        let name = text::chars_of(interface);
        let name = name.as_slice();
        if text::equals(name, "wl_output") && !self.output {
            self.output = true;
            Some(
                DmabufBind {
                    global: DmabufGlobal::Output,
                    version: screen_wlr::capped(version, 4),
                },
            )
        } else if text::equals(name, "zwlr_screencopy_manager_v1") && !self.screencopy {
            self.screencopy = true;
            Some(
                DmabufBind {
                    global: DmabufGlobal::Screencopy,
                    version: screen_wlr::capped(version, 3),
                },
            )
        } else if text::equals(name, "zwp_linux_dmabuf_v1") && !self.linux_dmabuf {
            self.linux_dmabuf = true;
            Some(
                DmabufBind {
                    global: DmabufGlobal::LinuxDmabuf,
                    version: screen_wlr::capped(version, 3),
                },
            )
        } else {
            None
        }
    }

    /// Whether the compositor has all that is needed, or else what it lacks.
    pub fn complete(&self) -> (r: Result<(), String>)
        ensures
            match r {
                Ok(_) => self.output && self.screencopy && self.linux_dmabuf,
                Err(message) => message@ == if !self.output {
                    "compositor advertised no wl_output"@
                } else if !self.screencopy {
                    "compositor doesn't implement wlr-screencopy-unstable-v1"@
                } else {
                    "compositor doesn't implement zwp_linux_dmabuf_v1 (dmabuf screencopy not supported)"@
                } && !(self.output && self.screencopy && self.linux_dmabuf),
            },
    {
        if !self.output {
            return Err("compositor advertised no wl_output".to_string());
        }
        if !self.screencopy {
            return Err("compositor doesn't implement wlr-screencopy-unstable-v1".to_string());
        }
        if !self.linux_dmabuf {
            return Err(
                "compositor doesn't implement zwp_linux_dmabuf_v1 (dmabuf screencopy not supported)".to_string(),
            );
        }
        Ok(())
    }
}

// ---------------------------------------------------------------------------
// events
// ---------------------------------------------------------------------------

/// What the compositor has said about the frame so far.
#[derive(Debug, Clone, Copy, PartialEq, Eq, Structural)]
pub struct DmabufState {
    pub format: u32,
    pub width: u32,
    pub height: u32,
    pub buffer_done: bool,
    pub y_invert: bool,
    pub ready: bool,
    pub failed: bool,
    pub create_failed: bool,
}

/// Nothing said yet.
pub open spec fn nothing_said() -> DmabufState {
    DmabufState {
        format: 0,
        width: 0,
        height: 0,
        buffer_done: false,
        y_invert: false,
        ready: false,
        failed: false,
        create_failed: false,
    }
}

impl DmabufState {
    /// The state after one more event; an offer of shared memory is of no use.
    pub open spec fn after(self, event: FrameEvent) -> DmabufState {
        match event {
            FrameEvent::LinuxDmabuf { format, width, height } => DmabufState {
                format,
                width,
                height,
                ..self
            },
            FrameEvent::Flags { y_invert: Some(y_invert) } => DmabufState { y_invert, ..self },
            FrameEvent::BufferDone => DmabufState { buffer_done: true, ..self },
            FrameEvent::Ready => DmabufState { ready: true, ..self },
            FrameEvent::Failed => DmabufState { failed: true, ..self },
            _ => self,
        }
    }

    fn nothing() -> (state: Self)
        ensures
            state == nothing_said(),
    {
        DmabufState {
            format: 0,
            width: 0,
            height: 0,
            buffer_done: false,
            y_invert: false,
            ready: false,
            failed: false,
            create_failed: false,
        }
    }

    fn take_in(&mut self, event: FrameEvent)
        ensures
            *final(self) == old(self).after(event),
    {
        match event {
            FrameEvent::LinuxDmabuf { format, width, height } => {
                self.format = format;
                self.width = width;
                self.height = height;
            },
            FrameEvent::Flags { y_invert } => {
                match y_invert {
                    Some(y_invert) => {
                        self.y_invert = y_invert;
                    },
                    None => {},
                }
            },
            FrameEvent::BufferDone => {
                self.buffer_done = true;
            },
            FrameEvent::Ready => {
                self.ready = true;
            },
            FrameEvent::Failed => {
                self.failed = true;
            },
            FrameEvent::Buffer { .. } => {},
        }
    }
}

// ---------------------------------------------------------------------------
// modifiers
// ---------------------------------------------------------------------------

/// The modifier to work with: none given means linear.
pub open spec fn effective_modifier(raw: u64) -> u64 {
    if raw == DRM_FORMAT_MOD_INVALID {
        0
    } else {
        raw
    }
}

/// The two halves in which a modifier is sent, the high one first.
pub fn modifier_halves(raw: u64) -> (halves: (u32, u32))
    ensures
        halves.0 * 0x1_0000_0000 + halves.1 == effective_modifier(raw),
{
    let modifier: u64 = if raw == DRM_FORMAT_MOD_INVALID {
        0
    } else {
        raw
    };
    ((modifier / 0x1_0000_0000) as u32, (modifier % 0x1_0000_0000) as u32)
}

// ---------------------------------------------------------------------------
// the exchange
// ---------------------------------------------------------------------------

/// A buffer of this make was allocated, with this many bytes a row.
#[derive(Debug, Clone, Copy, PartialEq, Eq, Structural)]
pub struct Allocated {
    pub width: u32,
    pub height: u32,
    pub format: u32,
    pub stride: u32,
    pub modifier: u64,
}

/// What is awaited.
#[derive(Debug, Clone, Copy, PartialEq, Eq, Structural)]
pub enum DmabufStage {
    Idle,
    Offer { trips: u32 },
    Allocation { width: u32, height: u32, format: u32 },
    Creation { buffer: Allocated },
    Pixels { trips: u32, buffer: Allocated },
    Descriptor { buffer: Allocated },
}

/// What to do next.
#[derive(Debug)]
pub enum DmabufAction {
    /// Make a round trip.
    RoundTrip,
    /// Allocate a buffer.
    Allocate { width: u32, height: u32, format: u32 },
    /// Make a Wayland buffer of the allocated one, then a round trip.
    Create { buffer: Allocated, modifier_high: u32, modifier_low: u32 },
    /// Have the frame copied into it, then make a round trip.
    Copy,
    /// Destroy the Wayland objects and ask for a descriptor of the buffer.
    TakeDescriptor,
    /// The frame, ready for import.
    Frame(DmabufFrame),
    /// No frame this time; `release` says whether the Wayland objects are to
    /// be destroyed.
    Nothing { release: bool },
    /// The same, for this reason.
    Refused { release: bool, message: String },
}

/// Round trips made at most for the offer and for the copy.
pub const TRIPS: u32 = 32;

/// Round trips after which an offer is taken as the last.
pub const PATIENT_TRIPS: u32 = 8;

pub open spec fn no_offer() -> Seq<char> {
    "compositor didn't send linux_dmabuf event (dmabuf screencopy not supported for this output)"@
}

pub open spec fn never_ready() -> Seq<char> {
    "screencopy frame never became ready"@
}

/// How many round trips a capture can still make. Every round trip leaves
/// fewer, so a capture ends.
pub open spec fn trips_left(stage: DmabufStage) -> int {
    match stage {
        DmabufStage::Offer { trips } => TRIPS - trips + 1 + TRIPS,
        DmabufStage::Allocation { .. } | DmabufStage::Creation { .. } => 1 + TRIPS,
        DmabufStage::Pixels { trips, .. } => TRIPS - trips,
        _ => 0,
    }
}

/// Whether there is no point in waiting for a further offer.
pub open spec fn offer_settled(state: DmabufState, trips: u32) -> bool {
    state.buffer_done || (state.width > 0 && trips > PATIENT_TRIPS) || trips >= TRIPS
}

/// The frame that a buffer with this descriptor holds.
pub open spec fn is_frame(frame: DmabufFrame, buffer: Allocated, fd: i32) -> bool {
    &&& frame.width == buffer.width
    &&& frame.height == buffer.height
    &&& frame.drm_format == buffer.format
    &&& frame.modifier == effective_modifier(buffer.modifier)
    &&& frame.planes@ == seq![DmabufPlane { fd, stride: buffer.stride, offset: 0, plane_index: 0 }]
}

/// One capture after another, through DMA-BUFs.
#[derive(Debug, Clone, Copy)]
pub struct DmabufCapture {
    pub state: DmabufState,
    pub stage: DmabufStage,
}

impl DmabufCapture {
    /// No wait outlasts its limit, and nothing without a width is allocated.
    pub open spec fn wf(&self) -> bool {
        match self.stage {
            DmabufStage::Offer { trips } => trips < TRIPS,
            DmabufStage::Pixels { trips, .. } => trips < TRIPS,
            DmabufStage::Allocation { width, .. } => width > 0,
            _ => true,
        }
    }

    pub fn new() -> (capture: Self)
        ensures
            capture.wf(),
            capture.stage == DmabufStage::Idle,
            capture.state == nothing_said(),
    {
        DmabufCapture { state: DmabufState::nothing(), stage: DmabufStage::Idle }
    }

    /// Starts a capture: what was said of the last frame is forgotten. The
    /// first round trip comes next.
    pub fn begin(&mut self)
        ensures
            final(self).wf(),
            final(self).state == nothing_said(),
            final(self).stage == (DmabufStage::Offer { trips: 0 }),
    {
        self.state = DmabufState::nothing();
        self.stage = DmabufStage::Offer { trips: 0 };
    }

    /// Takes in an event of the frame.
    pub fn event(&mut self, event: FrameEvent)
        requires
            old(self).wf(),
        ensures
            final(self).wf(),
            final(self).stage == old(self).stage,
            final(self).state == old(self).state.after(event),
    {
        self.state.take_in(event);
    }

    /// Takes in that the compositor refused the Wayland buffer.
    pub fn creation_failed(&mut self)
        requires
            old(self).wf(),
        ensures
            final(self).wf(),
            final(self).stage == old(self).stage,
            final(self).state == (DmabufState { create_failed: true, ..old(self).state }),
    {
        self.state.create_failed = true;
    }

    /// Decides what to do after a round trip.
    pub fn after_round_trip(&mut self) -> (action: DmabufAction)
        requires
            old(self).wf(),
            old(self).stage is Offer || old(self).stage is Creation || old(self).stage is Pixels,
        ensures
            final(self).wf(),
            final(self).state == old(self).state,
            0 <= trips_left(final(self).stage) < trips_left(old(self).stage),
            match old(self).stage {
                DmabufStage::Offer { trips } => {
                    let state = old(self).state;
                    if state.failed {
                        &&& final(self).stage == DmabufStage::Idle
                        &&& action == (DmabufAction::Nothing { release: false })
                    } else if !offer_settled(state, (trips + 1) as u32) {
                        &&& final(self).stage == (DmabufStage::Offer { trips: (trips + 1) as u32 })
                        &&& action == DmabufAction::RoundTrip
                    } else if state.width == 0 {
                        &&& final(self).stage == DmabufStage::Idle
                        &&& action matches DmabufAction::Refused { release, message }
                        &&& !release
                        &&& message@ == no_offer()
                    } else {
                        &&& final(self).stage == (DmabufStage::Allocation {
                            width: state.width,
                            height: state.height,
                            format: state.format,
                        })
                        &&& action == (DmabufAction::Allocate {
                            width: state.width,
                            height: state.height,
                            format: state.format,
                        })
                    }
                },
                DmabufStage::Creation { buffer } => if old(self).state.create_failed {
                    &&& final(self).stage == DmabufStage::Idle
                    &&& action == (DmabufAction::Nothing { release: false })
                } else {
                    &&& final(self).stage == (DmabufStage::Pixels { trips: 0, buffer })
                    &&& action == DmabufAction::Copy
                },
                DmabufStage::Pixels { trips, buffer } => {
                    let state = old(self).state;
                    if !state.ready && !state.failed && trips + 1 < TRIPS {
                        &&& final(self).stage == (DmabufStage::Pixels {
                            trips: (trips + 1) as u32,
                            buffer,
                        })
                        &&& action == DmabufAction::RoundTrip
                    } else if state.failed {
                        &&& final(self).stage == DmabufStage::Idle
                        &&& action == (DmabufAction::Nothing { release: true })
                    } else if !state.ready {
                        &&& final(self).stage == DmabufStage::Idle
                        &&& action matches DmabufAction::Refused { release, message }
                        &&& release
                        &&& message@ == never_ready()
                    } else {
                        &&& final(self).stage == (DmabufStage::Descriptor { buffer })
                        &&& action == DmabufAction::TakeDescriptor
                    }
                },
                _ => true,
            },
    {
        let state = self.state;
        match self.stage {
            DmabufStage::Offer { trips } => {
                let trips: u32 = trips + 1;
                if state.failed {
                    self.stage = DmabufStage::Idle;
                    return DmabufAction::Nothing { release: false };
                }
                let settled = state.buffer_done || (state.width > 0 && trips > PATIENT_TRIPS)
                    || trips >= TRIPS;
                if !settled {
                    self.stage = DmabufStage::Offer { trips };
                    return DmabufAction::RoundTrip;
                }
                if state.width == 0 {
                    self.stage = DmabufStage::Idle;
                    return DmabufAction::Refused {
                        release: false,
                        message: "compositor didn't send linux_dmabuf event (dmabuf screencopy not supported for this output)".to_string(),
                    };
                }
                self.stage = DmabufStage::Allocation {
                    width: state.width,
                    height: state.height,
                    format: state.format,
                };
                DmabufAction::Allocate {
                    width: state.width,
                    height: state.height,
                    format: state.format,
                }
            },
            DmabufStage::Creation { buffer } => {
                if state.create_failed {
                    self.stage = DmabufStage::Idle;
                    return DmabufAction::Nothing { release: false };
                }
                self.stage = DmabufStage::Pixels { trips: 0, buffer };
                DmabufAction::Copy
            },
            DmabufStage::Pixels { trips, buffer } => {
                let trips: u32 = trips + 1;
                if !state.ready && !state.failed && trips < TRIPS {
                    self.stage = DmabufStage::Pixels { trips, buffer };
                    return DmabufAction::RoundTrip;
                }
                if state.failed {
                    self.stage = DmabufStage::Idle;
                    return DmabufAction::Nothing { release: true };
                }
                if !state.ready {
                    self.stage = DmabufStage::Idle;
                    return DmabufAction::Refused {
                        release: true,
                        message: "screencopy frame never became ready".to_string(),
                    };
                }
                self.stage = DmabufStage::Descriptor { buffer };
                DmabufAction::TakeDescriptor
            },
            _ => DmabufAction::Nothing { release: false },
        }
    }

    /// Takes in the outcome of the allocation: bytes a row and modifier, or
    /// why it failed.
    pub fn allocated(&mut self, outcome: Result<(u32, u64), String>) -> (action: DmabufAction)
        requires
            old(self).wf(),
            old(self).stage is Allocation,
        ensures
            final(self).wf(),
            final(self).state == old(self).state,
            0 <= trips_left(final(self).stage) <= trips_left(old(self).stage),
            match (old(self).stage, outcome) {
                (DmabufStage::Allocation { width, height, format }, Ok((stride, modifier))) => {
                    let expected = Allocated { width, height, format, stride, modifier };
                    &&& final(self).stage == (DmabufStage::Creation { buffer: expected })
                    &&& action matches DmabufAction::Create {
                        buffer,
                        modifier_high,
                        modifier_low,
                    }
                    &&& buffer == expected
                    &&& modifier_high * 0x1_0000_0000 + modifier_low == effective_modifier(
                        modifier,
                    )
                },
                (DmabufStage::Allocation { .. }, Err(reason)) => {
                    &&& final(self).stage == DmabufStage::Idle
                    &&& action matches DmabufAction::Refused { release, message }
                    &&& !release
                    &&& message == reason
                },
                _ => true,
            },
    {
        match self.stage {
            DmabufStage::Allocation { width, height, format } => match outcome {
                Ok((stride, modifier)) => {
                    let buffer = Allocated { width, height, format, stride, modifier };
                    let (modifier_high, modifier_low) = modifier_halves(modifier);
                    self.stage = DmabufStage::Creation { buffer };
                    DmabufAction::Create { buffer, modifier_high, modifier_low }
                },
                Err(message) => {
                    self.stage = DmabufStage::Idle;
                    DmabufAction::Refused { release: false, message }
                },
            },
            _ => DmabufAction::Nothing { release: false },
        }
    }

    /// Takes in the descriptor of the buffer that holds the frame, or why there
    /// is none.
    pub fn described(&mut self, outcome: Result<i32, String>) -> (action: DmabufAction)
        requires
            old(self).wf(),
            old(self).stage is Descriptor,
        ensures
            final(self).wf(),
            final(self).state == old(self).state,
            final(self).stage == DmabufStage::Idle,
            match (old(self).stage, outcome) {
                (DmabufStage::Descriptor { buffer }, Ok(fd)) => {
                    &&& action matches DmabufAction::Frame(frame)
                    &&& is_frame(frame, buffer, fd)
                },
                (DmabufStage::Descriptor { .. }, Err(reason)) => {
                    &&& action matches DmabufAction::Refused { release, message }
                    &&& !release
                    &&& message == reason
                },
                _ => true,
            },
    {
        match self.stage {
            DmabufStage::Descriptor { buffer } => {
                self.stage = DmabufStage::Idle;
                match outcome {
                    Ok(fd) => {
                        let mut planes: Vec<DmabufPlane> = Vec::new();
                        planes.push(
                            DmabufPlane { fd, stride: buffer.stride, offset: 0, plane_index: 0 },
                        );
                        assert(planes@ =~= seq![
                            DmabufPlane { fd, stride: buffer.stride, offset: 0, plane_index: 0 },
                        ]);
                        let modifier: u64 = if buffer.modifier == DRM_FORMAT_MOD_INVALID {
                            0
                        } else {
                            buffer.modifier
                        };
                        DmabufAction::Frame(
                            DmabufFrame {
                                width: buffer.width,
                                height: buffer.height,
                                drm_format: buffer.format,
                                modifier,
                                planes,
                            },
                        )
                    },
                    Err(message) => DmabufAction::Refused { release: false, message },
                }
            },
            _ => DmabufAction::Nothing { release: false },
        }
    }

    /// Gives up after a round trip that failed.
    pub fn abandon(&mut self, reason: &str) -> (message: String)
        requires
            old(self).wf(),
        ensures
            final(self).wf(),
            final(self).stage == DmabufStage::Idle,
            message@ == trip_failure(old(self).stage) + reason@,
    {
        let mut message = match self.stage {
            DmabufStage::Creation { .. } => "buffer create roundtrip: ".to_string(),
            DmabufStage::Pixels { .. } => "screencopy ready roundtrip: ".to_string(),
            _ => "screencopy buffer roundtrip: ".to_string(),
        };
        self.stage = DmabufStage::Idle;
        message.append(reason);
        message
    }
}

/// How the message for a failed round trip starts.
pub open spec fn trip_failure(stage: DmabufStage) -> Seq<char> {
    match stage {
        DmabufStage::Creation { .. } => "buffer create roundtrip: "@,
        DmabufStage::Pixels { .. } => "screencopy ready roundtrip: "@,
        _ => "screencopy buffer roundtrip: "@,
    }
}

// ---------------------------------------------------------------------------
// laws
// ---------------------------------------------------------------------------

/// A captured frame can be imported if its buffer has a size: the modifier
/// that stands for none is never passed on.
pub proof fn law_captured_frames_can_be_imported(frame: DmabufFrame, buffer: Allocated, fd: i32)
    requires
        is_frame(frame, buffer, fd),
        buffer.width > 0,
        buffer.height > 0,
    ensures
        frame.ready(),
{
}

/// Each event changes what it is about and nothing else: a DMA-BUF offer gives
/// the format and the size, flags give the orientation, and the other three say
/// what has happened.
pub proof fn law_events_are_noted(capture: &mut DmabufCapture, event: FrameEvent)
    requires
        call_ensures(DmabufCapture::event, (capture, event), ()),
    ensures
        final(capture).stage == old(capture).stage,
        event matches FrameEvent::LinuxDmabuf { format, width, height } ==> {
            &&& final(capture).state.format == format
            &&& final(capture).state.width == width
            &&& final(capture).state.height == height
        },
        event !is LinuxDmabuf ==> {
            &&& final(capture).state.format == old(capture).state.format
            &&& final(capture).state.width == old(capture).state.width
            &&& final(capture).state.height == old(capture).state.height
        },
        event matches FrameEvent::Flags { y_invert: Some(flag) } ==> final(capture).state.y_invert
            == flag,
        !(event matches FrameEvent::Flags { y_invert: Some(_) }) ==> final(capture).state.y_invert
            == old(capture).state.y_invert,
        final(capture).state.buffer_done <==> old(capture).state.buffer_done || event
            is BufferDone,
        final(capture).state.ready <==> old(capture).state.ready || event is Ready,
        final(capture).state.failed <==> old(capture).state.failed || event is Failed,
        final(capture).state.create_failed == old(capture).state.create_failed,
{
}

/// A new capture has forgotten everything that was said of the last frame.
pub proof fn law_captures_start_afresh(capture: &mut DmabufCapture)
    requires
        call_ensures(DmabufCapture::begin, (capture,), ()),
    ensures
        final(capture).stage == (DmabufStage::Offer { trips: 0 }),
        final(capture).state.width == 0,
        final(capture).state.height == 0,
        final(capture).state.format == 0,
        !final(capture).state.buffer_done,
        !final(capture).state.y_invert,
        !final(capture).state.ready,
        !final(capture).state.failed,
        !final(capture).state.create_failed,
{
}

/// While an offer is awaited: a failed frame ends the capture; an offer is taken
/// once the compositor is done offering, once eight round trips were made, or
/// at the thirty-second; without one the capture is refused.
pub proof fn law_offers_are_taken(capture: &mut DmabufCapture, action: DmabufAction, trips: u32)
    requires
        call_ensures(DmabufCapture::after_round_trip, (capture,), action),
        old(capture).wf(),
        old(capture).stage == (DmabufStage::Offer { trips }),
    ensures
        final(capture).state == old(capture).state,
        ({
            let state = old(capture).state;
            let over = trips + 1 >= 32;
            &&& state.failed ==> action == (DmabufAction::Nothing { release: false }) && final(
                capture).stage is Idle
            &&& !state.failed && state.width > 0 && (state.buffer_done || over || trips >= 8)
                ==> action == (DmabufAction::Allocate {
                width: state.width,
                height: state.height,
                format: state.format,
            })
            &&& !state.failed && state.width > 0 && !state.buffer_done && !over && trips < 8
                ==> action is RoundTrip
            &&& !state.failed && state.width == 0 && (state.buffer_done || over)
                ==> action is Refused && !action->Refused_release && final(capture).stage is Idle
            &&& !state.failed && state.width == 0 && !state.buffer_done && !over
                ==> action is RoundTrip
            &&& action is RoundTrip ==> final(capture).stage == (DmabufStage::Offer {
                trips: (trips + 1) as u32,
            })
        }),
{
}

/// While the copy is awaited: a failed frame gives nothing and lets the Wayland
/// objects go, a ready one gives its descriptor, and one that is neither is
/// refused at the thirty-second round trip.
pub proof fn law_copies_are_awaited(
    capture: &mut DmabufCapture,
    action: DmabufAction,
    trips: u32,
    buffer: Allocated,
)
    requires
        call_ensures(DmabufCapture::after_round_trip, (capture,), action),
        old(capture).wf(),
        old(capture).stage == (DmabufStage::Pixels { trips, buffer }),
    ensures
        ({
            let state = old(capture).state;
            let over = trips + 1 >= 32;
            &&& state.failed ==> action == (DmabufAction::Nothing { release: true }) && final(
                capture).stage is Idle
            &&& state.ready && !state.failed ==> action is TakeDescriptor && final(capture).stage
                == (DmabufStage::Descriptor { buffer })
            &&& !state.ready && !state.failed && !over ==> action is RoundTrip && final(
                capture).stage == (DmabufStage::Pixels { trips: (trips + 1) as u32, buffer })
            &&& !state.ready && !state.failed && over ==> action is Refused
                && action->Refused_release && final(capture).stage is Idle
        }),
{
}

/// The frame that a capture ends in is the one that was offered: of the offered
/// size and format, in the allocated buffer with its row length and modifier,
/// under the descriptor that was taken. The modifier that stands for none is
/// passed on as linear, to the compositor in two halves and with the frame.
pub proof fn law_captured_frames_are_the_offered_ones(
    offered: &mut DmabufCapture,
    allocated: &mut DmabufCapture,
    created: &mut DmabufCapture,
    copied: &mut DmabufCapture,
    described: &mut DmabufCapture,
    allocate: DmabufAction,
    stride: u32,
    modifier: u64,
    create: DmabufAction,
    copy: DmabufAction,
    take: DmabufAction,
    fd: i32,
    last: DmabufAction,
)
    requires
        old(offered).wf(),
        old(offered).stage is Offer,
        call_ensures(DmabufCapture::after_round_trip, (offered,), allocate),
        allocate is Allocate,
        old(allocated).wf(),
        old(allocated).stage == final(offered).stage,
        call_ensures(DmabufCapture::allocated, (allocated, Ok((stride, modifier))), create),
        old(created).wf(),
        old(created).stage == final(allocated).stage,
        !old(created).state.create_failed,
        call_ensures(DmabufCapture::after_round_trip, (created,), copy),
        old(copied).wf(),
        old(copied).stage == final(created).stage,
        old(copied).state.ready,
        !old(copied).state.failed,
        call_ensures(DmabufCapture::after_round_trip, (copied,), take),
        old(described).wf(),
        old(described).stage == final(copied).stage,
        call_ensures(DmabufCapture::described, (described, Ok(fd)), last),
    ensures
        allocate == (DmabufAction::Allocate {
            width: old(offered).state.width,
            height: old(offered).state.height,
            format: old(offered).state.format,
        }),
        create matches DmabufAction::Create { buffer, modifier_high, modifier_low } && buffer.width
            == old(offered).state.width && buffer.height == old(offered).state.height
            && buffer.format == old(offered).state.format && buffer.stride == stride && (modifier
            == 0xff_ffff_ffff_ffff ==> modifier_high == 0 && modifier_low == 0) && (modifier
            != 0xff_ffff_ffff_ffff ==> modifier_high == modifier / 0x1_0000_0000 && modifier_low
            == modifier % 0x1_0000_0000),
        copy is Copy,
        take is TakeDescriptor,
        last matches DmabufAction::Frame(frame) && frame.width == old(offered).state.width
            && frame.height == old(offered).state.height && frame.drm_format
            == old(offered).state.format && (modifier == 0xff_ffff_ffff_ffff ==> frame.modifier
            == 0) && (modifier != 0xff_ffff_ffff_ffff ==> frame.modifier == modifier)
            && frame.planes@.len() == 1 && frame.planes@[0].fd == fd && frame.planes@[0].stride
            == stride && frame.planes@[0].offset == 0 && frame.planes@[0].plane_index == 0,
        final(described).stage is Idle,
{
}

/// Each global is bound under its own interface name, at the advertised version
/// or the highest that is spoken here: 4, 3 and 3. A second one of a kind is
/// left alone.
pub proof fn law_globals_are_bound_by_name(
    globals: &mut DmabufGlobals,
    interface: &str,
    version: u32,
    bind: Option<DmabufBind>,
)
    requires
        call_ensures(DmabufGlobals::advertise, (globals, interface, version), bind),
    ensures
        bind matches Some(b) ==> b.version <= version && match b.global {
            DmabufGlobal::Output => interface@ == "wl_output"@ && !old(globals).output && final(
                globals).output && b.version <= 4 && (b.version == 4 || b.version == version),
            DmabufGlobal::Screencopy => interface@ == "zwlr_screencopy_manager_v1"@ && !old(
                globals).screencopy && final(globals).screencopy && b.version <= 3 && (b.version
                == 3 || b.version == version),
            DmabufGlobal::LinuxDmabuf => interface@ == "zwp_linux_dmabuf_v1"@ && !old(
                globals).linux_dmabuf && final(globals).linux_dmabuf && b.version <= 3 && (
            b.version == 3 || b.version == version),
        },
        bind is None ==> *final(globals) == *old(globals),
        interface@ == "wl_output"@ && !old(globals).output ==> bind is Some,
        interface@ == "zwlr_screencopy_manager_v1"@ && !old(globals).screencopy ==> bind is Some,
        interface@ == "zwp_linux_dmabuf_v1"@ && !old(globals).linux_dmabuf ==> bind is Some,
        old(globals).output ==> final(globals).output,
        old(globals).screencopy ==> final(globals).screencopy,
        old(globals).linux_dmabuf ==> final(globals).linux_dmabuf,
        final(globals).output && !old(globals).output ==> interface@ == "wl_output"@,
        final(globals).screencopy && !old(globals).screencopy ==> interface@ == "zwlr_screencopy_manager_v1"@,
        final(globals).linux_dmabuf && !old(globals).linux_dmabuf ==> interface@ == "zwp_linux_dmabuf_v1"@,
{
    reveal_strlit("wl_output");
    reveal_strlit("zwlr_screencopy_manager_v1");
    reveal_strlit("zwp_linux_dmabuf_v1");
    assert("wl_output"@.len() != "zwlr_screencopy_manager_v1"@.len());
    assert("wl_output"@.len() != "zwp_linux_dmabuf_v1"@.len());
    assert("zwlr_screencopy_manager_v1"@.len() != "zwp_linux_dmabuf_v1"@.len());
}

/// A capture can begin exactly where the compositor has all three globals, and
/// is else told the first that it lacks.
pub proof fn law_captures_need_three_globals(globals: &DmabufGlobals, r: Result<(), String>)
    requires
        call_ensures(DmabufGlobals::complete, (globals,), r),
    ensures
        r is Ok <==> globals.output && globals.screencopy && globals.linux_dmabuf,
        r is Err ==> r->Err_0@ == if !globals.output {
            "compositor advertised no wl_output"@
        } else if !globals.screencopy {
            "compositor doesn't implement wlr-screencopy-unstable-v1"@
        } else {
            "compositor doesn't implement zwp_linux_dmabuf_v1 (dmabuf screencopy not supported)"@
        },
{
}

/// The message of a round trip that failed says what was awaited and ends with
/// the reason; a capture that is refused says why.
pub proof fn law_failed_captures_say_why(
    capture: &mut DmabufCapture,
    reason: &str,
    message: String,
    tried: &mut DmabufCapture,
    action: DmabufAction,
)
    requires
        call_ensures(DmabufCapture::abandon, (capture, reason), message),
        call_ensures(DmabufCapture::after_round_trip, (tried,), action),
        old(tried).wf(),
        old(tried).stage is Offer || old(tried).stage is Creation || old(tried).stage is Pixels,
        action is Refused,
    ensures
        final(capture).stage is Idle,
        message@ == match old(capture).stage {
            DmabufStage::Creation { .. } => "buffer create roundtrip: "@ + reason@,
            DmabufStage::Pixels { .. } => "screencopy ready roundtrip: "@ + reason@,
            _ => "screencopy buffer roundtrip: "@ + reason@,
        },
        old(tried).stage is Offer ==> action->Refused_message@
            == "compositor didn't send linux_dmabuf event (dmabuf screencopy not supported for this output)"@,
        old(tried).stage is Pixels ==> action->Refused_message@
            == "screencopy frame never became ready"@,
{
}

/// A buffer that could not be allocated, created or described gives no frame,
/// with the reason where there is one.
pub proof fn law_failed_buffers_give_no_frame(
    allocated: &mut DmabufCapture,
    no_memory: String,
    a: DmabufAction,
    created: &mut DmabufCapture,
    b: DmabufAction,
    described: &mut DmabufCapture,
    no_descriptor: String,
    c: DmabufAction,
)
    requires
        old(allocated).stage is Allocation,
        call_ensures(DmabufCapture::allocated, (allocated, Err(no_memory)), a),
        old(created).stage is Creation,
        old(created).state.create_failed,
        call_ensures(DmabufCapture::after_round_trip, (created,), b),
        old(described).stage is Descriptor,
        call_ensures(DmabufCapture::described, (described, Err(no_descriptor)), c),
    ensures
        a == (DmabufAction::Refused { release: false, message: no_memory }),
        final(allocated).stage is Idle,
        b == (DmabufAction::Nothing { release: false }),
        final(created).stage is Idle,
        c == (DmabufAction::Refused { release: false, message: no_descriptor }),
        final(described).stage is Idle,
{
}

/// That the Wayland buffer could not be made is noted, and nothing else; a new
/// capture has nothing noted.
pub proof fn law_failed_creations_are_noted(capture: &mut DmabufCapture, fresh: DmabufCapture)
    requires
        call_ensures(DmabufCapture::creation_failed, (capture,), ()),
        call_ensures(DmabufCapture::new, (), fresh),
    ensures
        final(capture).state.create_failed,
        final(capture).state.ready == old(capture).state.ready,
        final(capture).state.failed == old(capture).state.failed,
        final(capture).state.width == old(capture).state.width,
        final(capture).state.height == old(capture).state.height,
        final(capture).state.format == old(capture).state.format,
        final(capture).stage == old(capture).stage,
        fresh.stage is Idle,
        fresh.state.width == 0,
        !fresh.state.ready,
        !fresh.state.failed,
        !fresh.state.create_failed,
{
}

/// A modifier is sent in its two halves; the one that stands for none as zero.
pub proof fn law_modifiers_are_sent_in_halves(raw: u64, halves: (u32, u32))
    requires
        call_ensures(modifier_halves, (raw,), halves),
    ensures
        raw != 0xff_ffff_ffff_ffff ==> halves.0 == raw / 0x1_0000_0000 && halves.1 == raw
            % 0x1_0000_0000,
        raw == 0xff_ffff_ffff_ffff ==> halves.0 == 0 && halves.1 == 0,
{
}

} // verus!
