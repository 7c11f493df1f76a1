//! The looking-glass overlay: a disc-sized layer surface that can be moved over
//! the output, lets all input through, and shows the screen beneath it.
//!
//! What the compositor says is kept in an `OverlayState`; `OverlayConnect`
//! brings the surface up and an `Overlay` moves, hides and shows it.

pub mod gpu;
pub mod run;
pub mod screen_feed;
pub mod swapchain;

use crate::actors::ingress::screen_wlr;
use crate::actors::ingress::screen_wlr::{
    Captor, CaptureStage, FrameEvent, SharedMemory, ShmCapture,
};
use crate::text;
use vstd::prelude::*;
use vstd::string::*;

verus! {

// ---------------------------------------------------------------------------
// geometry
// ---------------------------------------------------------------------------

/// Diameter of the looking glass in pixels.
pub const BUBBLE_PX: u32 = 220;

/// Milliseconds without input after which the overlay hides.
pub const IDLE_HIDE_MS: u32 = 120_000;

/// How far the disc can be from an edge of an output this long.
pub open spec fn room(output: u32) -> int {
    if output > BUBBLE_PX {
        output - BUBBLE_PX
    } else {
        0
    }
}

/// Left and top margin that centre the disc on an output of this size; an
/// output smaller than the disc counts as large as it.
pub fn center_margins(output_w: u32, output_h: u32) -> (margins: (i32, i32))
    ensures
        margins.0 == room(output_w) / 2,
        margins.1 == room(output_h) / 2,
{
    let w: u32 = if output_w > BUBBLE_PX {
        output_w
    } else {
        BUBBLE_PX
    };
    let h: u32 = if output_h > BUBBLE_PX {
        output_h
    } else {
        BUBBLE_PX
    };
    (((w - BUBBLE_PX) / 2) as i32, ((h - BUBBLE_PX) / 2) as i32)
}

/// Where the disc starts: in the centre.
pub fn disc_origin(output_w: u32, output_h: u32) -> (origin: (i32, i32))
    ensures
        origin.0 == room(output_w) / 2,
        origin.1 == room(output_h) / 2,
{
    center_margins(output_w, output_h)
}

/// `v` kept between zero and `limit`.
pub open spec fn clamped(v: int, limit: int) -> int {
    if v < 0 {
        0
    } else if v > limit {
        limit
    } else {
        v
    }
}

fn clamp_to(v: i32, output: u32) -> (r: i32)
    requires
        output <= i32::MAX,
    ensures
        r == clamped(v as int, room(output)),
{
    let limit: i32 = if output > BUBBLE_PX {
        (output - BUBBLE_PX) as i32
    } else {
        0
    };
    if v < 0 {
        0
    } else if v > limit {
        limit
    } else {
        v
    }
}

/// Margins of the layer surface.
#[derive(Debug, Clone, Copy, PartialEq, Eq, Structural)]
pub struct Margins {
    pub top: i32,
    pub left: i32,
}

/// The margins that take the surface off the output: four discs above it.
pub open spec fn parked_margins() -> Margins {
    Margins { top: (-4 * BUBBLE_PX) as i32, left: 0 }
}

/// A width and a height.
#[derive(Debug, Clone, Copy, PartialEq, Eq, Structural)]
pub struct Extent {
    pub width: u32,
    pub height: u32,
}

// ---------------------------------------------------------------------------
// what the compositor says
// ---------------------------------------------------------------------------

#[derive(Debug, Clone, Copy, PartialEq, Eq, Structural)]
pub enum OverlayGlobal {
    Compositor,
    Output,
    Shm,
    LayerShell,
    Screencopy,
    Seat,
    IdleNotifier,
}

impl OverlayGlobal {
    /// The interface under which the global is advertised.
    pub open spec fn interface(self) -> Seq<char> {
        match self {
            OverlayGlobal::Compositor => "wl_compositor"@,
            OverlayGlobal::Output => "wl_output"@,
            OverlayGlobal::Shm => "wl_shm"@,
            OverlayGlobal::LayerShell => "zwlr_layer_shell_v1"@,
            OverlayGlobal::Screencopy => "zwlr_screencopy_manager_v1"@,
            OverlayGlobal::Seat => "wl_seat"@,
            OverlayGlobal::IdleNotifier => "ext_idle_notifier_v1"@,
        }
    }

    /// The highest version that is bound.
    pub open spec fn limit(self) -> u32 {
        match self {
            OverlayGlobal::Compositor | OverlayGlobal::Output | OverlayGlobal::LayerShell => 4,
            OverlayGlobal::Shm | OverlayGlobal::IdleNotifier => 1,
            OverlayGlobal::Screencopy => 3,
            OverlayGlobal::Seat => 7,
        }
    }

    fn version_limit(self) -> (limit: u32)
        ensures
            limit == self.limit(),
    {
        match self {
            OverlayGlobal::Compositor | OverlayGlobal::Output | OverlayGlobal::LayerShell => 4,
            OverlayGlobal::Shm | OverlayGlobal::IdleNotifier => 1,
            OverlayGlobal::Screencopy => 3,
            OverlayGlobal::Seat => 7,
        }
    }

    /// The global that an interface stands for.
    pub fn of_interface(interface: &str) -> (r: Option<OverlayGlobal>)
        ensures
            match r {
                Some(global) => global.interface() == interface@,
                None => forall|global: OverlayGlobal| #[trigger]
                    global.interface() != interface@,
            },
    {
        let name = text::chars_of(interface);
        let name = name.as_slice();
        if text::equals(name, "wl_compositor") {
            Some(OverlayGlobal::Compositor)
        } else if text::equals(name, "wl_output") {
            Some(OverlayGlobal::Output)
        } else if text::equals(name, "wl_shm") {
            Some(OverlayGlobal::Shm)
        } else if text::equals(name, "zwlr_layer_shell_v1") {
            Some(OverlayGlobal::LayerShell)
        } else if text::equals(name, "zwlr_screencopy_manager_v1") {
            Some(OverlayGlobal::Screencopy)
        } else if text::equals(name, "wl_seat") {
            Some(OverlayGlobal::Seat)
        } else if text::equals(name, "ext_idle_notifier_v1") {
            Some(OverlayGlobal::IdleNotifier)
        } else {
            None
        }
    }
}

/// Which globals have been bound.
#[derive(Debug, Clone, Copy, PartialEq, Eq, Structural)]
pub struct OverlayGlobals {
    pub compositor: bool,
    pub output: bool,
    pub shm: bool,
    pub layer_shell: bool,
    pub screencopy: bool,
    pub seat: bool,
    pub idle_notifier: bool,
}

impl OverlayGlobals {
    pub open spec fn has(self, global: OverlayGlobal) -> bool {
        match global {
            OverlayGlobal::Compositor => self.compositor,
            OverlayGlobal::Output => self.output,
            OverlayGlobal::Shm => self.shm,
            OverlayGlobal::LayerShell => self.layer_shell,
            OverlayGlobal::Screencopy => self.screencopy,
            OverlayGlobal::Seat => self.seat,
            OverlayGlobal::IdleNotifier => self.idle_notifier,
        }
    }

    /// Whether every global of this interface has been bound.
    pub open spec fn covers(self, interface: Seq<char>) -> bool {
        forall|global: OverlayGlobal| #[trigger]
            global.interface() == interface ==> self.has(global)
    }

    /// The same with one more.
    pub open spec fn with(self, global: OverlayGlobal) -> OverlayGlobals {
        match global {
            OverlayGlobal::Compositor => OverlayGlobals { compositor: true, ..self },
            OverlayGlobal::Output => OverlayGlobals { output: true, ..self },
            OverlayGlobal::Shm => OverlayGlobals { shm: true, ..self },
            OverlayGlobal::LayerShell => OverlayGlobals { layer_shell: true, ..self },
            OverlayGlobal::Screencopy => OverlayGlobals { screencopy: true, ..self },
            OverlayGlobal::Seat => OverlayGlobals { seat: true, ..self },
            OverlayGlobal::IdleNotifier => OverlayGlobals { idle_notifier: true, ..self },
        }
    }

    fn bind(&mut self, global: OverlayGlobal) -> (fresh: bool)
        ensures
            fresh == !old(self).has(global),
            *final(self) == old(self).with(global),
    {
        let held = match global {
            OverlayGlobal::Compositor => self.compositor,
            OverlayGlobal::Output => self.output,
            OverlayGlobal::Shm => self.shm,
            OverlayGlobal::LayerShell => self.layer_shell,
            OverlayGlobal::Screencopy => self.screencopy,
            OverlayGlobal::Seat => self.seat,
            OverlayGlobal::IdleNotifier => self.idle_notifier,
        };
        match global {
            OverlayGlobal::Compositor => {
                self.compositor = true;
            },
            OverlayGlobal::Output => {
                self.output = true;
            },
            OverlayGlobal::Shm => {
                self.shm = true;
            },
            OverlayGlobal::LayerShell => {
                self.layer_shell = true;
            },
            OverlayGlobal::Screencopy => {
                self.screencopy = true;
            },
            OverlayGlobal::Seat => {
                self.seat = true;
            },
            OverlayGlobal::IdleNotifier => {
                self.idle_notifier = true;
            },
        }
        !held
    }
}

/// What the compositor has said. The size of the output is zero until its mode
/// is known.
#[derive(Debug, Clone, Copy)]
pub struct OverlayState {
    pub globals: OverlayGlobals,
    pub capture: ShmCapture,
    pub output_width: u32,
    pub output_height: u32,
    pub idle: bool,
    pub width: u32,
    pub height: u32,
    pub configured: bool,
    pub closed: bool,
    pub dirty: bool,
}

/// Whether the compositor has said nothing yet.
pub open spec fn nothing_told(state: OverlayState) -> bool {
    &&& forall|global: OverlayGlobal| !#[trigger] state.globals.has(global)
    &&& state.capture.state == screen_wlr::nothing_said()
    &&& state.capture.stage == CaptureStage::Idle
    &&& state.output_width == 0
    &&& state.output_height == 0
    &&& state.width == 0
    &&& state.height == 0
    &&& !state.idle
    &&& !state.configured
    &&& !state.closed
    &&& !state.dirty
}

impl OverlayState {
    /// The output fits the coordinates of the protocol.
    pub open spec fn wf(&self) -> bool {
        &&& self.output_width <= i32::MAX
        &&& self.output_height <= i32::MAX
        &&& self.capture.wf()
        &&& self.capture.captor == Captor::Overlay
    }

    pub fn new() -> (state: Self)
        ensures
            state.wf(),
            nothing_told(state),
    {
        OverlayState {
            globals: OverlayGlobals {
                compositor: false,
                output: false,
                shm: false,
                layer_shell: false,
                screencopy: false,
                seat: false,
                idle_notifier: false,
            },
            capture: ShmCapture::new(Captor::Overlay),
            output_width: 0,
            output_height: 0,
            idle: false,
            width: 0,
            height: 0,
            configured: false,
            closed: false,
            dirty: false,
        }
    }

    /// Takes in an advertised global: what to bind, and at which version. Of
    /// each kind the first is bound.
    pub fn advertise(&mut self, interface: &str, version: u32) -> (bind: Option<
        (OverlayGlobal, u32),
    >)
        requires
            old(self).wf(),
        ensures
            final(self).wf(),
            *final(self) == (OverlayState { globals: final(self).globals, ..*old(self) }),
            match bind {
                Some((global, v)) => {
                    &&& global.interface() == interface@
                    &&& !old(self).globals.has(global)
                    &&& final(self).globals == old(self).globals.with(global)
                    &&& v == screen_wlr::at_most(version, global.limit())
                },
                None => {
                    &&& final(self).globals == old(self).globals
                    &&& old(self).globals.covers(interface@)
                },
            },
    {
        proof {
            lemma_interfaces_differ();
        }
        match OverlayGlobal::of_interface(interface) {
            Some(global) => {
                if self.globals.bind(global) {
                    Some((global, screen_wlr::capped(version, global.version_limit())))
                } else {
                    None
                }
            },
            None => None,
        }
    }

    /// Takes in a configured size; a zero leaves that side as it was.
    pub fn configure(&mut self, width: u32, height: u32)
        requires
            old(self).wf(),
        ensures
            final(self).wf(),
            *final(self) == (OverlayState {
                width: if width > 0 {
                    width
                } else {
                    old(self).width
                },
                height: if height > 0 {
                    height
                } else {
                    old(self).height
                },
                configured: true,
                dirty: true,
                ..*old(self)
            }),
    {
        if width > 0 {
            self.width = width;
        }
        if height > 0 {
            self.height = height;
        }
        self.configured = true;
        self.dirty = true;
    }

    /// Takes in that the compositor closed the surface.
    pub fn close(&mut self)
        requires
            old(self).wf(),
        ensures
            final(self).wf(),
            *final(self) == (OverlayState { closed: true, ..*old(self) }),
    {
        self.closed = true;
    }

    /// Takes in a mode of the output. Only the current mode counts, which is
    /// taken to be the one whose flags are unknown too.
    pub fn mode(&mut self, current: Option<bool>, width: i32, height: i32)
        requires
            old(self).wf(),
        ensures
            final(self).wf(),
            *final(self) == if current != Some(false) && width > 0 && height > 0 {
                OverlayState {
                    output_width: width as u32,
                    output_height: height as u32,
                    ..*old(self)
                }
            } else {
                *old(self)
            },
    {
        if current != Some(false) && width > 0 && height > 0 {
            self.output_width = width as u32;
            self.output_height = height as u32;
        }
    }

    /// Takes in that input has stopped, or come back.
    pub fn set_idle(&mut self, idle: bool)
        requires
            old(self).wf(),
        ensures
            final(self).wf(),
            *final(self) == (OverlayState { idle, ..*old(self) }),
    {
        self.idle = idle;
    }

    /// Takes in an event of a frame under capture.
    pub fn frame_event(&mut self, event: FrameEvent)
        requires
            old(self).wf(),
        ensures
            final(self).wf(),
            *final(self) == (OverlayState { capture: final(self).capture, ..*old(self) }),
            final(self).capture.stage == old(self).capture.stage,
            final(self).capture.state == old(self).capture.state.after(event),
    {
        self.capture.event(event);
    }
}

/// No two globals share an interface.
proof fn lemma_interfaces_differ()
    ensures
        forall|a: OverlayGlobal, b: OverlayGlobal| #[trigger]
            a.interface() == #[trigger] b.interface() ==> a == b,
{
    reveal_strlit("wl_compositor");
    reveal_strlit("wl_output");
    reveal_strlit("wl_shm");
    reveal_strlit("zwlr_layer_shell_v1");
    reveal_strlit("zwlr_screencopy_manager_v1");
    reveal_strlit("wl_seat");
    reveal_strlit("ext_idle_notifier_v1");
    assert("wl_compositor"@.len() == 13);
    assert("wl_output"@.len() == 9);
    assert("wl_shm"@.len() == 6);
    assert("zwlr_layer_shell_v1"@.len() == 19);
    assert("zwlr_screencopy_manager_v1"@.len() == 26);
    assert("wl_seat"@.len() == 7);
    assert("ext_idle_notifier_v1"@.len() == 20);
}

// ---------------------------------------------------------------------------
// connecting
// ---------------------------------------------------------------------------

/// Round trips that the compositor gets to configure the surface.
pub const CONFIGURE_TRIPS: u32 = 16;

/// The round trip whose end is awaited.
#[derive(Debug, Clone, Copy, PartialEq, Eq, Structural)]
pub enum ConnectStage {
    Registry,
    Output,
    Configure { trips: u32 },
    Over,
}

/// What to do next.
#[derive(Debug)]
pub enum ConnectAction {
    RoundTrip,
    /// Make the layer surface: disc-sized, anchored top left with these
    /// margins, no input and no opaque region; have idleness reported where
    /// `watch_idle` says so. Then make a round trip.
    CreateSurface { margins: Margins, watch_idle: bool },
    /// The surface is up.
    Connected,
    Refused(String),
}

/// The size of the output, with a usual one where no mode was told.
pub open spec fn known_output(state: OverlayState) -> (u32, u32) {
    if state.output_width == 0 || state.output_height == 0 {
        (1920, 1080)
    } else {
        (state.output_width, state.output_height)
    }
}

pub open spec fn no_compositor() -> Seq<char> {
    "compositor did not advertise wl_compositor"@
}

pub open spec fn no_layer_shell() -> Seq<char> {
    "compositor did not advertise zwlr_layer_shell_v1 (need Hyprland / a wlr compositor)"@
}

pub open spec fn not_configured() -> Seq<char> {
    "layer-shell never configured a non-zero size — compositor refused the overlay"@
}

/// Whether the surface has its size.
pub open spec fn is_configured(state: OverlayState) -> bool {
    state.configured && state.width > 0 && state.height > 0
}

/// How the message for a failed round trip starts.
pub open spec fn connect_failure(stage: ConnectStage) -> Seq<char> {
    match stage {
        ConnectStage::Registry => "wayland registry roundtrip: "@,
        ConnectStage::Output => "wayland output roundtrip: "@,
        _ => "wayland configure roundtrip: "@,
    }
}

/// Brings the layer surface up.
#[derive(Debug, Clone, Copy)]
pub struct OverlayConnect {
    pub state: OverlayState,
    pub stage: ConnectStage,
}

impl OverlayConnect {
    pub open spec fn wf(&self) -> bool {
        &&& self.state.wf()
        &&& self.stage matches ConnectStage::Configure { trips } ==> trips < CONFIGURE_TRIPS
    }

    /// Starts: the registry has been asked for, and the first round trip comes
    /// next.
    pub fn begin() -> (connect: Self)
        ensures
            connect.wf(),
            connect.stage == ConnectStage::Registry,
            nothing_told(connect.state),
    {
        OverlayConnect { state: OverlayState::new(), stage: ConnectStage::Registry }
    }

    /// Decides what to do after a round trip: the registry is read, then the
    /// output's mode; then the surface is made, and the compositor has to give
    /// it a size.
    pub fn after_round_trip(&mut self) -> (action: ConnectAction)
        requires
            old(self).wf(),
            old(self).stage != ConnectStage::Over,
        ensures
            final(self).wf(),
            match old(self).stage {
                ConnectStage::Registry => {
                    &&& final(self).stage == ConnectStage::Output
                    &&& final(self).state == old(self).state
                    &&& action is RoundTrip
                },
                ConnectStage::Output => {
                    let output = known_output(old(self).state);
                    &&& final(self).state == (OverlayState {
                        output_width: output.0,
                        output_height: output.1,
                        ..old(self).state
                    })
                    &&& if !old(self).state.globals.compositor {
                        &&& final(self).stage == ConnectStage::Over
                        &&& action matches ConnectAction::Refused(message)
                        &&& message@ == no_compositor()
                    } else if !old(self).state.globals.layer_shell {
                        &&& final(self).stage == ConnectStage::Over
                        &&& action matches ConnectAction::Refused(message)
                        &&& message@ == no_layer_shell()
                    } else {
                        &&& final(self).stage == (ConnectStage::Configure { trips: 0 })
                        &&& action matches ConnectAction::CreateSurface { margins, watch_idle }
                        &&& margins.left == room(output.0) / 2
                        &&& margins.top == room(output.1) / 2
                        &&& watch_idle == (old(self).state.globals.idle_notifier
                            && old(self).state.globals.seat)
                    }
                },
                ConnectStage::Configure { trips } => {
                    &&& final(self).state == old(self).state
                    &&& if is_configured(old(self).state) {
                        final(self).stage == ConnectStage::Over && action is Connected
                    } else if trips + 1 < CONFIGURE_TRIPS {
                        &&& final(self).stage == (ConnectStage::Configure {
                            trips: (trips + 1) as u32,
                        })
                        &&& action is RoundTrip
                    } else {
                        &&& final(self).stage == ConnectStage::Over
                        &&& action matches ConnectAction::Refused(message)
                        &&& message@ == not_configured()
                    }
                },
                ConnectStage::Over => true,
            },
    {
        match self.stage {
            ConnectStage::Registry => {
                self.stage = ConnectStage::Output;
                ConnectAction::RoundTrip
            },
            ConnectStage::Output => {
                if self.state.output_width == 0 || self.state.output_height == 0 {
                    self.state.output_width = 1920;
                    self.state.output_height = 1080;
                }
                if !self.state.globals.compositor {
                    self.stage = ConnectStage::Over;
                    return ConnectAction::Refused(
                        "compositor did not advertise wl_compositor".to_string(),
                    );
                }
                if !self.state.globals.layer_shell {
                    self.stage = ConnectStage::Over;
                    return ConnectAction::Refused(
                        "compositor did not advertise zwlr_layer_shell_v1 (need Hyprland / a wlr compositor)".to_string(),
                    );
                }
                let (left, top) = center_margins(
                    self.state.output_width,
                    self.state.output_height,
                );
                self.stage = ConnectStage::Configure { trips: 0 };
                ConnectAction::CreateSurface {
                    margins: Margins { top, left },
                    watch_idle: self.state.globals.idle_notifier && self.state.globals.seat,
                }
            },
            ConnectStage::Configure { trips } => {
                if self.state.configured && self.state.width > 0 && self.state.height > 0 {
                    self.stage = ConnectStage::Over;
                    return ConnectAction::Connected;
                }
                let trips: u32 = trips + 1;
                if trips < CONFIGURE_TRIPS {
                    self.stage = ConnectStage::Configure { trips };
                    return ConnectAction::RoundTrip;
                }
                self.stage = ConnectStage::Over;
                ConnectAction::Refused(
                    "layer-shell never configured a non-zero size — compositor refused the overlay".to_string(),
                )
            },
            ConnectStage::Over => ConnectAction::RoundTrip,
        }
    }

    /// The message for a round trip that failed.
    pub fn failure(&self, reason: &str) -> (message: String)
        ensures
            message@ == connect_failure(self.stage) + reason@,
    {
        let mut message = match self.stage {
            ConnectStage::Registry => "wayland registry roundtrip: ".to_string(),
            ConnectStage::Output => "wayland output roundtrip: ".to_string(),
            _ => "wayland configure roundtrip: ".to_string(),
        };
        message.append(reason);
        message
    }
}

// ---------------------------------------------------------------------------
// the overlay
// ---------------------------------------------------------------------------

/// The overlay once its surface is up. The bubble's place is its top left in
/// pixels of the output. `memory` is the shared memory that is kept for
/// captures.
#[derive(Debug, Clone, Copy)]
pub struct Overlay {
    pub state: OverlayState,
    pub bubble_x: i32,
    pub bubble_y: i32,
    pub memory: SharedMemory,
}

impl Overlay {
    pub open spec fn wf(&self) -> bool {
        self.state.wf()
    }

    /// Whether the bubble lies on the output; on one smaller than the bubble,
    /// at its corner.
    pub open spec fn on_screen(&self) -> bool {
        &&& 0 <= self.bubble_x <= room(self.state.output_width)
        &&& 0 <= self.bubble_y <= room(self.state.output_height)
    }

    /// The overlay of a surface that was connected, with the bubble in the
    /// centre.
    pub fn new(connected: OverlayConnect) -> (overlay: Self)
        requires
            connected.wf(),
        ensures
            overlay.wf(),
            overlay.state == connected.state,
            overlay.bubble_x == room(connected.state.output_width) / 2,
            overlay.bubble_y == room(connected.state.output_height) / 2,
            overlay.memory.held == 0,
            overlay.on_screen(),
    {
        let (bubble_x, bubble_y) = disc_origin(
            connected.state.output_width,
            connected.state.output_height,
        );
        Overlay { state: connected.state, bubble_x, bubble_y, memory: SharedMemory::new() }
    }

    pub fn extent(&self) -> (extent: Extent)
        ensures
            extent == (Extent { width: self.state.width, height: self.state.height }),
    {
        Extent { width: self.state.width, height: self.state.height }
    }

    /// The size of what is captured: that of the output, never empty.
    pub fn capture_extent(&self) -> (extent: Extent)
        ensures
            extent.width == if self.state.output_width == 0 {
                1
            } else {
                self.state.output_width
            },
            extent.height == if self.state.output_height == 0 {
                1
            } else {
                self.state.output_height
            },
    {
        Extent {
            width: if self.state.output_width == 0 {
                1
            } else {
                self.state.output_width
            },
            height: if self.state.output_height == 0 {
                1
            } else {
                self.state.output_height
            },
        }
    }

    /// Moves the bubble, as far as it stays on the output. Gives the margins to
    /// set; while input is idle the surface stays where it is.
    pub fn set_bubble_pos(&mut self, x: i32, y: i32) -> (margins: Option<Margins>)
        requires
            old(self).wf(),
        ensures
            final(self).wf(),
            *final(self) == (Overlay {
                bubble_x: clamped(x as int, room(old(self).state.output_width)) as i32,
                bubble_y: clamped(y as int, room(old(self).state.output_height)) as i32,
                ..*old(self)
            }),
            final(self).on_screen(),
            margins == if old(self).state.idle {
                None
            } else {
                Some(Margins { top: final(self).bubble_y, left: final(self).bubble_x })
            },
    {
        self.bubble_x = clamp_to(x, self.state.output_width);
        self.bubble_y = clamp_to(y, self.state.output_height);
        if self.state.idle {
            None
        } else {
            Some(self.unpark_at_bubble())
        }
    }

    pub fn closed(&self) -> (closed: bool)
        ensures
            closed == self.state.closed,
    {
        self.state.closed
    }

    /// Whether the surface was configured since this was last asked.
    pub fn take_dirty(&mut self) -> (dirty: bool)
        requires
            old(self).wf(),
        ensures
            final(self).wf(),
            dirty == old(self).state.dirty,
            *final(self) == (Overlay {
                state: OverlayState { dirty: false, ..old(self).state },
                ..*old(self)
            }),
    {
        let dirty = self.state.dirty;
        self.state.dirty = false;
        dirty
    }

    /// Margins that take the surface off the output.
    pub fn park_offscreen(&self) -> (margins: Margins)
        ensures
            margins == parked_margins(),
    {
        Margins { top: -880, left: 0 }
    }

    /// Margins that show the surface at the bubble's place.
    pub fn unpark_at_bubble(&self) -> (margins: Margins)
        ensures
            margins == (Margins { top: self.bubble_y, left: self.bubble_x }),
    {
        Margins { top: self.bubble_y, left: self.bubble_x }
    }

    /// Whether the overlay is to be out of sight.
    pub fn should_hide(&self, locked: bool, sleeping: bool) -> (hide: bool)
        ensures
            hide == (self.state.idle || locked || sleeping),
    {
        self.state.idle || locked || sleeping
    }

    /// Whether a capture of this size needs new shared memory: the memory that
    /// is held is used again as long as it is large enough.
    pub fn grow_shared_memory(&mut self, size: u64) -> (fresh: bool)
        requires
            old(self).wf(),
        ensures
            final(self).wf(),
            fresh == (old(self).memory.held < size),
            *final(self) == (Overlay {
                memory: SharedMemory {
                    held: if old(self).memory.held < size {
                        size
                    } else {
                        old(self).memory.held
                    },
                },
                ..*old(self)
            }),
    {
        self.memory.grow(size)
    }

    /// What a capture by the overlay itself lacks, if anything.
    pub fn capture_globals(&self) -> (r: Result<(), String>)
        ensures
            match r {
                Ok(_) => self.state.globals.output && self.state.globals.screencopy
                    && self.state.globals.shm,
                Err(message) => message@ == if !self.state.globals.output {
                    "no wl_output"@
                } else if !self.state.globals.screencopy {
                    "no wlr-screencopy"@
                } else {
                    "no wl_shm"@
                } && !(self.state.globals.output && self.state.globals.screencopy
                    && self.state.globals.shm),
            },
    {
        if !self.state.globals.output {
            return Err("no wl_output".to_string());
        }
        if !self.state.globals.screencopy {
            return Err("no wlr-screencopy".to_string());
        }
        if !self.state.globals.shm {
            return Err("no wl_shm".to_string());
        }
        Ok(())
    }
}

// ---------------------------------------------------------------------------
// laws
// ---------------------------------------------------------------------------

/// Wherever the bubble is moved to, all of it lies on an output that is at
/// least as large as it.
pub proof fn law_bubble_stays_on_screen(overlay: Overlay)
    requires
        overlay.on_screen(),
        overlay.state.output_width >= BUBBLE_PX,
        overlay.state.output_height >= BUBBLE_PX,
    ensures
        0 <= overlay.bubble_x,
        overlay.bubble_x + BUBBLE_PX <= overlay.state.output_width,
        0 <= overlay.bubble_y,
        overlay.bubble_y + BUBBLE_PX <= overlay.state.output_height,
{
}

/// A place on the output is kept as it is.
pub proof fn law_places_on_screen_are_kept(x: int, output: u32)
    requires
        0 <= x <= room(output),
    ensures
        clamped(x, room(output)) == x,
{
}

/// The centred disc leaves the same room on both sides, up to one pixel.
pub proof fn law_disc_is_centred(output: u32)
    requires
        output >= BUBBLE_PX,
    ensures
        ({
            let before = room(output) / 2;
            let behind = output - BUBBLE_PX - before;
            before <= behind <= before + 1
        }),
{
}

/// The disc starts in the middle of the output, along each side on its own:
/// what is left of the side is split in two halves, up to one pixel; on a side
/// shorter than the disc it starts at the edge.
pub proof fn law_disc_starts_in_the_middle(
    output_w: u32,
    output_h: u32,
    margins: (i32, i32),
    origin: (i32, i32),
)
    requires
        call_ensures(center_margins, (output_w, output_h), margins),
        call_ensures(disc_origin, (output_w, output_h), origin),
    ensures
        origin == margins,
        output_w >= 220 ==> 2 * margins.0 <= output_w - 220 <= 2 * margins.0 + 1,
        output_w < 220 ==> margins.0 == 0,
        output_h >= 220 ==> 2 * margins.1 <= output_h - 220 <= 2 * margins.1 + 1,
        output_h < 220 ==> margins.1 == 0,
{
}

/// A new overlay has what the compositor told and its bubble in the middle.
pub proof fn law_overlays_start_in_the_middle(connected: OverlayConnect, overlay: Overlay)
    requires
        call_ensures(Overlay::new, (connected,), overlay),
    ensures
        overlay.state == connected.state,
        overlay.memory.held == 0,
        connected.state.output_width >= 220 ==> 2 * overlay.bubble_x
            <= connected.state.output_width - 220 <= 2 * overlay.bubble_x + 1,
        connected.state.output_height >= 220 ==> 2 * overlay.bubble_y
            <= connected.state.output_height - 220 <= 2 * overlay.bubble_y + 1,
{
}

/// The bubble goes where it is sent as long as all of it stays on the output,
/// and to the nearest such place otherwise, along each side on its own. The
/// surface follows, its top by the row and its left by the column, unless input
/// is idle.
pub proof fn law_bubble_goes_where_it_is_sent(
    overlay: &mut Overlay,
    x: i32,
    y: i32,
    margins: Option<Margins>,
)
    requires
        call_ensures(Overlay::set_bubble_pos, (overlay, x, y), margins),
    ensures
        final(overlay).state == old(overlay).state,
        final(overlay).memory == old(overlay).memory,
        x < 0 ==> final(overlay).bubble_x == 0,
        y < 0 ==> final(overlay).bubble_y == 0,
        0 <= x && x + 220 <= old(overlay).state.output_width ==> final(overlay).bubble_x == x,
        0 <= y && y + 220 <= old(overlay).state.output_height ==> final(overlay).bubble_y == y,
        0 <= x && x + 220 > old(overlay).state.output_width && old(overlay).state.output_width
            >= 220 ==> final(overlay).bubble_x + 220 == old(overlay).state.output_width,
        0 <= y && y + 220 > old(overlay).state.output_height && old(overlay).state.output_height
            >= 220 ==> final(overlay).bubble_y + 220 == old(overlay).state.output_height,
        old(overlay).state.output_width < 220 ==> final(overlay).bubble_x == 0,
        old(overlay).state.output_height < 220 ==> final(overlay).bubble_y == 0,
        margins is None <==> old(overlay).state.idle,
        margins matches Some(m) ==> m.top == final(overlay).bubble_y && m.left
            == final(overlay).bubble_x,
{
}

/// The surface is parked four discs above the output, out of sight wherever the
/// bubble is, and comes back to where the bubble is.
pub proof fn law_parked_surfaces_are_out_of_sight(
    overlay: &Overlay,
    parked: Margins,
    shown: Margins,
)
    requires
        call_ensures(Overlay::park_offscreen, (overlay,), parked),
        call_ensures(Overlay::unpark_at_bubble, (overlay,), shown),
    ensures
        parked.top == -880,
        parked.left == 0,
        parked.top + 220 < 0,
        shown.top == overlay.bubble_y,
        shown.left == overlay.bubble_x,
{
}

/// The overlay hides while input is idle, the session is locked or the machine
/// is going to sleep, and at no other time.
pub proof fn law_overlay_hides_for_three_reasons(
    overlay: &Overlay,
    locked: bool,
    sleeping: bool,
    hide: bool,
)
    requires
        call_ensures(Overlay::should_hide, (overlay, locked, sleeping), hide),
    ensures
        hide <==> overlay.state.idle || locked || sleeping,
{
}

/// The surface has the configured size; what is captured is the whole output,
/// each side at least one pixel.
pub proof fn law_extents(overlay: &Overlay, own: Extent, captured: Extent)
    requires
        call_ensures(Overlay::extent, (overlay,), own),
        call_ensures(Overlay::capture_extent, (overlay,), captured),
    ensures
        own.width == overlay.state.width,
        own.height == overlay.state.height,
        captured.width >= 1,
        captured.height >= 1,
        overlay.state.output_width > 0 ==> captured.width == overlay.state.output_width,
        overlay.state.output_height > 0 ==> captured.height == overlay.state.output_height,
        captured.width <= overlay.state.output_width || captured.width == 1,
        captured.height <= overlay.state.output_height || captured.height == 1,
{
}

/// A configured size is taken, but for a side of zero, and is news until it is
/// asked for.
pub proof fn law_configured_sizes_are_news(
    state: &mut OverlayState,
    width: u32,
    height: u32,
    overlay: &mut Overlay,
    dirty: bool,
)
    requires
        call_ensures(OverlayState::configure, (state, width, height), ()),
        call_ensures(Overlay::take_dirty, (overlay,), dirty),
    ensures
        final(state).configured,
        final(state).dirty,
        width > 0 ==> final(state).width == width,
        width == 0 ==> final(state).width == old(state).width,
        height > 0 ==> final(state).height == height,
        height == 0 ==> final(state).height == old(state).height,
        final(state).output_width == old(state).output_width,
        final(state).output_height == old(state).output_height,
        final(state).idle == old(state).idle,
        final(state).closed == old(state).closed,
        final(state).globals == old(state).globals,
        dirty == old(overlay).state.dirty,
        !final(overlay).state.dirty,
        final(overlay).bubble_x == old(overlay).bubble_x,
        final(overlay).bubble_y == old(overlay).bubble_y,
        final(overlay).state.width == old(overlay).state.width,
        final(overlay).state.height == old(overlay).state.height,
        final(overlay).state.closed == old(overlay).state.closed,
        final(overlay).state.idle == old(overlay).state.idle,
{
}

/// The output has the size of its last current mode; a mode that is not current
/// or has no size changes nothing.
pub proof fn law_current_modes_count(
    state: &mut OverlayState,
    current: Option<bool>,
    width: i32,
    height: i32,
)
    requires
        call_ensures(OverlayState::mode, (state, current, width, height), ()),
    ensures
        current != Some(false) && width > 0 && height > 0 ==> final(state).output_width == width
            && final(state).output_height == height,
        current == Some(false) || width <= 0 || height <= 0 ==> *final(state) == *old(state),
        final(state).width == old(state).width,
        final(state).height == old(state).height,
        final(state).configured == old(state).configured,
{
}

/// Closing and idleness are taken in as they are told, and nothing else with
/// them.
pub proof fn law_closing_and_idleness_are_told(
    closed: &mut OverlayState,
    told: &mut OverlayState,
    idle: bool,
    overlay: &Overlay,
    is_closed: bool,
)
    requires
        call_ensures(OverlayState::close, (closed,), ()),
        call_ensures(OverlayState::set_idle, (told, idle), ()),
        call_ensures(Overlay::closed, (overlay,), is_closed),
    ensures
        final(closed).closed,
        final(closed).idle == old(closed).idle,
        final(closed).dirty == old(closed).dirty,
        final(told).idle == idle,
        final(told).closed == old(told).closed,
        final(told).dirty == old(told).dirty,
        is_closed == overlay.state.closed,
{
}

/// The surface is made once the registry and the output are known: centred on
/// the output, taken for 1920 by 1080 where its mode was not told, and with
/// idleness watched where there are both a notifier and a seat. Without a
/// compositor or a layer shell there is none.
pub proof fn law_surfaces_are_made_centred(connect: &mut OverlayConnect, action: ConnectAction)
    requires
        call_ensures(OverlayConnect::after_round_trip, (connect,), action),
        old(connect).wf(),
        old(connect).stage is Registry || old(connect).stage is Output,
    ensures
        old(connect).stage is Registry ==> action is RoundTrip && final(connect).stage is Output
            && final(connect).state == old(connect).state,
        old(connect).stage is Output ==> {
            let told = old(connect).state;
            let state = final(connect).state;
            &&& told.output_width > 0 && told.output_height > 0 ==> state.output_width
                == told.output_width && state.output_height == told.output_height
            &&& told.output_width == 0 || told.output_height == 0 ==> state.output_width == 1920
                && state.output_height == 1080
            &&& action is CreateSurface <==> told.globals.compositor && told.globals.layer_shell
            &&& action is Refused <==> !told.globals.compositor || !told.globals.layer_shell
            &&& action matches ConnectAction::CreateSurface { margins, watch_idle } ==> {
                &&& watch_idle <==> told.globals.idle_notifier && told.globals.seat
                &&& state.output_width >= 220 ==> 2 * margins.left <= state.output_width - 220 <= 2
                    * margins.left + 1
                &&& state.output_height >= 220 ==> 2 * margins.top <= state.output_height - 220
                    <= 2 * margins.top + 1
                &&& state.output_width < 220 ==> margins.left == 0
                &&& state.output_height < 220 ==> margins.top == 0
                &&& final(connect).stage == (ConnectStage::Configure { trips: 0 })
            }
        },
{
}

/// The overlay is connected as soon as the compositor gives its surface a size,
/// and refused where that takes more than sixteen round trips.
pub proof fn law_surfaces_are_configured(
    connect: &mut OverlayConnect,
    action: ConnectAction,
    trips: u32,
)
    requires
        call_ensures(OverlayConnect::after_round_trip, (connect,), action),
        old(connect).wf(),
        old(connect).stage == (ConnectStage::Configure { trips }),
    ensures
        final(connect).state == old(connect).state,
        ({
            let state = old(connect).state;
            let sized = state.configured && state.width > 0 && state.height > 0;
            &&& action is Connected <==> sized
            &&& action is RoundTrip <==> !sized && trips < 15
            &&& action is Refused <==> !sized && trips >= 15
            &&& action is RoundTrip ==> final(connect).stage == (ConnectStage::Configure {
                trips: (trips + 1) as u32,
            })
        }),
{
}

/// What is bound is the global that was advertised, under its own interface and
/// at the advertised version or the highest that is spoken here, and only the
/// first of its kind.
pub proof fn law_globals_are_bound_by_name(
    state: &mut OverlayState,
    interface: &str,
    version: u32,
    bind: Option<(OverlayGlobal, u32)>,
)
    requires
        call_ensures(OverlayState::advertise, (state, interface, version), bind),
    ensures
        bind matches Some((global, v)) ==> v <= version && match global {
            OverlayGlobal::Compositor => interface@ == "wl_compositor"@
                && !old(state).globals.compositor && final(state).globals.compositor && v <= 4 && (v
                == 4 || v == version),
            OverlayGlobal::Output => interface@ == "wl_output"@ && !old(state).globals.output
                && final(state).globals.output && v <= 4 && (v == 4 || v == version),
            OverlayGlobal::Shm => interface@ == "wl_shm"@ && !old(state).globals.shm
                && final(state).globals.shm && v <= 1 && (v == 1 || v == version),
            OverlayGlobal::LayerShell => interface@ == "zwlr_layer_shell_v1"@
                && !old(state).globals.layer_shell && final(state).globals.layer_shell && v <= 4
                && (v == 4 || v == version),
            OverlayGlobal::Screencopy => interface@ == "zwlr_screencopy_manager_v1"@
                && !old(state).globals.screencopy && final(state).globals.screencopy && v <= 3 && (v
                == 3 || v == version),
            OverlayGlobal::Seat => interface@ == "wl_seat"@ && !old(state).globals.seat
                && final(state).globals.seat && v <= 7 && (v == 7 || v == version),
            OverlayGlobal::IdleNotifier => interface@ == "ext_idle_notifier_v1"@
                && !old(state).globals.idle_notifier && final(state).globals.idle_notifier && v <= 1
                && (v == 1 || v == version),
        },
        bind is None ==> final(state).globals == old(state).globals,
        old(state).globals.compositor ==> final(state).globals.compositor,
        old(state).globals.output ==> final(state).globals.output,
        old(state).globals.shm ==> final(state).globals.shm,
        old(state).globals.layer_shell ==> final(state).globals.layer_shell,
        old(state).globals.screencopy ==> final(state).globals.screencopy,
        old(state).globals.seat ==> final(state).globals.seat,
        old(state).globals.idle_notifier ==> final(state).globals.idle_notifier,
        final(state).globals.compositor && !old(state).globals.compositor ==> interface@ == "wl_compositor"@,
        final(state).globals.output && !old(state).globals.output ==> interface@ == "wl_output"@,
        final(state).globals.shm && !old(state).globals.shm ==> interface@ == "wl_shm"@,
        final(state).globals.layer_shell && !old(state).globals.layer_shell ==> interface@ == "zwlr_layer_shell_v1"@,
        final(state).globals.screencopy && !old(state).globals.screencopy ==> interface@ == "zwlr_screencopy_manager_v1"@,
        final(state).globals.seat && !old(state).globals.seat ==> interface@ == "wl_seat"@,
        final(state).globals.idle_notifier && !old(state).globals.idle_notifier ==> interface@ == "ext_idle_notifier_v1"@,
        interface@ == "wl_compositor"@ && !old(state).globals.compositor ==> bind is Some,
        interface@ == "wl_output"@ && !old(state).globals.output ==> bind is Some,
        interface@ == "wl_shm"@ && !old(state).globals.shm ==> bind is Some,
        interface@ == "zwlr_layer_shell_v1"@ && !old(state).globals.layer_shell ==> bind is Some,
        interface@ == "zwlr_screencopy_manager_v1"@ && !old(state).globals.screencopy
            ==> bind is Some,
        interface@ == "wl_seat"@ && !old(state).globals.seat ==> bind is Some,
        interface@ == "ext_idle_notifier_v1"@ && !old(state).globals.idle_notifier
            ==> bind is Some,
        final(state).output_width == old(state).output_width,
        final(state).closed == old(state).closed,
{
    lemma_interfaces_differ();
    assert(OverlayGlobal::Compositor.interface() == "wl_compositor"@);
    assert(OverlayGlobal::Output.interface() == "wl_output"@);
    assert(OverlayGlobal::Shm.interface() == "wl_shm"@);
    assert(OverlayGlobal::LayerShell.interface() == "zwlr_layer_shell_v1"@);
    assert(OverlayGlobal::Screencopy.interface() == "zwlr_screencopy_manager_v1"@);
    assert(OverlayGlobal::Seat.interface() == "wl_seat"@);
    assert(OverlayGlobal::IdleNotifier.interface() == "ext_idle_notifier_v1"@);
}

/// The overlay itself can capture exactly where there are an output, a
/// screencopy manager and shared memory.
pub proof fn law_own_captures_need_three_globals(overlay: &Overlay, r: Result<(), String>)
    requires
        call_ensures(Overlay::capture_globals, (overlay,), r),
    ensures
        r is Ok <==> overlay.state.globals.output && overlay.state.globals.screencopy
            && overlay.state.globals.shm,
{
}

/// Why the overlay is not connected: the message of a round trip that failed
/// says which and ends with the reason, and a compositor that lacks something
/// is told what.
pub proof fn law_refused_overlays_say_why(
    connect: &OverlayConnect,
    reason: &str,
    message: String,
    tried: &mut OverlayConnect,
    action: ConnectAction,
)
    requires
        call_ensures(OverlayConnect::failure, (connect, reason), message),
        call_ensures(OverlayConnect::after_round_trip, (tried,), action),
        action is Refused,
        old(tried).wf(),
        old(tried).stage != ConnectStage::Over,
    ensures
        message@ == match connect.stage {
            ConnectStage::Registry => "wayland registry roundtrip: "@ + reason@,
            ConnectStage::Output => "wayland output roundtrip: "@ + reason@,
            _ => "wayland configure roundtrip: "@ + reason@,
        },
        action->Refused_0@ == if old(tried).stage is Configure {
            "layer-shell never configured a non-zero size — compositor refused the overlay"@
        } else if !old(tried).state.globals.compositor {
            "compositor did not advertise wl_compositor"@
        } else {
            "compositor did not advertise zwlr_layer_shell_v1 (need Hyprland / a wlr compositor)"@
        },
{
}

/// What a capture by the overlay itself lacks, the first of the three.
pub proof fn law_own_captures_say_what_they_lack(overlay: &Overlay, r: Result<(), String>)
    requires
        call_ensures(Overlay::capture_globals, (overlay,), r),
        r is Err,
    ensures
        r->Err_0@ == if !overlay.state.globals.output {
            "no wl_output"@
        } else if !overlay.state.globals.screencopy {
            "no wlr-screencopy"@
        } else {
            "no wl_shm"@
        },
{
}

/// The compositor's frame events reach the capture, and a fresh overlay has
/// been told nothing.
pub proof fn law_frame_events_reach_the_capture(
    state: &mut OverlayState,
    capture: &mut ShmCapture,
    event: FrameEvent,
    fresh: OverlayState,
)
    requires
        call_ensures(OverlayState::frame_event, (state, event), ()),
        *old(capture) == old(state).capture,
        call_ensures(ShmCapture::event, (capture, event), ()),
        call_ensures(OverlayState::new, (), fresh),
    ensures
        final(state).capture.state == final(capture).state,
        final(state).capture.stage == old(state).capture.stage,
        final(state).width == old(state).width,
        final(state).height == old(state).height,
        final(state).idle == old(state).idle,
        final(state).closed == old(state).closed,
        fresh.output_width == 0,
        fresh.output_height == 0,
        fresh.width == 0,
        fresh.height == 0,
        !fresh.idle,
        !fresh.configured,
        !fresh.closed,
        !fresh.dirty,
        !fresh.globals.compositor,
        !fresh.globals.output,
        !fresh.globals.shm,
        !fresh.globals.layer_shell,
        !fresh.globals.screencopy,
        !fresh.globals.seat,
        !fresh.globals.idle_notifier,
{
    assert(!fresh.globals.has(OverlayGlobal::Compositor));
    assert(!fresh.globals.has(OverlayGlobal::Output));
    assert(!fresh.globals.has(OverlayGlobal::Shm));
    assert(!fresh.globals.has(OverlayGlobal::LayerShell));
    assert(!fresh.globals.has(OverlayGlobal::Screencopy));
    assert(!fresh.globals.has(OverlayGlobal::Seat));
    assert(!fresh.globals.has(OverlayGlobal::IdleNotifier));
}

/// Connecting begins with the registry, and the memory for captures is made
/// anew exactly when what is held is too small.
pub proof fn law_connecting_begins_with_the_registry(
    connect: OverlayConnect,
    overlay: &mut Overlay,
    size: u64,
    fresh: bool,
)
    requires
        call_ensures(OverlayConnect::begin, (), connect),
        call_ensures(Overlay::grow_shared_memory, (overlay, size), fresh),
    ensures
        connect.stage is Registry,
        connect.state.output_width == 0,
        connect.state.output_height == 0,
        !connect.state.configured,
        fresh <==> size > old(overlay).memory.held,
        fresh ==> final(overlay).memory.held == size,
        !fresh ==> final(overlay).memory.held == old(overlay).memory.held,
        final(overlay).state == old(overlay).state,
        final(overlay).bubble_x == old(overlay).bubble_x,
        final(overlay).bubble_y == old(overlay).bubble_y,
{
}

} // verus!
