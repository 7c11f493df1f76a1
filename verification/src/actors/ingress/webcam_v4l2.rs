//! Webcam capture through V4L2: request codes, the bytes of each argument, and
//! what is decided from the bytes that come back.
//!
//! The structures of the kernel's interface are kept as runs of bytes; whoever
//! holds the device passes them to `ioctl` and hands back what it left in them.

use crate::actors::ingress::IngressFrame;
use crate::bytes as le;
use crate::text;
use vstd::prelude::*;
use vstd::string::*;

verus! {

// ---------------------------------------------------------------------------
// request codes
// ---------------------------------------------------------------------------

pub const IOC_WRITE: u32 = 1;

pub const IOC_READ: u32 = 2;

/// The letter `V`.
pub const V_TYPE: u32 = 86;

/// An `ioctl` request code: number and type a byte each from the low end, then
/// fourteen bits of size and two of direction.
pub fn ioc(dir: u32, ty: u32, nr: u32, size: u32) -> (code: u32)
    ensures
        code == (dir << 30) | (ty << 8) | nr | (size << 16),
        dir < 4 && ty < 256 && nr < 256 && size < 0x4000 ==> code == nr + 0x100 * ty + 0x1_0000
            * size + 0x4000_0000 * dir,
{
    let code: u32 = (dir << 30) | (ty << 8) | nr | (size << 16);
    assert(dir < 4 && ty < 256 && nr < 256 && size < 0x4000 ==> code == nr + 0x100 * ty + 0x1_0000
        * size + 0x4000_0000 * dir) by (bit_vector)
        requires
            code == (dir << 30) | (ty << 8) | nr | (size << 16),
    ;
    code
}

/// Bytes of the kernel's `v4l2_pix_format`.
pub const PIX_FORMAT_BYTES: u32 = 48;

/// Bytes of `v4l2_format`: the type, padded to eight, and a union of 200.
pub const FORMAT_BYTES: u32 = 208;

/// Bytes of `v4l2_capability`.
pub const CAPABILITY_BYTES: u32 = 104;

/// Bytes of `v4l2_requestbuffers`.
pub const REQUEST_BUFFERS_BYTES: u32 = 20;

/// Bytes of `v4l2_buffer`.
pub const BUFFER_BYTES: u32 = 88;

pub fn videoc_querycap() -> (code: u32)
    ensures
        code == 0x8068_5600,
{
    ioc(IOC_READ, V_TYPE, 0, CAPABILITY_BYTES)
}

pub fn videoc_s_fmt() -> (code: u32)
    ensures
        code == 0xc0d0_5605,
{
    ioc(IOC_READ + IOC_WRITE, V_TYPE, 5, FORMAT_BYTES)
}

pub fn videoc_reqbufs() -> (code: u32)
    ensures
        code == 0xc014_5608,
{
    ioc(IOC_READ + IOC_WRITE, V_TYPE, 8, REQUEST_BUFFERS_BYTES)
}

pub fn videoc_querybuf() -> (code: u32)
    ensures
        code == 0xc058_5609,
{
    ioc(IOC_READ + IOC_WRITE, V_TYPE, 9, BUFFER_BYTES)
}

pub fn videoc_qbuf() -> (code: u32)
    ensures
        code == 0xc058_560f,
{
    ioc(IOC_READ + IOC_WRITE, V_TYPE, 15, BUFFER_BYTES)
}

pub fn videoc_dqbuf() -> (code: u32)
    ensures
        code == 0xc058_5611,
{
    ioc(IOC_READ + IOC_WRITE, V_TYPE, 17, BUFFER_BYTES)
}

pub fn videoc_streamon() -> (code: u32)
    ensures
        code == 0x4004_5612,
{
    ioc(IOC_WRITE, V_TYPE, 18, 4)
}

pub fn videoc_streamoff() -> (code: u32)
    ensures
        code == 0x4004_5613,
{
    ioc(IOC_WRITE, V_TYPE, 19, 4)
}

// ---------------------------------------------------------------------------
// arguments
// ---------------------------------------------------------------------------

/// Video capture, as a buffer type.
pub const BUF_TYPE_VIDEO_CAPTURE: u32 = 1;

/// Progressive frames.
pub const FIELD_NONE: u32 = 1;

/// Buffers that the driver allocates and the client maps.
pub const MEMORY_MMAP: u32 = 1;

/// `R`, `G`, `B`, `3`, least significant byte first.
pub const V4L2_PIX_FMT_RGB24: u32 = 0x3342_4752;

/// A `v4l2_format` that asks for RGB frames of this size, in words.
pub open spec fn format_words(width: u32, height: u32) -> Seq<u32> {
    Seq::new(
        52,
        |i: int|
            if i == 0 {
                BUF_TYPE_VIDEO_CAPTURE
            } else if i == 2 {
                width
            } else if i == 3 {
                height
            } else if i == 4 {
                V4L2_PIX_FMT_RGB24
            } else if i == 5 {
                FIELD_NONE
            } else {
                0
            },
    )
}

/// A `v4l2_requestbuffers` for one mapped buffer, in words.
pub open spec fn request_words() -> Seq<u32> {
    seq![1u32, BUF_TYPE_VIDEO_CAPTURE, MEMORY_MMAP, 0u32, 0u32]
}

/// A `v4l2_buffer` that names the mapped buffer `index`, in words.
pub open spec fn buffer_words(index: u32) -> Seq<u32> {
    Seq::new(
        22,
        |i: int|
            if i == 0 {
                index
            } else if i == 1 {
                BUF_TYPE_VIDEO_CAPTURE
            } else if i == 15 {
                MEMORY_MMAP
            } else {
                0
            },
    )
}

fn zero_words(n: usize) -> (words: Vec<u32>)
    ensures
        words@ == Seq::new(n as nat, |i: int| 0u32),
{
    let mut words: Vec<u32> = Vec::new();
    while words.len() < n
        invariant
            words@.len() <= n,
            words@ == Seq::new(words@.len(), |i: int| 0u32),
        decreases n - words@.len(),
    {
        words.push(0);
        assert(words@ =~= Seq::new(words@.len(), |i: int| 0u32));
    }
    words
}

/// One `ioctl` to make: the request, its argument, and its name for messages.
#[derive(Debug)]
pub struct IoctlCall {
    pub request: u32,
    pub arg: Vec<u8>,
    pub what: &'static str,
}

impl IoctlCall {
    /// Whether this is the named request with these words for its argument.
    pub open spec fn asks(&self, request: u32, words: Seq<u32>, what: Seq<char>) -> bool {
        &&& self.request == request
        &&& self.arg@ == le::words_bytes(words)
        &&& self.what@ == what
    }
}

pub fn querycap_call() -> (call: IoctlCall)
    ensures
        call.asks(0x8068_5600, Seq::new(26, |i: int| 0u32), "VIDIOC_QUERYCAP"@),
        call.arg@.len() == CAPABILITY_BYTES,
{
    let words = zero_words(26);
    IoctlCall {
        request: videoc_querycap(),
        arg: le::encode_words(words.as_slice()),
        what: "VIDIOC_QUERYCAP",
    }
}

pub fn format_call(width: u32, height: u32) -> (call: IoctlCall)
    ensures
        call.asks(0xc0d0_5605, format_words(width, height), "VIDIOC_S_FMT"@),
        call.arg@.len() == FORMAT_BYTES,
{
    let mut words = zero_words(52);
    words.set(0, BUF_TYPE_VIDEO_CAPTURE);
    words.set(2, width);
    words.set(3, height);
    words.set(4, V4L2_PIX_FMT_RGB24);
    words.set(5, FIELD_NONE);
    assert(words@ =~= format_words(width, height));
    IoctlCall {
        request: videoc_s_fmt(),
        arg: le::encode_words(words.as_slice()),
        what: "VIDIOC_S_FMT",
    }
}

pub fn reqbufs_call() -> (call: IoctlCall)
    ensures
        call.asks(0xc014_5608, request_words(), "VIDIOC_REQBUFS"@),
        call.arg@.len() == REQUEST_BUFFERS_BYTES,
{
    let words: [u32; 5] = [1, BUF_TYPE_VIDEO_CAPTURE, MEMORY_MMAP, 0, 0];
    assert(words@ =~= request_words());
    IoctlCall {
        request: videoc_reqbufs(),
        arg: le::encode_words(words.as_slice()),
        what: "VIDIOC_REQBUFS",
    }
}

fn buffer_arg(index: u32) -> (arg: Vec<u8>)
    ensures
        arg@ == le::words_bytes(buffer_words(index)),
        arg@.len() == BUFFER_BYTES,
{
    let mut words = zero_words(22);
    words.set(0, index);
    words.set(1, BUF_TYPE_VIDEO_CAPTURE);
    words.set(15, MEMORY_MMAP);
    assert(words@ =~= buffer_words(index));
    le::encode_words(words.as_slice())
}

pub fn querybuf_call() -> (call: IoctlCall)
    ensures
        call.asks(0xc058_5609, buffer_words(0), "VIDIOC_QUERYBUF"@),
        call.arg@.len() == BUFFER_BYTES,
{
    IoctlCall { request: videoc_querybuf(), arg: buffer_arg(0), what: "VIDIOC_QUERYBUF" }
}

pub fn qbuf_call() -> (call: IoctlCall)
    ensures
        call.asks(0xc058_560f, buffer_words(0), "VIDIOC_QBUF"@),
        call.arg@.len() == BUFFER_BYTES,
{
    IoctlCall { request: videoc_qbuf(), arg: buffer_arg(0), what: "VIDIOC_QBUF" }
}

pub fn requeue_call(index: u32) -> (call: IoctlCall)
    ensures
        call.asks(0xc058_560f, buffer_words(index), "VIDIOC_QBUF (requeue)"@),
        call.arg@.len() == BUFFER_BYTES,
{
    IoctlCall { request: videoc_qbuf(), arg: buffer_arg(index), what: "VIDIOC_QBUF (requeue)" }
}

pub fn dqbuf_call() -> (call: IoctlCall)
    ensures
        call.asks(0xc058_5611, buffer_words(0), "VIDIOC_DQBUF"@),
        call.arg@.len() == BUFFER_BYTES,
{
    IoctlCall { request: videoc_dqbuf(), arg: buffer_arg(0), what: "VIDIOC_DQBUF" }
}

fn type_arg() -> (arg: Vec<u8>)
    ensures
        arg@ == le::words_bytes(seq![BUF_TYPE_VIDEO_CAPTURE]),
{
    let words: [u32; 1] = [BUF_TYPE_VIDEO_CAPTURE];
    assert(words@ =~= seq![BUF_TYPE_VIDEO_CAPTURE]);
    le::encode_words(words.as_slice())
}

pub fn streamon_call() -> (call: IoctlCall)
    ensures
        call.asks(0x4004_5612, seq![BUF_TYPE_VIDEO_CAPTURE], "VIDIOC_STREAMON"@),
{
    IoctlCall { request: videoc_streamon(), arg: type_arg(), what: "VIDIOC_STREAMON" }
}

pub fn streamoff_call() -> (call: IoctlCall)
    ensures
        call.asks(0x4004_5613, seq![BUF_TYPE_VIDEO_CAPTURE], "VIDIOC_STREAMOFF"@),
{
    IoctlCall { request: videoc_streamoff(), arg: type_arg(), what: "VIDIOC_STREAMOFF" }
}

// ---------------------------------------------------------------------------
// opening a device
// ---------------------------------------------------------------------------

/// How far the opening of a device has come: the call whose outcome is awaited.
#[derive(Debug, Clone, Copy, PartialEq, Eq, Structural)]
pub enum OpenStage {
    Capability,
    Format,
    Buffers,
    Location,
    Mapping,
    Over,
}

/// What became of the last call. A call that succeeded leaves its argument
/// filled in; a mapping leaves nothing.
#[derive(Debug)]
pub enum CallOutcome {
    Done(Vec<u8>),
    /// The call would have had to wait, for this reason. Only a buffer that is
    /// not filled yet is waited for; to any other call this is a failure.
    WouldBlock(String),
    Failed(String),
}

/// What to do next.
#[derive(Debug)]
pub enum OpenAction {
    Call(IoctlCall),
    /// Map this many bytes of the device from this offset.
    MapBuffer { length: u32, offset: u32 },
    /// The device is open and delivers frames of this size.
    Opened { width: u32, height: u32, length: u32 },
    Refused(String),
}

/// The opening of one device.
#[derive(Debug)]
pub struct WebcamOpen {
    pub path: String,
    pub stage: OpenStage,
    pub width: u32,
    pub height: u32,
    pub length: u32,
}

/// Bytes that the awaited call leaves.
pub open spec fn awaited_bytes(stage: OpenStage) -> nat {
    match stage {
        OpenStage::Capability => CAPABILITY_BYTES as nat,
        OpenStage::Format => FORMAT_BYTES as nat,
        OpenStage::Buffers => REQUEST_BUFFERS_BYTES as nat,
        OpenStage::Location => BUFFER_BYTES as nat,
        _ => 0,
    }
}

/// The message for a failed call.
pub open spec fn failed_message(what: Seq<char>, reason: Seq<char>) -> Seq<char> {
    what + " failed: "@ + reason
}

pub fn ioctl_failure(what: &str, reason: &str) -> (message: String)
    ensures
        message@ == failed_message(what@, reason@),
{
    let mut message = what.to_string();
    message.append(" failed: ");
    message.append(reason);
    message
}

pub open spec fn open_message(path: Seq<char>, reason: Seq<char>) -> Seq<char> {
    "couldn't open "@ + path + ": "@ + reason
}

/// The message for a device node that could not be opened.
pub fn open_failure(path: &str, reason: &str) -> (message: String)
    ensures
        message@ == open_message(path@, reason@),
{
    let mut message = "couldn't open ".to_string();
    message.append(path);
    message.append(": ");
    message.append(reason);
    message
}

/// The name of the awaited call.
pub open spec fn awaited_call(stage: OpenStage) -> Seq<char> {
    match stage {
        OpenStage::Capability => "VIDIOC_QUERYCAP"@,
        OpenStage::Format => "VIDIOC_S_FMT"@,
        OpenStage::Buffers => "VIDIOC_REQBUFS"@,
        OpenStage::Location => "VIDIOC_QUERYBUF"@,
        _ => "mmap of capture buffer"@,
    }
}

/// Whether a `v4l2_capability` reports video capture: the lowest bit of its
/// capabilities.
pub open spec fn reports_capture(cap: Seq<u8>) -> bool {
    le::word_at(cap, 84) % 2 == 1
}

pub open spec fn no_rgb_message(path: Seq<char>, fourcc: u32) -> Seq<char> {
    path + " doesn't support RGB24 (got fourcc 0x"@ + text::hex_fixed(
        fourcc as nat,
        text::hex_width(fourcc as nat),
        false,
    ) + ") — this minimal backend doesn't do YUV conversion"@
}

fn no_rgb_text(path: &str, fourcc: u32) -> (message: String)
    ensures
        message@ == no_rgb_message(path@, fourcc),
{
    let mut message = path.to_string();
    message.append(" doesn't support RGB24 (got fourcc 0x");
    let width: u8 = text::count_hex_digits(fourcc);
    text::push_hex(&mut message, fourcc as u64, width, false);
    message.append(") — this minimal backend doesn't do YUV conversion");
    message
}

impl WebcamOpen {
    /// Starts the opening of a device node that could be opened: what to call
    /// first.
    pub fn begin(path: &str, width: u32, height: u32) -> (r: (WebcamOpen, IoctlCall))
        ensures
            r.0.path@ == path@,
            r.0.stage == OpenStage::Capability,
            r.0.width == width,
            r.0.height == height,
            r.1.asks(0x8068_5600, Seq::new(26, |i: int| 0u32), "VIDIOC_QUERYCAP"@),
    {
        (
            WebcamOpen {
                path: path.to_string(),
                stage: OpenStage::Capability,
                width,
                height,
                length: 0,
            },
            querycap_call(),
        )
    }

    /// Takes in the outcome of the last call. The device must capture video,
    /// deliver RGB (it may change the size), and grant a buffer, which is then
    /// located and mapped.
    pub fn step(&mut self, outcome: CallOutcome) -> (action: OpenAction)
        requires
            old(self).stage != OpenStage::Over,
            outcome matches CallOutcome::Done(bytes) ==> bytes.len() == awaited_bytes(
                old(self).stage,
            ),
        ensures
            final(self).path == old(self).path,
            match outcome {
                CallOutcome::Failed(reason) | CallOutcome::WouldBlock(reason) => {
                    &&& final(self).stage == OpenStage::Over
                    &&& action matches OpenAction::Refused(message)
                    &&& message@ == failed_message(awaited_call(old(self).stage), reason@)
                },
                CallOutcome::Done(bytes) => match old(self).stage {
                    OpenStage::Capability => if reports_capture(bytes@) {
                        &&& final(self).stage == OpenStage::Format
                        &&& final(self).width == old(self).width
                        &&& final(self).height == old(self).height
                        &&& action matches OpenAction::Call(call)
                        &&& call.asks(
                            0xc0d0_5605,
                            format_words(old(self).width, old(self).height),
                            "VIDIOC_S_FMT"@,
                        )
                    } else {
                        &&& final(self).stage == OpenStage::Over
                        &&& action matches OpenAction::Refused(message)
                        &&& message@ == old(self).path@
                            + " doesn't report V4L2_CAP_VIDEO_CAPTURE"@
                    },
                    OpenStage::Format => if le::word_at(bytes@, 16) == V4L2_PIX_FMT_RGB24 {
                        &&& final(self).stage == OpenStage::Buffers
                        &&& final(self).width == le::word_at(bytes@, 8)
                        &&& final(self).height == le::word_at(bytes@, 12)
                        &&& action matches OpenAction::Call(call)
                        &&& call.asks(0xc014_5608, request_words(), "VIDIOC_REQBUFS"@)
                    } else {
                        &&& final(self).stage == OpenStage::Over
                        &&& action matches OpenAction::Refused(message)
                        &&& message@ == no_rgb_message(
                            old(self).path@,
                            le::word_at(bytes@, 16),
                        )
                    },
                    OpenStage::Buffers => if le::word_at(bytes@, 0) > 0 {
                        &&& final(self).stage == OpenStage::Location
                        &&& final(self).width == old(self).width
                        &&& final(self).height == old(self).height
                        &&& action matches OpenAction::Call(call)
                        &&& call.asks(0xc058_5609, buffer_words(0), "VIDIOC_QUERYBUF"@)
                    } else {
                        &&& final(self).stage == OpenStage::Over
                        &&& action matches OpenAction::Refused(message)
                        &&& message@ == old(self).path@ + " granted 0 capture buffers"@
                    },
                    OpenStage::Location => {
                        &&& final(self).stage == OpenStage::Mapping
                        &&& final(self).width == old(self).width
                        &&& final(self).height == old(self).height
                        &&& final(self).length == le::word_at(bytes@, 72)
                        &&& action == (OpenAction::MapBuffer {
                            length: le::word_at(bytes@, 72),
                            offset: le::word_at(bytes@, 64),
                        })
                    },
                    _ => {
                        &&& final(self).stage == OpenStage::Over
                        &&& action == (OpenAction::Opened {
                            width: old(self).width,
                            height: old(self).height,
                            length: old(self).length,
                        })
                    },
                },
            },
    {
        let bytes = match outcome {
            CallOutcome::Done(bytes) => bytes,
            CallOutcome::Failed(reason) | CallOutcome::WouldBlock(reason) => {
                let what = match self.stage {
                    OpenStage::Capability => "VIDIOC_QUERYCAP",
                    OpenStage::Format => "VIDIOC_S_FMT",
                    OpenStage::Buffers => "VIDIOC_REQBUFS",
                    OpenStage::Location => "VIDIOC_QUERYBUF",
                    _ => "mmap of capture buffer",
                };
                self.stage = OpenStage::Over;
                return OpenAction::Refused(ioctl_failure(what, reason.as_str()));
            },
        };
        let bytes = bytes.as_slice();
        match self.stage {
            OpenStage::Capability => {
                if le::read_word(bytes, 84) % 2 == 1 {
                    self.stage = OpenStage::Format;
                    OpenAction::Call(format_call(self.width, self.height))
                } else {
                    self.stage = OpenStage::Over;
                    let mut message = self.path.as_str().to_string();
                    message.append(" doesn't report V4L2_CAP_VIDEO_CAPTURE");
                    OpenAction::Refused(message)
                }
            },
            OpenStage::Format => {
                let fourcc: u32 = le::read_word(bytes, 16);
                if fourcc == V4L2_PIX_FMT_RGB24 {
                    self.width = le::read_word(bytes, 8);
                    self.height = le::read_word(bytes, 12);
                    self.stage = OpenStage::Buffers;
                    OpenAction::Call(reqbufs_call())
                } else {
                    self.stage = OpenStage::Over;
                    OpenAction::Refused(no_rgb_text(self.path.as_str(), fourcc))
                }
            },
            OpenStage::Buffers => {
                if le::read_word(bytes, 0) > 0 {
                    self.stage = OpenStage::Location;
                    OpenAction::Call(querybuf_call())
                } else {
                    self.stage = OpenStage::Over;
                    let mut message = self.path.as_str().to_string();
                    message.append(" granted 0 capture buffers");
                    OpenAction::Refused(message)
                }
            },
            OpenStage::Location => {
                self.stage = OpenStage::Mapping;
                self.length = le::read_word(bytes, 72);
                OpenAction::MapBuffer { length: self.length, offset: le::read_word(bytes, 64) }
            },
            _ => {
                self.stage = OpenStage::Over;
                OpenAction::Opened { width: self.width, height: self.height, length: self.length }
            },
        }
    }
}

// ---------------------------------------------------------------------------
// frames
// ---------------------------------------------------------------------------

/// RGB pixels with an opaque alpha added; a last pixel that is cut short is
/// left out.
pub open spec fn with_alpha(rgb: Seq<u8>) -> Seq<u8> {
    Seq::new(
        4 * (rgb.len() / 3),
        |i: int|
            if i % 4 == 3 {
                255u8
            } else {
                rgb[3 * (i / 4) + i % 4]
            },
    )
}

/// The pixels in the first `used` bytes of a captured buffer, as RGBA.
pub fn rgb_to_rgba(captured: &[u8], used: usize) -> (rgba: Vec<u8>)
    requires
        used <= captured.len(),
    ensures
        rgba@ == with_alpha(captured@.take(used as int)),
{
    let ghost rgb = captured@.take(used as int);
    let mut rgba: Vec<u8> = Vec::new();
    let mut at: usize = 0;
    assert(rgba@ =~= with_alpha(rgb).take(0));
    while used - at >= 3
        invariant
            used <= captured.len(),
            rgb == captured@.take(used as int),
            at <= used,
            at % 3 == 0,
            rgba@.len() == 4 * (at / 3),
            rgba@ == with_alpha(rgb).take(4 * (at / 3) as int),
        decreases used - at,
    {
        rgba.push(captured[at]);
        rgba.push(captured[at + 1]);
        rgba.push(captured[at + 2]);
        rgba.push(255);
        at += 3;
        assert(rgba@ =~= with_alpha(rgb).take(4 * (at / 3) as int));
    }
    assert(rgba@ =~= with_alpha(rgb));
    rgba
}

/// Which call of a frame is awaited.
#[derive(Debug, Clone, Copy, PartialEq, Eq, Structural)]
pub enum FrameStage {
    Idle,
    Queueing,
    Starting,
    Dequeuing,
    Requeueing,
}

/// What to do next for a frame.
#[derive(Debug)]
pub enum FrameAction {
    Call(IoctlCall),
    Frame(IngressFrame),
    /// The camera has no frame ready.
    Nothing,
    Refused(String),
}

/// An open device that captures into one mapped buffer: the buffer is queued
/// and streaming switched on with the first frame; every frame then takes the
/// buffer out, copies it and queues it again.
#[derive(Debug)]
pub struct WebcamStream {
    pub width: u32,
    pub height: u32,
    pub streaming: bool,
    pub stage: FrameStage,
    pub pixels: Vec<u8>,
}

/// Whether a frame is refused for this reason after the call that it awaited.
pub open spec fn frame_refused(
    before: WebcamStream,
    reason: Seq<char>,
    after: WebcamStream,
    action: FrameAction,
) -> bool {
    &&& after.stage == FrameStage::Idle
    &&& after.streaming == before.streaming
    &&& action matches FrameAction::Refused(message)
    &&& message@ == failed_message(frame_call(before.stage), reason)
}

/// The name of the call that a frame awaits.
pub open spec fn frame_call(stage: FrameStage) -> Seq<char> {
    match stage {
        FrameStage::Queueing => "VIDIOC_QBUF"@,
        FrameStage::Starting => "VIDIOC_STREAMON"@,
        FrameStage::Dequeuing => "VIDIOC_DQBUF"@,
        _ => "VIDIOC_QBUF (requeue)"@,
    }
}

impl WebcamStream {
    /// A device that was opened with frames of this size.
    pub fn new(width: u32, height: u32) -> (stream: Self)
        ensures
            stream.width == width,
            stream.height == height,
            !stream.streaming,
            stream.stage == FrameStage::Idle,
    {
        WebcamStream {
            width,
            height,
            streaming: false,
            stage: FrameStage::Idle,
            pixels: Vec::new(),
        }
    }

    /// Asks for the next frame.
    pub fn begin_frame(&mut self) -> (call: IoctlCall)
        requires
            old(self).stage == FrameStage::Idle,
        ensures
            final(self).width == old(self).width,
            final(self).height == old(self).height,
            final(self).streaming == old(self).streaming,
            if old(self).streaming {
                final(self).stage == FrameStage::Dequeuing && call.asks(
                    0xc058_5611,
                    buffer_words(0),
                    "VIDIOC_DQBUF"@,
                )
            } else {
                final(self).stage == FrameStage::Queueing && call.asks(
                    0xc058_560f,
                    buffer_words(0),
                    "VIDIOC_QBUF"@,
                )
            },
    {
        if self.streaming {
            self.stage = FrameStage::Dequeuing;
            dqbuf_call()
        } else {
            self.stage = FrameStage::Queueing;
            qbuf_call()
        }
    }

    /// Takes in the outcome of the last call; `captured` is the mapped buffer. A
    /// camera that has not filled the buffer yet gives no frame this time.
    pub fn step(&mut self, outcome: CallOutcome, captured: &[u8]) -> (action: FrameAction)
        requires
            old(self).stage != FrameStage::Idle,
            old(self).stage == FrameStage::Dequeuing ==> (outcome matches CallOutcome::Done(
                bytes,
            ) ==> bytes.len() == BUFFER_BYTES && le::word_at(bytes@, 8) <= captured.len()),
        ensures
            final(self).width == old(self).width,
            final(self).height == old(self).height,
            match outcome {
                CallOutcome::Failed(reason) => frame_refused(
                    *old(self),
                    reason@,
                    *final(self),
                    action,
                ),
                CallOutcome::WouldBlock(reason) => if old(self).stage == FrameStage::Dequeuing {
                    &&& final(self).stage == FrameStage::Idle
                    &&& final(self).streaming == old(self).streaming
                    &&& action is Nothing
                } else {
                    frame_refused(*old(self), reason@, *final(self), action)
                },
                CallOutcome::Done(bytes) => match old(self).stage {
                    FrameStage::Queueing => {
                        &&& final(self).stage == FrameStage::Starting
                        &&& final(self).streaming == old(self).streaming
                        &&& action matches FrameAction::Call(call)
                        &&& call.asks(
                            0x4004_5612,
                            seq![BUF_TYPE_VIDEO_CAPTURE],
                            "VIDIOC_STREAMON"@,
                        )
                    },
                    FrameStage::Starting => {
                        &&& final(self).stage == FrameStage::Dequeuing
                        &&& final(self).streaming
                        &&& action matches FrameAction::Call(call)
                        &&& call.asks(0xc058_5611, buffer_words(0), "VIDIOC_DQBUF"@)
                    },
                    FrameStage::Dequeuing => {
                        &&& final(self).stage == FrameStage::Requeueing
                        &&& final(self).streaming == old(self).streaming
                        &&& final(self).pixels@ == with_alpha(
                            captured@.take(le::word_at(bytes@, 8) as int),
                        )
                        &&& action matches FrameAction::Call(call)
                        &&& call.asks(
                            0xc058_560f,
                            buffer_words(le::word_at(bytes@, 0)),
                            "VIDIOC_QBUF (requeue)"@,
                        )
                    },
                    _ => {
                        &&& final(self).stage == FrameStage::Idle
                        &&& final(self).streaming == old(self).streaming
                        &&& action matches FrameAction::Frame(frame)
                        &&& frame.width == old(self).width
                        &&& frame.height == old(self).height
                        &&& frame.rgba@ == old(self).pixels@
                    },
                },
            },
    {
        if let CallOutcome::WouldBlock(_) = &outcome {
            if self.stage == FrameStage::Dequeuing {
                self.stage = FrameStage::Idle;
                return FrameAction::Nothing;
            }
        }
        let bytes = match outcome {
            CallOutcome::Done(bytes) => bytes,
            CallOutcome::Failed(reason) | CallOutcome::WouldBlock(reason) => {
                let what = match self.stage {
                    FrameStage::Queueing => "VIDIOC_QBUF",
                    FrameStage::Starting => "VIDIOC_STREAMON",
                    FrameStage::Dequeuing => "VIDIOC_DQBUF",
                    _ => "VIDIOC_QBUF (requeue)",
                };
                self.stage = FrameStage::Idle;
                return FrameAction::Refused(ioctl_failure(what, reason.as_str()));
            },
        };
        match self.stage {
            FrameStage::Queueing => {
                self.stage = FrameStage::Starting;
                FrameAction::Call(streamon_call())
            },
            FrameStage::Starting => {
                self.streaming = true;
                self.stage = FrameStage::Dequeuing;
                FrameAction::Call(dqbuf_call())
            },
            FrameStage::Dequeuing => {
                let index: u32 = le::read_word(bytes.as_slice(), 0);
                let used: u32 = le::read_word(bytes.as_slice(), 8);
                self.pixels = rgb_to_rgba(captured, used as usize);
                self.stage = FrameStage::Requeueing;
                FrameAction::Call(requeue_call(index))
            },
            _ => {
                let mut rgba: Vec<u8> = Vec::new();
                std::mem::swap(&mut rgba, &mut self.pixels);
                self.stage = FrameStage::Idle;
                FrameAction::Frame(IngressFrame { width: self.width, height: self.height, rgba })
            },
        }
    }

    /// What to call before the device is let go: streaming is switched off
    /// where it was on.
    pub fn finish(&self) -> (call: Option<IoctlCall>)
        ensures
            match call {
                Some(c) => self.streaming && c.asks(
                    0x4004_5613,
                    seq![BUF_TYPE_VIDEO_CAPTURE],
                    "VIDIOC_STREAMOFF"@,
                ),
                None => !self.streaming,
            },
    {
        if self.streaming {
            Some(streamoff_call())
        } else {
            None
        }
    }
}

// ---------------------------------------------------------------------------
// laws
// ---------------------------------------------------------------------------

/// Adding an alpha keeps every color byte, makes every pixel opaque and adds
/// no pixel.
pub proof fn law_colors_survive(rgb: Seq<u8>, pixel: int)
    requires
        0 <= pixel < rgb.len() / 3,
    ensures
        with_alpha(rgb)[4 * pixel] == rgb[3 * pixel],
        with_alpha(rgb)[4 * pixel + 1] == rgb[3 * pixel + 1],
        with_alpha(rgb)[4 * pixel + 2] == rgb[3 * pixel + 2],
        with_alpha(rgb)[4 * pixel + 3] == 255,
        with_alpha(rgb).len() == 4 * (rgb.len() / 3),
{
    assert(4 * pixel / 4 == pixel && 4 * pixel % 4 == 0);
    assert((4 * pixel + 1) / 4 == pixel && (4 * pixel + 1) % 4 == 1);
    assert((4 * pixel + 2) / 4 == pixel && (4 * pixel + 2) % 4 == 2);
    assert((4 * pixel + 3) / 4 == pixel && (4 * pixel + 3) % 4 == 3);
}

/// The request for a format asks the driver for progressive RGB video of this
/// size: the type, then from byte 8 the width, the height, the letters `RGB3`
/// and the field, and zeros elsewhere.
pub proof fn law_format_request(width: u32, height: u32, call: IoctlCall, k: int)
    requires
        call_ensures(format_call, (width, height), call),
        0 <= k < 52,
    ensures
        call.request == 0xc0d0_5605,
        call.arg@.len() == 208,
        le::spelled_at(call.arg@, 4 * k) == if k == 0 {
            1int
        } else if k == 2 {
            width as int
        } else if k == 3 {
            height as int
        } else if k == 4 {
            0x3342_4752
        } else if k == 5 {
            1
        } else {
            0
        },
{
    le::law_words_are_laid_out(format_words(width, height), k);
}

/// Every request about a buffer names it, the type and that it is mapped, and
/// nothing else; asking for buffers asks for one; switching the stream on and
/// off names the type.
pub proof fn law_buffer_requests(
    index: u32,
    asked: IoctlCall,
    located: IoctlCall,
    queued: IoctlCall,
    requeued: IoctlCall,
    dequeued: IoctlCall,
    on: IoctlCall,
    off: IoctlCall,
    k: int,
)
    requires
        call_ensures(reqbufs_call, (), asked),
        call_ensures(querybuf_call, (), located),
        call_ensures(qbuf_call, (), queued),
        call_ensures(requeue_call, (index,), requeued),
        call_ensures(dqbuf_call, (), dequeued),
        call_ensures(streamon_call, (), on),
        call_ensures(streamoff_call, (), off),
        0 <= k < 22,
    ensures
        asked.request == 0xc014_5608,
        asked.arg@.len() == 20,
        k < 5 ==> le::spelled_at(asked.arg@, 4 * k) == if k < 3 {
            1int
        } else {
            0
        },
        located.request == 0xc058_5609,
        queued.request == 0xc058_560f,
        requeued.request == 0xc058_560f,
        dequeued.request == 0xc058_5611,
        located.arg@.len() == 88,
        queued.arg@ == located.arg@,
        dequeued.arg@ == located.arg@,
        requeued.arg@.len() == 88,
        le::spelled_at(located.arg@, 4 * k) == if k == 1 || k == 15 {
            1int
        } else {
            0
        },
        le::spelled_at(requeued.arg@, 4 * k) == if k == 0 {
            index as int
        } else if k == 1 || k == 15 {
            1
        } else {
            0
        },
        on.request == 0x4004_5612,
        off.request == 0x4004_5613,
        on.arg@.len() == 4,
        off.arg@ == on.arg@,
        le::spelled_at(on.arg@, 0) == 1,
{
    if k < 5 {
        le::law_words_are_laid_out(request_words(), k);
    }
    le::law_words_are_laid_out(buffer_words(0), k);
    le::law_words_are_laid_out(buffer_words(index), k);
    le::law_words_are_laid_out(seq![1u32], 0);
}

/// A device is opened by what it answers. It must report video capture in the
/// lowest bit of the word at byte 84, and grant the RGB format at byte 16 and a
/// buffer at byte 0; the size that it grants at bytes 8 and 12 is the size of
/// the frames, and its buffer is mapped from the offset at byte 64 with the
/// length at byte 72. A call that fails ends the opening.
pub proof fn law_devices_open_by_their_answers(
    opening: &mut WebcamOpen,
    outcome: CallOutcome,
    bytes: Vec<u8>,
    action: OpenAction,
)
    requires
        call_ensures(WebcamOpen::step, (opening, outcome), action),
        old(opening).stage != OpenStage::Over,
        outcome == CallOutcome::Done(bytes),
    ensures
        final(opening).path == old(opening).path,
        old(opening).stage is Capability && bytes@[84] % 2 == 1 ==> {
            &&& final(opening).stage is Format
            &&& action is Call
            &&& action->Call_0.request == 0xc0d0_5605
            &&& le::spelled_at(action->Call_0.arg@, 8) == old(opening).width
            &&& le::spelled_at(action->Call_0.arg@, 12) == old(opening).height
            &&& le::spelled_at(action->Call_0.arg@, 16) == 0x3342_4752
        },
        old(opening).stage is Capability && bytes@[84] % 2 == 0 ==> action is Refused,
        old(opening).stage is Format && le::spelled_at(bytes@, 16) == 0x3342_4752 ==> {
            &&& final(opening).stage is Buffers
            &&& final(opening).width == le::spelled_at(bytes@, 8)
            &&& final(opening).height == le::spelled_at(bytes@, 12)
            &&& action is Call
            &&& action->Call_0.request == 0xc014_5608
        },
        old(opening).stage is Format && le::spelled_at(bytes@, 16) != 0x3342_4752
            ==> action is Refused,
        old(opening).stage is Buffers && le::spelled_at(bytes@, 0) > 0 ==> {
            &&& final(opening).stage is Location
            &&& final(opening).width == old(opening).width
            &&& final(opening).height == old(opening).height
            &&& action is Call
            &&& action->Call_0.request == 0xc058_5609
        },
        old(opening).stage is Buffers && le::spelled_at(bytes@, 0) == 0 ==> action is Refused,
        old(opening).stage is Location ==> {
            &&& final(opening).stage is Mapping
            &&& final(opening).width == old(opening).width
            &&& final(opening).height == old(opening).height
            &&& final(opening).length == le::spelled_at(bytes@, 72)
            &&& action is MapBuffer
            &&& action->MapBuffer_length == le::spelled_at(bytes@, 72)
            &&& action->MapBuffer_offset == le::spelled_at(bytes@, 64)
        },
        old(opening).stage is Mapping ==> action == (OpenAction::Opened {
            width: old(opening).width,
            height: old(opening).height,
            length: old(opening).length,
        }),
        action is Refused || action is Opened ==> final(opening).stage is Over,
{
    let words = format_words(old(opening).width, old(opening).height);
    le::law_words_are_laid_out(words, 2);
    le::law_words_are_laid_out(words, 3);
    le::law_words_are_laid_out(words, 4);
    let word = le::word_at(bytes@, 84);
    assert(word % 2 == bytes@[84] % 2) by {
        let high = 128 * bytes@[85] + 32768 * bytes@[86] + 8388608 * bytes@[87];
        assert(word == bytes@[84] + 2 * high);
    }
}

/// The first frame queues the buffer, switches the stream on and takes the
/// buffer out; later ones only take it out. Streaming starts when the device
/// says so, and is switched off at the end where it was on.
pub proof fn law_streams_start_once(
    stream: &mut WebcamStream,
    call: IoctlCall,
    stopped: &WebcamStream,
    stop: Option<IoctlCall>,
)
    requires
        call_ensures(WebcamStream::begin_frame, (stream,), call),
        call_ensures(WebcamStream::finish, (stopped,), stop),
        old(stream).stage is Idle,
    ensures
        final(stream).width == old(stream).width,
        final(stream).height == old(stream).height,
        final(stream).streaming == old(stream).streaming,
        old(stream).streaming ==> final(stream).stage is Dequeuing && call.request == 0xc058_5611,
        !old(stream).streaming ==> final(stream).stage is Queueing && call.request == 0xc058_560f,
        stop is Some <==> stopped.streaming,
        stop matches Some(c) ==> c.request == 0x4004_5613,
{
}

/// What follows each call of a frame: queueing is followed by switching the
/// stream on, that by taking the buffer out, that by queueing the same buffer
/// again, and that by the frame. A buffer that is not filled yet is no failure;
/// any other call that does not succeed is.
pub proof fn law_frames_go_call_by_call(
    stream: &mut WebcamStream,
    outcome: CallOutcome,
    captured: &[u8],
    action: FrameAction,
)
    requires
        call_ensures(WebcamStream::step, (stream, outcome, captured), action),
        old(stream).stage !is Idle,
    ensures
        final(stream).width == old(stream).width,
        final(stream).height == old(stream).height,
        outcome is Failed ==> action is Refused && final(stream).stage is Idle,
        outcome is WouldBlock && old(stream).stage is Dequeuing ==> action is Nothing && final(
            stream).stage is Idle,
        outcome is WouldBlock && old(stream).stage !is Dequeuing ==> action is Refused && final(
            stream).stage is Idle,
        outcome is Done && old(stream).stage is Queueing ==> final(stream).stage is Starting
            && action is Call && action->Call_0.request == 0x4004_5612,
        outcome is Done && old(stream).stage is Starting ==> final(stream).stage is Dequeuing
            && action is Call && action->Call_0.request == 0xc058_5611,
        outcome is Done && old(stream).stage is Dequeuing ==> final(stream).stage is Requeueing
            && action is Call && action->Call_0.request == 0xc058_560f && le::spelled_at(
            action->Call_0.arg@,
            0,
        ) == le::spelled_at(outcome->Done_0@, 0),
        outcome is Done && old(stream).stage is Requeueing ==> final(stream).stage is Idle
            && action is Frame,
        final(stream).streaming <==> old(stream).streaming || old(stream).stage is Starting
            && outcome is Done,
{
    if outcome is Done && old(stream).stage is Dequeuing {
        le::law_words_are_laid_out(buffer_words(le::word_at(outcome->Done_0@, 0)), 0);
    }
}

/// The frame of a capture holds the pixels that the camera filled in: as many
/// whole pixels as fit the bytes used, the word at byte 8 of its answer, each
/// with its red, green and blue and an opaque alpha, in the size of the stream.
pub proof fn law_captured_pixels_become_the_frame(
    taken: &mut WebcamStream,
    bytes: Vec<u8>,
    captured: &[u8],
    requeue: FrameAction,
    queued: &mut WebcamStream,
    left: Vec<u8>,
    later: &[u8],
    action: FrameAction,
    used: int,
    p: int,
)
    requires
        old(taken).stage is Dequeuing,
        call_ensures(WebcamStream::step, (taken, CallOutcome::Done(bytes), captured), requeue),
        *old(queued) == *final(taken),
        call_ensures(WebcamStream::step, (queued, CallOutcome::Done(left), later), action),
        used == le::spelled_at(bytes@, 8),
        used <= captured@.len(),
        0 <= p < used / 3,
    ensures
        action is Frame,
        action->Frame_0.width == old(taken).width,
        action->Frame_0.height == old(taken).height,
        action->Frame_0.rgba@.len() == 4 * (used / 3),
        action->Frame_0.rgba@[4 * p] == captured@[3 * p],
        action->Frame_0.rgba@[4 * p + 1] == captured@[3 * p + 1],
        action->Frame_0.rgba@[4 * p + 2] == captured@[3 * p + 2],
        action->Frame_0.rgba@[4 * p + 3] == 255,
{
    law_colors_survive(captured@.take(used), p);
}

/// A request code carries its number, its type, the size of its argument and
/// the direction, each in its own bits.
pub proof fn law_request_codes(dir: u32, ty: u32, nr: u32, size: u32, code: u32)
    requires
        call_ensures(ioc, (dir, ty, nr, size), code),
        dir < 4,
        ty < 0x100,
        nr < 0x100,
        size < 0x4000,
    ensures
        code % 0x100 == nr,
        code / 0x100 % 0x100 == ty,
        code / 0x1_0000 % 0x4000 == size,
        code / 0x4000_0000 == dir,
{
}

/// A call that fails, or would have to wait where waiting does not help, ends
/// the opening; the message names the call and ends with the reason.
pub proof fn law_failed_openings_name_their_call(
    opening: &mut WebcamOpen,
    outcome: CallOutcome,
    reason: String,
    action: OpenAction,
)
    requires
        call_ensures(WebcamOpen::step, (opening, outcome), action),
        old(opening).stage != OpenStage::Over,
        outcome == CallOutcome::Failed(reason) || outcome == CallOutcome::WouldBlock(reason),
    ensures
        final(opening).stage is Over,
        action is Refused,
        action->Refused_0@ == match old(opening).stage {
            OpenStage::Capability => "VIDIOC_QUERYCAP"@ + " failed: "@ + reason@,
            OpenStage::Format => "VIDIOC_S_FMT"@ + " failed: "@ + reason@,
            OpenStage::Buffers => "VIDIOC_REQBUFS"@ + " failed: "@ + reason@,
            OpenStage::Location => "VIDIOC_QUERYBUF"@ + " failed: "@ + reason@,
            _ => "mmap of capture buffer"@ + " failed: "@ + reason@,
        },
{
}

/// What an answer that ends the opening is refused with: the path of the
/// device, then why.
pub proof fn law_refused_devices_say_why(
    opening: &mut WebcamOpen,
    bytes: Vec<u8>,
    action: OpenAction,
    path: &str,
    reason: &str,
    unopened: String,
)
    requires
        call_ensures(WebcamOpen::step, (opening, CallOutcome::Done(bytes)), action),
        old(opening).stage != OpenStage::Over,
        action is Refused,
        call_ensures(open_failure, (path, reason), unopened),
    ensures
        old(opening).stage is Capability ==> action->Refused_0@ == old(opening).path@
            + " doesn't report V4L2_CAP_VIDEO_CAPTURE"@,
        old(opening).stage is Format ==> text::begins_with(
            action->Refused_0@,
            old(opening).path@ + " doesn't support RGB24 (got fourcc 0x"@,
        ),
        old(opening).stage is Buffers ==> action->Refused_0@ == old(opening).path@
            + " granted 0 capture buffers"@,
        unopened@ == "couldn't open "@ + path@ + ": "@ + reason@,
{
    if old(opening).stage is Format {
        let fourcc = le::word_at(bytes@, 16);
        let start = old(opening).path@ + " doesn't support RGB24 (got fourcc 0x"@;
        let digits = text::hex_fixed(fourcc as nat, text::hex_width(fourcc as nat), false);
        let end = ") — this minimal backend doesn't do YUV conversion"@;
        assert(start + digits + end =~= start + (digits + end));
        text::law_parts_are_found(Seq::empty(), start, digits + end);
    }
}

/// A frame that is refused names the call and ends with the reason.
pub proof fn law_failed_frames_name_their_call(
    stream: &mut WebcamStream,
    reason: String,
    captured: &[u8],
    action: FrameAction,
)
    requires
        call_ensures(WebcamStream::step, (stream, CallOutcome::Failed(reason), captured), action),
        old(stream).stage !is Idle,
    ensures
        action is Refused,
        action->Refused_0@ == match old(stream).stage {
            FrameStage::Queueing => "VIDIOC_QBUF"@ + " failed: "@ + reason@,
            FrameStage::Starting => "VIDIOC_STREAMON"@ + " failed: "@ + reason@,
            FrameStage::Dequeuing => "VIDIOC_DQBUF"@ + " failed: "@ + reason@,
            _ => "VIDIOC_QBUF (requeue)"@ + " failed: "@ + reason@,
        },
{
}

/// An opening begins with the question what the device can do, of which the
/// device fills in all, and keeps the path and the asked size.
pub proof fn law_openings_begin(
    path: &str,
    width: u32,
    height: u32,
    r: (WebcamOpen, IoctlCall),
    k: int,
    stream: WebcamStream,
)
    requires
        call_ensures(WebcamOpen::begin, (path, width, height), r),
        call_ensures(WebcamStream::new, (width, height), stream),
        0 <= k < 26,
    ensures
        r.0.path@ == path@,
        r.0.width == width,
        r.0.height == height,
        r.0.stage is Capability,
        r.1.request == 0x8068_5600,
        r.1.arg@.len() == 104,
        le::spelled_at(r.1.arg@, 4 * k) == 0,
        stream.width == width,
        stream.height == height,
        !stream.streaming,
        stream.stage is Idle,
{
    le::law_words_are_laid_out(Seq::new(26, |i: int| 0u32), k);
}

/// Each pixel of a captured buffer keeps its red, green and blue and becomes
/// opaque; a last one that is cut short is left out.
pub proof fn law_pixels_become_opaque(captured: &[u8], used: usize, rgba: Vec<u8>, p: int)
    requires
        call_ensures(rgb_to_rgba, (captured, used), rgba),
        used <= captured@.len(),
        0 <= p < used as int / 3,
    ensures
        rgba@.len() == 4 * (used as int / 3),
        rgba@[4 * p] == captured@[3 * p],
        rgba@[4 * p + 1] == captured@[3 * p + 1],
        rgba@[4 * p + 2] == captured@[3 * p + 2],
        rgba@[4 * p + 3] == 255,
{
    law_colors_survive(captured@.take(used as int), p);
}

} // verus!
