//! How captured frames reach the texture that the overlay samples: through
//! staging memory, or as imported images.

use crate::actors::ingress::IngressFrame;
use crate::vulkan;
use vstd::prelude::*;
use vstd::string::*;

verus! {

// ---------------------------------------------------------------------------
// staging
// ---------------------------------------------------------------------------

/// Where the sampled image stands.
#[derive(Debug, Clone, Copy, PartialEq, Eq, Structural)]
pub enum ImageLayout {
    Undefined,
    CopyTarget,
    ShaderRead,
}

/// One command of an upload.
#[derive(Debug, Clone, Copy, PartialEq, Eq, Structural)]
pub enum UploadCommand {
    /// Brings the image from one layout into another.
    Barrier { from: ImageLayout, to: ImageLayout },
    /// Copies this many pixels of the staging buffer to the image.
    Copy { width: u32, height: u32 },
}

/// A staging buffer of RGBA rows, `width` pixels each, and the layout of the
/// image that it is copied to.
#[derive(Debug)]
pub struct ScreenFeed {
    pub width: u32,
    pub height: u32,
    pub staging: Vec<u8>,
    pub image_layout: ImageLayout,
}

/// The commands that copy a staging buffer of this size to an image that
/// stands in layout `from`.
pub open spec fn upload_sequence(from: ImageLayout, width: u32, height: u32) -> Seq<UploadCommand> {
    seq![
        UploadCommand::Barrier { from, to: ImageLayout::CopyTarget },
        UploadCommand::Copy { width, height },
        UploadCommand::Barrier { from: ImageLayout::CopyTarget, to: ImageLayout::ShaderRead },
    ]
}

/// The layout in which commands leave an image that stands in `layout`, or
/// `None` where one of them does not take it as it stands: a barrier comes from
/// the layout at hand, and a copy goes to a copy target.
pub open spec fn layout_after(commands: Seq<UploadCommand>, layout: ImageLayout) -> Option<
    ImageLayout,
>
    decreases commands.len(),
{
    if commands.len() == 0 {
        Some(layout)
    } else {
        match layout_after(commands.drop_last(), layout) {
            None => None,
            Some(reached) => match commands.last() {
                UploadCommand::Barrier { from, to } => if from == reached {
                    Some(to)
                } else {
                    None
                },
                UploadCommand::Copy { .. } => if reached == ImageLayout::CopyTarget {
                    Some(reached)
                } else {
                    None
                },
            },
        }
    }
}

/// The color bytes that the staging buffer starts out with: a dark grey.
pub const SEED: u8 = 20;

/// The alpha of an opaque pixel.
pub const OPAQUE: u8 = 255;

/// Byte `i` of a staging buffer that no frame has been written to: every pixel
/// is dark and opaque.
pub open spec fn seed_byte(i: int) -> u8 {
    if i % 4 == 3 {
        OPAQUE
    } else {
        SEED
    }
}

pub open spec fn at_least_one(v: u32) -> u32 {
    if v == 0 {
        1
    } else {
        v
    }
}

/// Bytes of a staging buffer.
pub open spec fn staging_bytes(width: u32, height: u32) -> int {
    4 * at_least_one(width) * at_least_one(height)
}

/// `rows` with `row` written over it from `at` on.
pub open spec fn overlaid(rows: Seq<u8>, at: int, row: Seq<u8>) -> Seq<u8> {
    Seq::new(
        rows.len(),
        |i: int|
            if at <= i < at + row.len() {
                row[i - at]
            } else {
                rows[i]
            },
    )
}

/// The staging buffer once the first `rows` rows of a frame are written over
/// it, each from the left and as far as both reach.
pub open spec fn written(
    staging: Seq<u8>,
    width: u32,
    frame: Seq<u8>,
    frame_width: u32,
    rows: nat,
) -> Seq<u8>
    decreases rows,
{
    if rows == 0 {
        staging
    } else {
        let y = rows - 1;
        let n = 4 * (if width <= frame_width {
            width
        } else {
            frame_width
        });
        overlaid(
            written(staging, width, frame, frame_width, (rows - 1) as nat),
            4 * width * y,
            frame.subrange(4 * frame_width * y, 4 * frame_width * y + n),
        )
    }
}

/// A run of pixels inside row `y` of an image that has more rows than that.
proof fn lemma_row_fits(width: u32, y: int, height: int, len: int)
    requires
        0 <= y < height,
        len >= 4 * width * height,
    ensures
        0 <= 4 * width * y,
        4 * width * y + 4 * width <= len,
{
    assert(0 <= 4 * width * y) by (nonlinear_arith)
        requires
            0 <= y,
            0 <= width,
    ;
    assert(4 * width * y + 4 * width <= 4 * width * height) by (nonlinear_arith)
        requires
            0 <= width,
            y + 1 <= height,
    ;
}

impl ScreenFeed {
    /// The staging buffer holds exactly its rows, and between uploads the image
    /// is no copy target.
    pub open spec fn wf(&self) -> bool {
        &&& self.width > 0
        &&& self.height > 0
        &&& self.staging@.len() == 4 * self.width * self.height
        &&& self.image_layout != ImageLayout::CopyTarget
    }

    /// A feed for frames of this size, at least one pixel each way.
    pub fn new(width: u32, height: u32) -> (feed: Self)
        requires
            staging_bytes(width, height) <= usize::MAX,
        ensures
            feed.wf(),
            feed.width == at_least_one(width),
            feed.height == at_least_one(height),
            feed.staging@ == Seq::new(
                staging_bytes(width, height) as nat,
                |i: int| seed_byte(i),
            ),
            feed.image_layout == ImageLayout::Undefined,
    {
        let width: u32 = if width == 0 {
            1
        } else {
            width
        };
        let height: u32 = if height == 0 {
            1
        } else {
            height
        };
        assert(4 * width <= 4 * width * height) by (nonlinear_arith)
            requires
                1 <= height,
                0 <= width,
        ;
        assert(0 <= 4 * width * height) by (nonlinear_arith)
            requires
                1 <= height,
                0 <= width,
        ;
        let size: usize = 4 * width as usize * height as usize;
        let mut staging: Vec<u8> = Vec::new();
        while staging.len() < size
            invariant
                staging@.len() <= size,
                staging@ == Seq::new(staging@.len(), |i: int| seed_byte(i)),
            decreases size - staging@.len(),
        {
            let byte: u8 = if staging.len() % 4 == 3 {
                OPAQUE
            } else {
                SEED
            };
            staging.push(byte);
            assert(staging@ =~= Seq::new(staging@.len(), |i: int| seed_byte(i)));
        }
        ScreenFeed { width, height, staging, image_layout: ImageLayout::Undefined }
    }

    /// A feed of a frame's size that holds exactly its pixels.
    pub fn of_frame(frame: &IngressFrame) -> (feed: Self)
        requires
            frame.width > 0,
            frame.height > 0,
            frame.rgba.len() >= 4 * frame.width * frame.height,
        ensures
            feed.wf(),
            feed.width == frame.width,
            feed.height == frame.height,
            feed.staging@ == frame.rgba@.take(4 * frame.width * frame.height),
            feed.image_layout == ImageLayout::Undefined,
    {
        assert(4 * frame.width <= 4 * frame.width * frame.height) by (nonlinear_arith)
            requires
                1 <= frame.height,
                0 <= frame.width,
        ;
        let size: usize = 4 * frame.width as usize * frame.height as usize;
        let mut staging: Vec<u8> = Vec::new();
        while staging.len() < size
            invariant
                staging@.len() <= size,
                size <= frame.rgba.len(),
                staging@ == frame.rgba@.take(staging@.len() as int),
            decreases size - staging@.len(),
        {
            staging.push(frame.rgba[staging.len()]);
            assert(staging@ =~= frame.rgba@.take(staging@.len() as int));
        }
        ScreenFeed {
            width: frame.width,
            height: frame.height,
            staging,
            image_layout: ImageLayout::Undefined,
        }
    }

    /// Writes a frame over the staging buffer: as many rows, and as much of
    /// each row, as both have.
    pub fn write_rgba(&mut self, frame: &IngressFrame)
        requires
            old(self).wf(),
            frame.rgba.len() >= 4 * frame.width * frame.height,
        ensures
            final(self).wf(),
            final(self).width == old(self).width,
            final(self).height == old(self).height,
            final(self).image_layout == old(self).image_layout,
            final(self).staging@ == written(
                old(self).staging@,
                old(self).width,
                frame.rgba@,
                frame.width,
                if old(self).height <= frame.height {
                    old(self).height as nat
                } else {
                    frame.height as nat
                },
            ),
    {
        let w: u32 = if self.width <= frame.width {
            self.width
        } else {
            frame.width
        };
        let h: u32 = if self.height <= frame.height {
            self.height
        } else {
            frame.height
        };
        let width: u32 = self.width;
        let height: u32 = self.height;
        let ghost before = self.staging@;
        let mut staging: Vec<u8> = Vec::new();
        std::mem::swap(&mut staging, &mut self.staging);
        let mut y: u32 = 0;
        while y < h
            invariant
                y <= h,
                h <= height,
                h <= frame.height,
                w <= width,
                w <= frame.width,
                w == width || w == frame.width,
                staging.len() == 4 * width * height,
                frame.rgba.len() >= 4 * frame.width * frame.height,
                staging@ == written(before, width, frame.rgba@, frame.width, y as nat),
            decreases h - y,
        {
            proof {
                lemma_row_fits(width, y as int, height as int, staging@.len() as int);
                lemma_row_fits(
                    frame.width,
                    y as int,
                    frame.height as int,
                    frame.rgba.len() as int,
                );
                assert(4 * frame.width * y == frame.width * y * 4) by (nonlinear_arith);
                assert(4 * width * y == width * y * 4) by (nonlinear_arith);
                assert(0 <= frame.width * y && 0 <= width * y) by (nonlinear_arith)
                    requires
                        0 <= y,
                        0 <= width,
                        0 <= frame.width,
                ;
            }
            let from: usize = frame.width as usize * y as usize * 4;
            let to: usize = width as usize * y as usize * 4;
            let n: usize = 4 * w as usize;
            let ghost rows = staging@;
            let ghost row = frame.rgba@.subrange(from as int, from + n);
            copy_run(&mut staging, to, &frame.rgba, from, n);
            assert(staging@ =~= overlaid(rows, to as int, row));
            y += 1;
        }
        self.staging = staging;
    }

    /// Notes that the staging buffer is being copied to the image: the layout
    /// that the image comes from.
    pub fn record_upload(&mut self) -> (from: ImageLayout)
        requires
            old(self).wf(),
        ensures
            final(self).wf(),
            from == old(self).image_layout,
            final(self).image_layout == ImageLayout::ShaderRead,
            final(self).width == old(self).width,
            final(self).height == old(self).height,
            final(self).staging == old(self).staging,
    {
        let from = self.image_layout;
        self.image_layout = ImageLayout::ShaderRead;
        from
    }
}

/// Lists the commands of an upload, in order.
pub fn upload_commands(from: ImageLayout, width: u32, height: u32) -> (commands: Vec<UploadCommand>)
    ensures
        commands@ == upload_sequence(from, width, height),
{
    let mut commands: Vec<UploadCommand> = Vec::new();
    commands.push(UploadCommand::Barrier { from, to: ImageLayout::CopyTarget });
    commands.push(UploadCommand::Copy { width, height });
    commands.push(
        UploadCommand::Barrier { from: ImageLayout::CopyTarget, to: ImageLayout::ShaderRead },
    );
    commands
}

/// Copies `n` bytes of `src` from `from` on over `out` from `to` on.
fn copy_run(out: &mut Vec<u8>, to: usize, src: &Vec<u8>, from: usize, n: usize)
    requires
        to + n <= old(out).len(),
        from + n <= src.len(),
    ensures
        final(out)@ == overlaid(old(out)@, to as int, src@.subrange(from as int, from + n)),
{
    let ghost run = src@.subrange(from as int, from + n);
    let mut k: usize = 0;
    assert(out@ =~= overlaid(old(out)@, to as int, run.take(0)));
    while k < n
        invariant
            k <= n,
            to + n <= old(out).len(),
            from + n <= src.len(),
            run == src@.subrange(from as int, from + n),
            out@ == overlaid(old(out)@, to as int, run.take(k as int)),
        decreases n - k,
    {
        out.set(to + k, src[from + k]);
        k += 1;
        assert(out@ =~= overlaid(old(out)@, to as int, run.take(k as int)));
    }
    assert(run.take(k as int) =~= run);
}

// ---------------------------------------------------------------------------
// setting a staging feed up
// ---------------------------------------------------------------------------

/// One device call of the set-up that can fail.
#[derive(Debug, Clone, Copy, PartialEq, Eq, Structural)]
pub enum FeedCall {
    CreateImage,
    AllocateImageMemory,
    BindImageMemory,
    CreateView,
    CreateSampler,
    CreateStaging,
    AllocateStagingMemory,
    BindStagingMemory,
    MapStaging,
    CreateSetLayout,
    CreatePool,
    AllocateSet,
}

/// Every call of the set-up, in order. The descriptor is written and the
/// staging buffer seeded after the last.
pub open spec fn feed_calls() -> Seq<FeedCall> {
    seq![
        FeedCall::CreateImage,
        FeedCall::AllocateImageMemory,
        FeedCall::BindImageMemory,
        FeedCall::CreateView,
        FeedCall::CreateSampler,
        FeedCall::CreateStaging,
        FeedCall::AllocateStagingMemory,
        FeedCall::BindStagingMemory,
        FeedCall::MapStaging,
        FeedCall::CreateSetLayout,
        FeedCall::CreatePool,
        FeedCall::AllocateSet,
    ]
}

/// Lists the calls of the set-up, in order.
pub fn feed_setup() -> (calls: Vec<FeedCall>)
    ensures
        calls@ == feed_calls(),
{
    let mut calls: Vec<FeedCall> = Vec::new();
    calls.push(FeedCall::CreateImage);
    calls.push(FeedCall::AllocateImageMemory);
    calls.push(FeedCall::BindImageMemory);
    calls.push(FeedCall::CreateView);
    calls.push(FeedCall::CreateSampler);
    calls.push(FeedCall::CreateStaging);
    calls.push(FeedCall::AllocateStagingMemory);
    calls.push(FeedCall::BindStagingMemory);
    calls.push(FeedCall::MapStaging);
    calls.push(FeedCall::CreateSetLayout);
    calls.push(FeedCall::CreatePool);
    calls.push(FeedCall::AllocateSet);
    calls
}

impl FeedCall {
    /// How the message for this call's failure starts.
    pub open spec fn failed(self) -> Seq<char> {
        match self {
            FeedCall::CreateImage => "vkCreateImage (screen) failed: "@,
            FeedCall::AllocateImageMemory => "vkAllocateMemory (screen) failed: "@,
            FeedCall::BindImageMemory => "vkBindImageMemory (screen) failed: "@,
            FeedCall::CreateView => "vkCreateImageView (screen) failed: "@,
            FeedCall::CreateSampler => "vkCreateSampler failed: "@,
            FeedCall::CreateStaging => "vkCreateBuffer (screen staging) failed: "@,
            FeedCall::AllocateStagingMemory => "vkAllocateMemory (screen) failed: "@,
            FeedCall::BindStagingMemory => "vkBindBufferMemory (screen staging) failed: "@,
            FeedCall::MapStaging => "vkMapMemory (screen staging) failed: "@,
            FeedCall::CreateSetLayout => "vkCreateDescriptorSetLayout (screen) failed: "@,
            FeedCall::CreatePool => "vkCreateDescriptorPool (screen) failed: "@,
            FeedCall::AllocateSet => "vkAllocateDescriptorSets (screen) failed: "@,
        }
    }

    pub fn failure(self, detail: &str) -> (message: String)
        ensures
            message@ == self.failed() + detail@,
    {
        let mut message = match self {
            FeedCall::CreateImage => "vkCreateImage (screen) failed: ".to_string(),
            FeedCall::AllocateImageMemory => "vkAllocateMemory (screen) failed: ".to_string(),
            FeedCall::BindImageMemory => "vkBindImageMemory (screen) failed: ".to_string(),
            FeedCall::CreateView => "vkCreateImageView (screen) failed: ".to_string(),
            FeedCall::CreateSampler => "vkCreateSampler failed: ".to_string(),
            FeedCall::CreateStaging => "vkCreateBuffer (screen staging) failed: ".to_string(),
            FeedCall::AllocateStagingMemory => "vkAllocateMemory (screen) failed: ".to_string(),
            FeedCall::BindStagingMemory => "vkBindBufferMemory (screen staging) failed: ".to_string(),
            FeedCall::MapStaging => "vkMapMemory (screen staging) failed: ".to_string(),
            FeedCall::CreateSetLayout => "vkCreateDescriptorSetLayout (screen) failed: ".to_string(),
            FeedCall::CreatePool => "vkCreateDescriptorPool (screen) failed: ".to_string(),
            FeedCall::AllocateSet => "vkAllocateDescriptorSets (screen) failed: ".to_string(),
        };
        message.append(detail);
        message
    }
}

/// The memory property bits that an allocation needs: the image's memory is
/// local to the device, the staging buffer's is visible to the host and
/// coherent.
pub fn memory_flags(call: FeedCall) -> (flags: u32)
    ensures
        flags == if call == FeedCall::AllocateStagingMemory {
            6u32
        } else {
            1u32
        },
{
    if call == FeedCall::AllocateStagingMemory {
        vulkan::MEMORY_HOST_VISIBLE + vulkan::MEMORY_HOST_COHERENT
    } else {
        vulkan::MEMORY_DEVICE_LOCAL
    }
}

/// The memory type for an allocation of the feed: the first that is allowed and
/// has the flags. `types` holds the property bits of each.
pub fn feed_memory_type(types: &[u32], type_bits: u32, flags: u32) -> (r: Result<u32, String>)
    requires
        types.len() <= 32,
    ensures
        match r {
            Ok(i) => {
                &&& vulkan::memory_type_fits(types@, type_bits, flags, i as int)
                &&& forall|j: int|
                    0 <= j < i ==> !vulkan::memory_type_fits(types@, type_bits, flags, j)
            },
            Err(message) => {
                &&& vulkan::none_fits(types@, type_bits, flags)
                &&& message@ == "no matching memory type for screen feed"@
            },
        },
{
    match vulkan::choose_memory_type(types, type_bits, flags) {
        Some(i) => Ok(i),
        None => Err("no matching memory type for screen feed".to_string()),
    }
}

/// A device object of a feed.
#[derive(Debug, Clone, Copy, PartialEq, Eq, Structural)]
pub enum FeedObject {
    Pool,
    SetLayout,
    Sampler,
    View,
    Image,
    ImageMemory,
    StagingMapping,
    Staging,
    StagingMemory,
}

/// What a call of the set-up makes.
pub open spec fn made_by(call: FeedCall) -> Option<FeedObject> {
    match call {
        FeedCall::CreateImage => Some(FeedObject::Image),
        FeedCall::AllocateImageMemory => Some(FeedObject::ImageMemory),
        FeedCall::CreateView => Some(FeedObject::View),
        FeedCall::CreateSampler => Some(FeedObject::Sampler),
        FeedCall::CreateStaging => Some(FeedObject::Staging),
        FeedCall::AllocateStagingMemory => Some(FeedObject::StagingMemory),
        FeedCall::MapStaging => Some(FeedObject::StagingMapping),
        FeedCall::CreateSetLayout => Some(FeedObject::SetLayout),
        FeedCall::CreatePool => Some(FeedObject::Pool),
        _ => None,
    }
}

/// The order in which a staging feed's objects are destroyed.
pub open spec fn feed_teardown_order() -> Seq<FeedObject> {
    seq![
        FeedObject::Pool,
        FeedObject::SetLayout,
        FeedObject::Sampler,
        FeedObject::View,
        FeedObject::Image,
        FeedObject::ImageMemory,
        FeedObject::StagingMapping,
        FeedObject::Staging,
        FeedObject::StagingMemory,
    ]
}

/// Lists what to destroy, in order.
pub fn feed_teardown() -> (objects: Vec<FeedObject>)
    ensures
        objects@ == feed_teardown_order(),
{
    let mut objects: Vec<FeedObject> = Vec::new();
    objects.push(FeedObject::Pool);
    objects.push(FeedObject::SetLayout);
    objects.push(FeedObject::Sampler);
    objects.push(FeedObject::View);
    objects.push(FeedObject::Image);
    objects.push(FeedObject::ImageMemory);
    objects.push(FeedObject::StagingMapping);
    objects.push(FeedObject::Staging);
    objects.push(FeedObject::StagingMemory);
    objects
}

// ---------------------------------------------------------------------------
// imported images
// ---------------------------------------------------------------------------

/// One device call that sets an import feed up.
#[derive(Debug, Clone, Copy, PartialEq, Eq, Structural)]
pub enum ImportFeedCall {
    CreateSampler,
    CreateSetLayout,
    CreatePool,
    AllocateSet,
}

impl ImportFeedCall {
    /// How the message for this call's failure starts.
    pub open spec fn failed(self) -> Seq<char> {
        match self {
            ImportFeedCall::CreateSampler => "vkCreateSampler (dmabuf) failed: "@,
            ImportFeedCall::CreateSetLayout => "vkCreateDescriptorSetLayout (dmabuf) failed: "@,
            ImportFeedCall::CreatePool => "vkCreateDescriptorPool (dmabuf) failed: "@,
            ImportFeedCall::AllocateSet => "vkAllocateDescriptorSets (dmabuf) failed: "@,
        }
    }

    pub fn failure(self, detail: &str) -> (message: String)
        ensures
            message@ == self.failed() + detail@,
    {
        let mut message = match self {
            ImportFeedCall::CreateSampler => "vkCreateSampler (dmabuf) failed: ".to_string(),
            ImportFeedCall::CreateSetLayout => "vkCreateDescriptorSetLayout (dmabuf) failed: ".to_string(),
            ImportFeedCall::CreatePool => "vkCreateDescriptorPool (dmabuf) failed: ".to_string(),
            ImportFeedCall::AllocateSet => "vkAllocateDescriptorSets (dmabuf) failed: ".to_string(),
        };
        message.append(detail);
        message
    }
}

/// An image that may be there, as a list.
pub open spec fn listed(image: Option<u64>) -> Seq<u64> {
    match image {
        Some(image) => seq![image],
        None => Seq::empty(),
    }
}

/// The imported images that are in use, by number: the one that is sampled and
/// the one before it, which is destroyed once no draw uses it any more.
#[derive(Debug, Clone, Copy, PartialEq, Eq, Structural)]
pub struct DmabufScreenFeed {
    pub current: Option<u64>,
    pub previous: Option<u64>,
    pub needs_transition: bool,
}

impl DmabufScreenFeed {
    /// The images that the feed holds.
    pub open spec fn holds(&self, image: u64) -> bool {
        self.current == Some(image) || self.previous == Some(image)
    }

    /// The same in a list, the sampled one first.
    pub open spec fn images(&self) -> Seq<u64> {
        listed(self.current) + listed(self.previous)
    }

    pub fn new() -> (feed: Self)
        ensures
            feed == (DmabufScreenFeed { current: None, previous: None, needs_transition: false }),
    {
        DmabufScreenFeed { current: None, previous: None, needs_transition: false }
    }

    /// Takes in a freshly imported image: it is sampled from now on, and has to
    /// be brought into layout before the next draw. The image before it must
    /// have been retired.
    pub fn import_frame(&mut self, image: u64)
        requires
            old(self).previous is None,
        ensures
            *final(self) == (DmabufScreenFeed {
                current: Some(image),
                previous: old(self).current,
                needs_transition: true,
            }),
    {
        self.previous = self.current;
        self.current = Some(image);
        self.needs_transition = true;
    }

    /// The image to bring into layout before this draw, if any.
    pub fn record_transition(&mut self) -> (image: Option<u64>)
        ensures
            image == if old(self).needs_transition {
                old(self).current
            } else {
                None
            },
            *final(self) == (DmabufScreenFeed { needs_transition: false, ..*old(self) }),
    {
        if !self.needs_transition {
            return None;
        }
        self.needs_transition = false;
        self.current
    }

    /// Lets go of the image before the current one: the image to destroy.
    pub fn retire_previous(&mut self) -> (image: Option<u64>)
        ensures
            image == old(self).previous,
            *final(self) == (DmabufScreenFeed { previous: None, ..*old(self) }),
    {
        let image = self.previous;
        self.previous = None;
        image
    }

    /// Lets go of everything: the images to destroy.
    pub fn destroy(&mut self) -> (images: Vec<u64>)
        ensures
            *final(self) == (DmabufScreenFeed { current: None, previous: None, ..*old(self) }),
            images@ == old(self).images(),
    {
        let mut images: Vec<u64> = Vec::new();
        match self.current {
            Some(image) => {
                images.push(image);
            },
            None => {},
        }
        match self.previous {
            Some(image) => {
                images.push(image);
            },
            None => {},
        }
        assert(images@ =~= old(self).images());
        self.current = None;
        self.previous = None;
        images
    }
}

// ---------------------------------------------------------------------------
// laws
// ---------------------------------------------------------------------------

/// Every pixel that a frame and the staging buffer both have lands in its
/// place.
pub proof fn law_frame_pixels_land(
    staging: Seq<u8>,
    width: u32,
    height: u32,
    frame: Seq<u8>,
    frame_width: u32,
    frame_height: u32,
    rows: nat,
    x: int,
    y: int,
    channel: int,
)
    requires
        staging.len() == 4 * width * height,
        frame.len() >= 4 * frame_width * frame_height,
        rows <= height,
        rows <= frame_height,
        0 <= y < rows,
        0 <= x < width,
        x < frame_width,
        0 <= channel < 4,
    ensures
        written(staging, width, frame, frame_width, rows).len() == staging.len(),
        ({
            let to = 4 * width * y + 4 * x + channel;
            let from = 4 * frame_width * y + 4 * x + channel;
            &&& 0 <= to < staging.len()
            &&& 0 <= from < frame.len()
            &&& written(staging, width, frame, frame_width, rows)[to] == frame[from]
        }),
    decreases rows,
{
    lemma_written_len(staging, width, frame, frame_width, rows);
    lemma_row_fits(width, y, height as int, staging.len() as int);
    lemma_row_fits(frame_width, y, frame_height as int, frame.len() as int);
    lemma_row_fits(frame_width, rows - 1, frame_height as int, frame.len() as int);
    if y < rows - 1 {
        law_frame_pixels_land(
            staging,
            width,
            height,
            frame,
            frame_width,
            frame_height,
            (rows - 1) as nat,
            x,
            y,
            channel,
        );
        assert(4 * width * y + 4 * width <= 4 * width * (rows - 1)) by (nonlinear_arith)
            requires
                0 <= width,
                y + 1 <= rows - 1,
        ;
    }
}

/// Every command of an upload finds the image in the layout that it needs, and
/// the last leaves it in the one in which it is sampled.
pub proof fn law_uploads_end_in_the_sampled_layout(from: ImageLayout, width: u32, height: u32)
    ensures
        layout_after(upload_sequence(from, width, height), from) == Some(ImageLayout::ShaderRead),
{
    let commands = upload_sequence(from, width, height);
    assert(commands.drop_last() =~= commands.take(2));
    assert(commands.take(2).drop_last() =~= commands.take(1));
    assert(commands.take(1).drop_last() =~= Seq::empty());
    reveal_with_fuel(layout_after, 4);
}

proof fn lemma_written_len(
    staging: Seq<u8>,
    width: u32,
    frame: Seq<u8>,
    frame_width: u32,
    rows: nat,
)
    ensures
        written(staging, width, frame, frame_width, rows).len() == staging.len(),
    decreases rows,
{
    if rows > 0 {
        lemma_written_len(staging, width, frame, frame_width, (rows - 1) as nat);
    }
}

/// A staging feed's teardown destroys exactly what its set-up made, each object
/// once.
pub proof fn law_feed_teardown_is_complete(object: FeedObject)
    ensures
        feed_teardown_order().contains(object),
        exists|i: int| 0 <= i < feed_calls().len() && made_by(#[trigger] feed_calls()[i]) == Some(
            object,
        ),
        feed_teardown_order().no_duplicates(),
{
    let order = feed_teardown_order();
    let calls = feed_calls();
    assert(made_by(calls[0]) == Some(order[4]));
    assert(made_by(calls[1]) == Some(order[5]));
    assert(made_by(calls[3]) == Some(order[3]));
    assert(made_by(calls[4]) == Some(order[2]));
    assert(made_by(calls[5]) == Some(order[7]));
    assert(made_by(calls[6]) == Some(order[8]));
    assert(made_by(calls[8]) == Some(order[6]));
    assert(made_by(calls[9]) == Some(order[1]));
    assert(made_by(calls[10]) == Some(order[0]));
}

/// Taking in an image after the one before the last was retired loses no image:
/// what was sampled and what is new are held, and nothing else.
pub proof fn law_no_image_is_lost(
    before: DmabufScreenFeed,
    retired: DmabufScreenFeed,
    after: DmabufScreenFeed,
    image: u64,
    other: u64,
)
    requires
        retired == (DmabufScreenFeed { previous: None, ..before }),
        after == (DmabufScreenFeed {
            current: Some(image),
            previous: retired.current,
            needs_transition: true,
        }),
    ensures
        after.holds(image),
        before.holds(other) ==> after.holds(other) || before.previous == Some(other),
        after.holds(other) ==> before.holds(other) || other == image,
{
}

/// A new feed has the asked size, each side at least one pixel, and every pixel
/// of it is a dark opaque grey.
pub proof fn law_new_feeds_are_dark(width: u32, height: u32, feed: ScreenFeed, p: int)
    requires
        call_ensures(ScreenFeed::new, (width, height), feed),
        0 <= p < feed.width * feed.height,
    ensures
        width > 0 ==> feed.width == width,
        width == 0 ==> feed.width == 1,
        height > 0 ==> feed.height == height,
        height == 0 ==> feed.height == 1,
        feed.staging@.len() == 4 * feed.width * feed.height,
        feed.staging@[4 * p] == 20,
        feed.staging@[4 * p + 1] == 20,
        feed.staging@[4 * p + 2] == 20,
        feed.staging@[4 * p + 3] == 255,
        feed.image_layout is Undefined,
{
    assert(4 * feed.width * feed.height == 4 * (feed.width * feed.height)) by (nonlinear_arith);
    assert(4 * p % 4 == 0 && (4 * p + 1) % 4 == 1 && (4 * p + 2) % 4 == 2 && (4 * p + 3) % 4 == 3);
}

/// A feed made of a frame has its size and, byte for byte, its pixels.
pub proof fn law_feeds_of_frames_hold_them(frame: &IngressFrame, feed: ScreenFeed, i: int)
    requires
        call_ensures(ScreenFeed::of_frame, (frame,), feed),
        frame.rgba@.len() >= 4 * frame.width * frame.height,
        0 <= i < 4 * frame.width * frame.height,
    ensures
        feed.width == frame.width,
        feed.height == frame.height,
        feed.staging@.len() == 4 * frame.width * frame.height,
        feed.staging@[i] == frame.rgba@[i],
        feed.image_layout is Undefined,
{
}

/// Writing a frame over a feed puts every pixel that both have into its place,
/// row by row and column by column, and keeps every pixel that the frame does
/// not reach.
pub proof fn law_frames_are_written_in_place(
    feed: &mut ScreenFeed,
    frame: &IngressFrame,
    x: int,
    y: int,
    channel: int,
)
    requires
        call_ensures(ScreenFeed::write_rgba, (feed, frame), ()),
        old(feed).wf(),
        frame.rgba@.len() >= 4 * frame.width * frame.height,
        0 <= x < old(feed).width,
        0 <= y < old(feed).height,
        0 <= channel < 4,
    ensures
        final(feed).width == old(feed).width,
        final(feed).height == old(feed).height,
        final(feed).image_layout == old(feed).image_layout,
        final(feed).staging@.len() == old(feed).staging@.len(),
        x < frame.width && y < frame.height ==> final(feed).staging@[4 * old(feed).width * y + 4 * x
            + channel] == frame.rgba@[4 * frame.width * y + 4 * x + channel],
        x >= frame.width || y >= frame.height ==> final(feed).staging@[4 * old(feed).width * y + 4
            * x + channel] == old(feed).staging@[4 * old(feed).width * y + 4 * x + channel],
{
    let staging = old(feed).staging@;
    let width = old(feed).width;
    let height = old(feed).height;
    let rows: nat = if height <= frame.height {
        height as nat
    } else {
        frame.height as nat
    };
    lemma_written_len(staging, width, frame.rgba@, frame.width, rows);
    if x < frame.width && y < frame.height {
        law_frame_pixels_land(
            staging,
            width,
            height,
            frame.rgba@,
            frame.width,
            frame.height,
            rows,
            x,
            y,
            channel,
        );
    } else {
        lemma_pixel_kept(
            staging,
            width,
            height,
            frame.rgba@,
            frame.width,
            frame.height,
            rows,
            x,
            y,
            channel,
        );
    }
}

/// A pixel that the written rows do not reach is kept.
proof fn lemma_pixel_kept(
    staging: Seq<u8>,
    width: u32,
    height: u32,
    frame: Seq<u8>,
    frame_width: u32,
    frame_height: u32,
    rows: nat,
    x: int,
    y: int,
    channel: int,
)
    requires
        staging.len() == 4 * width * height,
        frame.len() >= 4 * frame_width * frame_height,
        rows <= height,
        rows <= frame_height,
        0 <= y < height,
        0 <= x < width,
        x >= frame_width || y >= rows,
        0 <= channel < 4,
    ensures
        written(staging, width, frame, frame_width, rows)[4 * width * y + 4 * x + channel]
            == staging[4 * width * y + 4 * x + channel],
    decreases rows,
{
    if rows > 0 {
        lemma_pixel_kept(
            staging,
            width,
            height,
            frame,
            frame_width,
            frame_height,
            (rows - 1) as nat,
            x,
            y,
            channel,
        );
        lemma_written_len(staging, width, frame, frame_width, (rows - 1) as nat);
        lemma_row_fits(width, y, height as int, staging.len() as int);
        lemma_row_fits(width, rows - 1, height as int, staging.len() as int);
        lemma_row_fits(frame_width, rows - 1, frame_height as int, frame.len() as int);
        if y < rows - 1 {
            assert(4 * width * y + 4 * width <= 4 * width * (rows - 1)) by (nonlinear_arith)
                requires
                    0 <= width,
                    y + 1 <= rows - 1,
            ;
        } else if y > rows - 1 {
            assert(4 * width * (rows - 1) + 4 * width <= 4 * width * y) by (nonlinear_arith)
                requires
                    0 <= width,
                    rows <= y,
            ;
        }
    }
}

/// An upload makes the image a copy target from the layout that it is in, copies
/// the whole buffer and makes the image readable again; that is the layout that
/// is kept.
pub proof fn law_uploads_copy_the_whole_buffer(
    feed: &mut ScreenFeed,
    from: ImageLayout,
    commands: Vec<UploadCommand>,
)
    requires
        call_ensures(ScreenFeed::record_upload, (feed,), from),
        call_ensures(upload_commands, (from, old(feed).width, old(feed).height), commands),
    ensures
        from == old(feed).image_layout,
        commands@.len() == 3,
        commands@[0] == (UploadCommand::Barrier {
            from: old(feed).image_layout,
            to: ImageLayout::CopyTarget,
        }),
        commands@[1] == (UploadCommand::Copy {
            width: old(feed).width,
            height: old(feed).height,
        }),
        commands@[2] == (UploadCommand::Barrier {
            from: ImageLayout::CopyTarget,
            to: ImageLayout::ShaderRead,
        }),
        final(feed).image_layout is ShaderRead,
        final(feed).staging == old(feed).staging,
        final(feed).width == old(feed).width,
        final(feed).height == old(feed).height,
{
}

/// The staging buffer lies in memory that the host sees without flushing, the
/// image in memory local to the device, each of the first allowed type that is
/// so.
pub proof fn law_feeds_lie_in_their_memory(
    call: FeedCall,
    flags: u32,
    types: &[u32],
    type_bits: u32,
    r: Result<u32, String>,
    j: int,
)
    requires
        call_ensures(memory_flags, (call,), flags),
        call_ensures(feed_memory_type, (types, type_bits, flags), r),
    ensures
        call is AllocateStagingMemory ==> flags == 6,
        call is AllocateImageMemory ==> flags == 1,
        r matches Ok(i) ==> i < types@.len() && type_bits & (1u32 << i) != 0 && types@[i as int]
            & flags == flags,
        0 <= j < types@.len() && (r is Err || j < r->Ok_0) ==> type_bits & (1u32 << (j as u32)) == 0
            || types@[j] & flags != flags,
{
    match r {
        Ok(i) => {
            if 0 <= j < i {
                assert(!vulkan::memory_type_fits(types@, type_bits, flags, j));
            }
        },
        Err(_) => {
            assert(!vulkan::memory_type_fits(types@, type_bits, flags, j));
        },
    }
}

/// A feed is set up with every object made before it is used, and torn down
/// with every object destroyed before what it is made of: views before images,
/// images and buffers before their memory, the pool before the layout.
pub proof fn law_feeds_are_made_and_unmade_in_order(
    calls: Vec<FeedCall>,
    objects: Vec<FeedObject>,
)
    requires
        call_ensures(feed_setup, (), calls),
        call_ensures(feed_teardown, (), objects),
    ensures
        calls@.len() == 12,
        calls@[0] is CreateImage,
        calls@[1] is AllocateImageMemory,
        calls@[2] is BindImageMemory,
        calls@[3] is CreateView,
        calls@[4] is CreateSampler,
        calls@[5] is CreateStaging,
        calls@[6] is AllocateStagingMemory,
        calls@[7] is BindStagingMemory,
        calls@[8] is MapStaging,
        calls@[9] is CreateSetLayout,
        calls@[10] is CreatePool,
        calls@[11] is AllocateSet,
        objects@.len() == 9,
        objects@[0] is Pool,
        objects@[1] is SetLayout,
        objects@[2] is Sampler,
        objects@[3] is View,
        objects@[4] is Image,
        objects@[5] is ImageMemory,
        objects@[6] is StagingMapping,
        objects@[7] is Staging,
        objects@[8] is StagingMemory,
{
}

/// An image that comes in is sampled from then on and is brought into layout
/// once, before the next draw; the one before it is kept until it is retired.
pub proof fn law_imported_images_take_over(
    fed: &mut DmabufScreenFeed,
    image: u64,
    drawn: &mut DmabufScreenFeed,
    moved: Option<u64>,
    again: &mut DmabufScreenFeed,
    moved_again: Option<u64>,
    retired: &mut DmabufScreenFeed,
    freed: Option<u64>,
)
    requires
        call_ensures(DmabufScreenFeed::import_frame, (fed, image), ()),
        *old(drawn) == *final(fed),
        call_ensures(DmabufScreenFeed::record_transition, (drawn,), moved),
        *old(again) == *final(drawn),
        call_ensures(DmabufScreenFeed::record_transition, (again,), moved_again),
        *old(retired) == *final(again),
        call_ensures(DmabufScreenFeed::retire_previous, (retired,), freed),
    ensures
        final(fed).current == Some(image),
        final(fed).previous == old(fed).current,
        moved == Some(image),
        final(drawn).current == Some(image),
        moved_again is None,
        freed == old(fed).current,
        final(retired).current == Some(image),
        final(retired).previous is None,
{
}

/// A feed that is let go gives up every image that it holds, each once.
pub proof fn law_destroyed_feeds_give_up_their_images(
    feed: &mut DmabufScreenFeed,
    images: Vec<u64>,
    image: u64,
)
    requires
        call_ensures(DmabufScreenFeed::destroy, (feed,), images),
    ensures
        images@.contains(image) <==> old(feed).current == Some(image) || old(feed).previous
            == Some(image),
        images@.len() == (if old(feed).current is Some {
            1int
        } else {
            0
        }) + (if old(feed).previous is Some {
            1int
        } else {
            0
        }),
        final(feed).current is None,
        final(feed).previous is None,
{
    let first = listed(old(feed).current);
    let second = listed(old(feed).previous);
    assert(images@ == first + second);
    if old(feed).current == Some(image) {
        assert((first + second)[0] == image);
    }
    if old(feed).previous == Some(image) {
        assert((first + second)[first.len() as int] == image);
    }
}

/// The message for a failed call names the call and ends with what the device
/// reported.
pub proof fn law_feed_failures_name_their_call(call: FeedCall, detail: &str, message: String)
    requires
        call_ensures(FeedCall::failure, (call, detail), message),
    ensures
        message@ == match call {
            FeedCall::CreateImage => "vkCreateImage (screen) failed: "@ + detail@,
            FeedCall::AllocateImageMemory => "vkAllocateMemory (screen) failed: "@ + detail@,
            FeedCall::BindImageMemory => "vkBindImageMemory (screen) failed: "@ + detail@,
            FeedCall::CreateView => "vkCreateImageView (screen) failed: "@ + detail@,
            FeedCall::CreateSampler => "vkCreateSampler failed: "@ + detail@,
            FeedCall::CreateStaging => "vkCreateBuffer (screen staging) failed: "@ + detail@,
            FeedCall::AllocateStagingMemory => "vkAllocateMemory (screen) failed: "@ + detail@,
            FeedCall::BindStagingMemory => "vkBindBufferMemory (screen staging) failed: "@ + detail@,
            FeedCall::MapStaging => "vkMapMemory (screen staging) failed: "@ + detail@,
            FeedCall::CreateSetLayout => "vkCreateDescriptorSetLayout (screen) failed: "@ + detail@,
            FeedCall::CreatePool => "vkCreateDescriptorPool (screen) failed: "@ + detail@,
            FeedCall::AllocateSet => "vkAllocateDescriptorSets (screen) failed: "@ + detail@,
        },
{
}

/// The message for a failed call names the call and ends with what the device
/// reported.
pub proof fn law_import_feed_failures_name_their_call(call: ImportFeedCall, detail: &str, message: String)
    requires
        call_ensures(ImportFeedCall::failure, (call, detail), message),
    ensures
        message@ == match call {
            ImportFeedCall::CreateSampler => "vkCreateSampler (dmabuf) failed: "@ + detail@,
            ImportFeedCall::CreateSetLayout => "vkCreateDescriptorSetLayout (dmabuf) failed: "@ + detail@,
            ImportFeedCall::CreatePool => "vkCreateDescriptorPool (dmabuf) failed: "@ + detail@,
            ImportFeedCall::AllocateSet => "vkAllocateDescriptorSets (dmabuf) failed: "@ + detail@,
        },
{
}

} // verus!
