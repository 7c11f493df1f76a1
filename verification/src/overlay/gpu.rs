//! The overlay's picture: which feed it samples, and the calls of a draw.

use crate::actors::ingress::IngressFrame;
use crate::bytes as le;
use crate::overlay::screen_feed;
use crate::overlay::screen_feed::{DmabufScreenFeed, ImageLayout, ScreenFeed};
use crate::overlay::Extent;
use crate::pipeline;
use vstd::prelude::*;
use vstd::string::*;

verus! {

/// The words of one of the overlay's shaders.
pub fn overlay_shader_code(bytes: &[u8]) -> (r: Result<Vec<u32>, String>)
    ensures
        match r {
            Ok(words) => pipeline::spirv_words(bytes@) == Some(words@),
            Err(message) => pipeline::spirv_words(bytes@) is None && message@
                == "overlay SPIR-V malformed: "@ + pipeline::spirv_refusal(bytes@),
        },
{
    match pipeline::read_spv(bytes) {
        Ok(words) => Ok(words),
        Err(reason) => {
            let mut message = "overlay SPIR-V malformed: ".to_string();
            message.append(reason.as_str());
            Err(message)
        },
    }
}

/// A device call that can fail while the overlay's picture is set up.
#[derive(Debug, Clone, Copy, PartialEq, Eq, Structural)]
pub enum OverlayFault {
    SurfaceCapabilities,
    SurfaceFormats,
    CreateSwapchain,
    SwapchainImages,
    CreateImageView,
    CreateRenderPass,
    CreateFramebuffer,
    CreateShaderModule,
    CreatePipelineLayout,
    CreateGraphicsPipelines,
    CreateCommandPool,
    AllocateCommandBuffers,
    CreateSemaphore,
    CreateFence,
}

impl OverlayFault {
    /// How the message for this call's failure starts.
    pub open spec fn failed(self) -> Seq<char> {
        match self {
            OverlayFault::SurfaceCapabilities => "vkGetPhysicalDeviceSurfaceCapabilitiesKHR: "@,
            OverlayFault::SurfaceFormats => "vkGetPhysicalDeviceSurfaceFormatsKHR: "@,
            OverlayFault::CreateSwapchain => "vkCreateSwapchainKHR failed: "@,
            OverlayFault::SwapchainImages => "vkGetSwapchainImagesKHR failed: "@,
            OverlayFault::CreateImageView => "vkCreateImageView (overlay) failed: "@,
            OverlayFault::CreateRenderPass => "vkCreateRenderPass (overlay) failed: "@,
            OverlayFault::CreateFramebuffer => "vkCreateFramebuffer failed: "@,
            OverlayFault::CreateShaderModule => "vkCreateShaderModule (overlay) failed: "@,
            OverlayFault::CreatePipelineLayout => "vkCreatePipelineLayout (overlay) failed: "@,
            OverlayFault::CreateGraphicsPipelines => "vkCreateGraphicsPipelines (overlay) failed: "@,
            OverlayFault::CreateCommandPool => "vkCreateCommandPool (overlay) failed: "@,
            OverlayFault::AllocateCommandBuffers => "vkAllocateCommandBuffers (overlay) failed: "@,
            OverlayFault::CreateSemaphore => "vkCreateSemaphore failed: "@,
            OverlayFault::CreateFence => "vkCreateFence (overlay) failed: "@,
        }
    }

    pub fn failure(self, detail: &str) -> (message: String)
        ensures
            message@ == self.failed() + detail@,
    {
        let mut message = match self {
            OverlayFault::SurfaceCapabilities => "vkGetPhysicalDeviceSurfaceCapabilitiesKHR: ".to_string(),
            OverlayFault::SurfaceFormats => "vkGetPhysicalDeviceSurfaceFormatsKHR: ".to_string(),
            OverlayFault::CreateSwapchain => "vkCreateSwapchainKHR failed: ".to_string(),
            OverlayFault::SwapchainImages => "vkGetSwapchainImagesKHR failed: ".to_string(),
            OverlayFault::CreateImageView => "vkCreateImageView (overlay) failed: ".to_string(),
            OverlayFault::CreateRenderPass => "vkCreateRenderPass (overlay) failed: ".to_string(),
            OverlayFault::CreateFramebuffer => "vkCreateFramebuffer failed: ".to_string(),
            OverlayFault::CreateShaderModule => "vkCreateShaderModule (overlay) failed: ".to_string(),
            OverlayFault::CreatePipelineLayout => "vkCreatePipelineLayout (overlay) failed: ".to_string(),
            OverlayFault::CreateGraphicsPipelines => "vkCreateGraphicsPipelines (overlay) failed: ".to_string(),
            OverlayFault::CreateCommandPool => "vkCreateCommandPool (overlay) failed: ".to_string(),
            OverlayFault::AllocateCommandBuffers => "vkAllocateCommandBuffers (overlay) failed: ".to_string(),
            OverlayFault::CreateSemaphore => "vkCreateSemaphore failed: ".to_string(),
            OverlayFault::CreateFence => "vkCreateFence (overlay) failed: ".to_string(),
        };
        message.append(detail);
        message
    }
}

// ---------------------------------------------------------------------------
// objects
// ---------------------------------------------------------------------------

/// What the overlay's picture is made of.
#[derive(Debug, Clone, Copy, PartialEq, Eq, Structural)]
pub enum OverlayObject {
    Swapchain,
    ImageViews,
    RenderPass,
    Framebuffers,
    Feed,
    PipelineLayout,
    Pipeline,
    CommandPool,
    ImageAvailable,
    RenderFinished,
    InFlight,
}

/// The order in which the objects are made.
pub open spec fn setup_order() -> Seq<OverlayObject> {
    seq![
        OverlayObject::Swapchain,
        OverlayObject::ImageViews,
        OverlayObject::RenderPass,
        OverlayObject::Framebuffers,
        OverlayObject::Feed,
        OverlayObject::PipelineLayout,
        OverlayObject::Pipeline,
        OverlayObject::CommandPool,
        OverlayObject::ImageAvailable,
        OverlayObject::RenderFinished,
        OverlayObject::InFlight,
    ]
}

/// The order in which they are destroyed.
pub open spec fn teardown_order() -> Seq<OverlayObject> {
    seq![
        OverlayObject::Framebuffers,
        OverlayObject::ImageViews,
        OverlayObject::RenderPass,
        OverlayObject::Pipeline,
        OverlayObject::PipelineLayout,
        OverlayObject::Feed,
        OverlayObject::CommandPool,
        OverlayObject::ImageAvailable,
        OverlayObject::RenderFinished,
        OverlayObject::InFlight,
        OverlayObject::Swapchain,
    ]
}

/// Lists what to make, in order.
pub fn setup() -> (objects: Vec<OverlayObject>)
    ensures
        objects@ == setup_order(),
{
    let mut objects: Vec<OverlayObject> = Vec::new();
    objects.push(OverlayObject::Swapchain);
    objects.push(OverlayObject::ImageViews);
    objects.push(OverlayObject::RenderPass);
    objects.push(OverlayObject::Framebuffers);
    objects.push(OverlayObject::Feed);
    objects.push(OverlayObject::PipelineLayout);
    objects.push(OverlayObject::Pipeline);
    objects.push(OverlayObject::CommandPool);
    objects.push(OverlayObject::ImageAvailable);
    objects.push(OverlayObject::RenderFinished);
    objects.push(OverlayObject::InFlight);
    objects
}

/// Lists what to destroy, in order.
pub fn teardown() -> (objects: Vec<OverlayObject>)
    ensures
        objects@ == teardown_order(),
{
    let mut objects: Vec<OverlayObject> = Vec::new();
    objects.push(OverlayObject::Framebuffers);
    objects.push(OverlayObject::ImageViews);
    objects.push(OverlayObject::RenderPass);
    objects.push(OverlayObject::Pipeline);
    objects.push(OverlayObject::PipelineLayout);
    objects.push(OverlayObject::Feed);
    objects.push(OverlayObject::CommandPool);
    objects.push(OverlayObject::ImageAvailable);
    objects.push(OverlayObject::RenderFinished);
    objects.push(OverlayObject::InFlight);
    objects.push(OverlayObject::Swapchain);
    objects
}

// ---------------------------------------------------------------------------
// the picture
// ---------------------------------------------------------------------------

/// Where the sampled screen comes from.
#[derive(Debug)]
pub enum ScreenFeedKind {
    Shm(ScreenFeed),
    Dmabuf(DmabufScreenFeed),
}

/// What a draw does about the sampled screen before it draws.
#[derive(Debug, Clone, Copy, PartialEq, Eq, Structural)]
pub enum ScreenUpdate {
    /// Nothing has changed.
    Unchanged,
    /// Copy the staging buffer to the image, which comes from this layout.
    Upload { from: ImageLayout },
    /// Bring this imported image into layout.
    Transition { image: Option<u64> },
}

/// The call of a draw whose outcome is awaited. `image` is the swapchain image
/// that is drawn to.
#[derive(Debug, Clone, Copy, PartialEq, Eq, Structural)]
pub enum DrawStage {
    Idle,
    Fence,
    Acquire,
    ResetFence { image: u32 },
    ResetCommands { image: u32 },
    BeginCommands { image: u32 },
    Recording { image: u32 },
    EndCommands { image: u32 },
    Submit { image: u32 },
    Present,
}

/// What became of the awaited call.
#[derive(Debug)]
pub enum DrawEvent {
    Done,
    Acquired { image: u32 },
    OutOfDate,
    Suboptimal,
    Failed(String),
}

/// What to do next.
#[derive(Debug)]
pub enum DrawAction {
    WaitFence,
    /// Destroy these retired images, and where `drop_imports` says so the
    /// import feed that was left; then acquire a swapchain image.
    Acquire { destroy: Vec<u64>, drop_imports: bool },
    ResetFence,
    ResetCommands,
    BeginCommands,
    /// Record the update and the draw to this swapchain image.
    Record { image: u32, update: ScreenUpdate },
    EndCommands,
    Submit,
    Present { image: u32 },
    /// The draw is over.
    Finished,
    Refused(String),
}

/// How the message for a failed call starts.
pub open spec fn draw_failure(stage: DrawStage) -> Seq<char> {
    match stage {
        DrawStage::Fence => "overlay fence wait: "@,
        DrawStage::Acquire => "vkAcquireNextImageKHR failed: "@,
        DrawStage::ResetFence { .. } => "overlay reset fences: "@,
        DrawStage::ResetCommands { .. } => "overlay reset cmd: "@,
        DrawStage::BeginCommands { .. } => "overlay begin cmd: "@,
        DrawStage::EndCommands { .. } => "overlay end cmd: "@,
        DrawStage::Submit { .. } => "overlay queue_submit: "@,
        _ => "vkQueuePresentKHR failed: "@,
    }
}

/// Whether an event can be the outcome of the awaited call.
pub open spec fn draw_expects(stage: DrawStage, event: DrawEvent) -> bool {
    match stage {
        DrawStage::Idle => false,
        DrawStage::Acquire => event is Acquired || event is OutOfDate || event is Failed,
        DrawStage::Recording { .. } => event is Done,
        DrawStage::Present => !(event is Acquired),
        _ => event is Done || event is Failed,
    }
}

/// The feed after it was asked for its update, and that update.
pub open spec fn updated(feed: ScreenFeedKind, pending: bool) -> (ScreenFeedKind, ScreenUpdate) {
    if !pending {
        (feed, ScreenUpdate::Unchanged)
    } else {
        match feed {
            ScreenFeedKind::Shm(f) => (
                ScreenFeedKind::Shm(ScreenFeed { image_layout: ImageLayout::ShaderRead, ..f }),
                ScreenUpdate::Upload { from: f.image_layout },
            ),
            ScreenFeedKind::Dmabuf(f) => (
                ScreenFeedKind::Dmabuf(DmabufScreenFeed { needs_transition: false, ..f }),
                ScreenUpdate::Transition {
                    image: if f.needs_transition {
                        f.current
                    } else {
                        None
                    },
                },
            ),
        }
    }
}

/// The feed without the image before the sampled one.
pub open spec fn trimmed(feed: ScreenFeedKind) -> ScreenFeedKind {
    match feed {
        ScreenFeedKind::Shm(_) => feed,
        ScreenFeedKind::Dmabuf(f) => ScreenFeedKind::Dmabuf(
            DmabufScreenFeed { previous: None, ..f },
        ),
    }
}

/// The image before the sampled one, as a list.
pub open spec fn previous_of(feed: ScreenFeedKind) -> Seq<u64> {
    match feed {
        ScreenFeedKind::Shm(_) => Seq::empty(),
        ScreenFeedKind::Dmabuf(f) => screen_feed::listed(f.previous),
    }
}

/// The imported images of a feed.
pub open spec fn images_of(feed: ScreenFeedKind) -> Seq<u64> {
    match feed {
        ScreenFeedKind::Shm(_) => Seq::empty(),
        ScreenFeedKind::Dmabuf(f) => f.images(),
    }
}

/// The overlay's picture. `pending_update` says that the feed has something
/// that no draw has shown yet, and `in_flight` that a draw was submitted whose
/// fence has not been waited for. `retired` holds the imported images that are
/// out of use but may still be sampled by that draw, and `old_imports` says
/// that the import feed itself is out of use.
#[derive(Debug)]
pub struct OverlayGpu {
    pub extent: Extent,
    pub feed: ScreenFeedKind,
    pub pending_update: bool,
    pub stage: DrawStage,
    pub in_flight: bool,
    pub retired: Vec<u64>,
    pub old_imports: bool,
}

/// Whether a draw's fence has signalled with this: everything retired is handed
/// out.
pub open spec fn fence_passed(before: OverlayGpu, after: OverlayGpu, action: DrawAction) -> bool {
    &&& after.extent == before.extent
    &&& after.feed == trimmed(before.feed)
    &&& after.pending_update == before.pending_update
    &&& after.stage == DrawStage::Acquire
    &&& !after.in_flight
    &&& after.retired@ == Seq::<u64>::empty()
    &&& !after.old_imports
    &&& action matches DrawAction::Acquire { destroy, drop_imports }
    &&& destroy@ == before.retired@ + previous_of(before.feed)
    &&& drop_imports == before.old_imports
}

/// Whether taking in `event` takes `before` to `after` with this action.
pub open spec fn draw_stepped(
    before: OverlayGpu,
    event: DrawEvent,
    after: OverlayGpu,
    action: DrawAction,
) -> bool {
    match event {
        DrawEvent::Failed(reason) => {
            &&& after == (OverlayGpu { stage: DrawStage::Idle, ..before })
            &&& action matches DrawAction::Refused(message)
            &&& message@ == draw_failure(before.stage) + reason@
        },
        DrawEvent::Acquired { image } => {
            &&& after == (OverlayGpu { stage: DrawStage::ResetFence { image }, ..before })
            &&& action is ResetFence
        },
        DrawEvent::OutOfDate | DrawEvent::Suboptimal => {
            &&& after == (OverlayGpu { stage: DrawStage::Idle, ..before })
            &&& action is Finished
        },
        DrawEvent::Done => match before.stage {
            DrawStage::Fence => fence_passed(before, after, action),
            DrawStage::ResetFence { image } => {
                &&& after == (OverlayGpu { stage: DrawStage::ResetCommands { image }, ..before })
                &&& action is ResetCommands
            },
            DrawStage::ResetCommands { image } => {
                &&& after == (OverlayGpu { stage: DrawStage::BeginCommands { image }, ..before })
                &&& action is BeginCommands
            },
            DrawStage::BeginCommands { image } => {
                &&& after == (OverlayGpu {
                    stage: DrawStage::Recording { image },
                    feed: updated(before.feed, before.pending_update).0,
                    pending_update: false,
                    ..before
                })
                &&& action == (DrawAction::Record {
                    image,
                    update: updated(before.feed, before.pending_update).1,
                })
            },
            DrawStage::Recording { image } => {
                &&& after == (OverlayGpu { stage: DrawStage::EndCommands { image }, ..before })
                &&& action is EndCommands
            },
            DrawStage::EndCommands { image } => {
                &&& after == (OverlayGpu { stage: DrawStage::Submit { image }, ..before })
                &&& action is Submit
            },
            DrawStage::Submit { image } => {
                &&& after == (OverlayGpu {
                    stage: DrawStage::Present,
                    in_flight: true,
                    ..before
                })
                &&& action == (DrawAction::Present { image })
            },
            _ => {
                &&& after == (OverlayGpu { stage: DrawStage::Idle, ..before })
                &&& action is Finished
            },
        },
    }
}

/// What to do about a captured DMA-BUF.
#[derive(Debug, Clone, Copy, PartialEq, Eq, Structural)]
pub enum ImportTurn {
    /// The feed does not take DMA-BUFs.
    Skip,
    /// Destroy this retired image, then import the frame.
    Import { destroy: Option<u64> },
}

/// Whether preparing for a captured DMA-BUF takes `before` to `after` with this
/// turn. The image before the sampled one is let go; while a draw is in flight
/// it is kept until the fence.
pub open spec fn import_turned(before: OverlayGpu, after: OverlayGpu, turn: ImportTurn) -> bool {
    match before.feed {
        ScreenFeedKind::Shm(_) => after == before && turn == ImportTurn::Skip,
        ScreenFeedKind::Dmabuf(f) => {
            &&& after.extent == before.extent
            &&& after.feed == trimmed(before.feed)
            &&& after.pending_update == before.pending_update
            &&& after.stage == before.stage
            &&& after.in_flight == before.in_flight
            &&& after.old_imports == before.old_imports
            &&& if before.in_flight {
                &&& turn == (ImportTurn::Import { destroy: None })
                &&& after.retired@ == before.retired@ + previous_of(before.feed)
            } else {
                &&& turn == (ImportTurn::Import { destroy: f.previous })
                &&& after.retired@ == before.retired@
            }
        },
    }
}

/// Whether taking in the image of an import takes `before` to `after`. Where
/// the import failed there is none, and the last image stays in use.
pub open spec fn import_settled(before: OverlayGpu, image: Option<u64>, after: OverlayGpu) -> bool {
    match (image, before.feed) {
        (Some(new), ScreenFeedKind::Dmabuf(f)) => after == (OverlayGpu {
            feed: ScreenFeedKind::Dmabuf(
                DmabufScreenFeed {
                    current: Some(new),
                    previous: f.current,
                    needs_transition: true,
                },
            ),
            pending_update: true,
            ..before
        }),
        _ => after == before,
    }
}

/// Whether taking in a frame in memory takes `before` to `after`. A picture
/// that sampled imported images goes over to a staging feed with the frame's
/// pixels, and what it sampled is retired; an empty frame has nothing to show.
pub open spec fn frame_uploaded(
    before: OverlayGpu,
    frame: IngressFrame,
    after: OverlayGpu,
) -> bool {
    match before.feed {
        ScreenFeedKind::Shm(f) => {
            &&& after == (OverlayGpu { feed: after.feed, pending_update: true, ..before })
            &&& after.feed matches ScreenFeedKind::Shm(g)
            &&& g.width == f.width
            &&& g.height == f.height
            &&& g.image_layout == f.image_layout
            &&& g.staging@ == screen_feed::written(
                f.staging@,
                f.width,
                frame.rgba@,
                frame.width,
                if f.height <= frame.height {
                    f.height as nat
                } else {
                    frame.height as nat
                },
            )
        },
        ScreenFeedKind::Dmabuf(f) => if frame.width == 0 || frame.height == 0 {
            after == before
        } else {
            &&& after.extent == before.extent
            &&& after.stage == before.stage
            &&& after.in_flight == before.in_flight
            &&& after.pending_update
            &&& after.feed matches ScreenFeedKind::Shm(g)
            &&& g.width == frame.width
            &&& g.height == frame.height
            &&& g.image_layout == ImageLayout::Undefined
            &&& g.staging@ == frame.rgba@.take(4 * frame.width * frame.height)
            &&& after.retired@ == before.retired@ + f.images()
            &&& after.old_imports
        },
    }
}

impl OverlayGpu {
    pub open spec fn wf(&self) -> bool {
        self.feed matches ScreenFeedKind::Shm(f) ==> f.wf()
    }

    /// Whether this imported image is still there.
    pub open spec fn holds(&self, image: u64) -> bool {
        images_of(self.feed).contains(image) || self.retired@.contains(image)
    }

    /// A picture of this extent. With zero-copy capture it samples imported
    /// images, else a staging feed of the capture's size.
    pub fn new(extent: Extent, capture: Extent, zero_copy: bool) -> (gpu: Self)
        requires
            !zero_copy ==> screen_feed::staging_bytes(capture.width, capture.height)
                <= usize::MAX,
        ensures
            gpu.wf(),
            gpu.extent == extent,
            gpu.pending_update,
            gpu.stage == DrawStage::Idle,
            !gpu.in_flight,
            gpu.retired@ == Seq::<u64>::empty(),
            !gpu.old_imports,
            if zero_copy {
                gpu.feed == ScreenFeedKind::Dmabuf(
                    DmabufScreenFeed { current: None, previous: None, needs_transition: false },
                )
            } else {
                &&& gpu.feed matches ScreenFeedKind::Shm(f)
                &&& f.width == screen_feed::at_least_one(capture.width)
                &&& f.height == screen_feed::at_least_one(capture.height)
                &&& f.image_layout == ImageLayout::Undefined
                &&& forall|i: int|
                    0 <= i < f.staging@.len() ==> f.staging@[i] == screen_feed::seed_byte(i)
            },
    {
        let feed = if zero_copy {
            ScreenFeedKind::Dmabuf(DmabufScreenFeed::new())
        } else {
            ScreenFeedKind::Shm(ScreenFeed::new(capture.width, capture.height))
        };
        OverlayGpu {
            extent,
            feed,
            pending_update: true,
            stage: DrawStage::Idle,
            in_flight: false,
            retired: Vec::new(),
            old_imports: false,
        }
    }

    /// Takes in a frame in memory. A picture that samples imported images goes
    /// over to a staging feed of the frame's size; what it sampled so far is
    /// handed out by the next draw, once the fence has signalled.
    pub fn upload_screen(&mut self, frame: &IngressFrame)
        requires
            old(self).wf(),
            old(self).stage == DrawStage::Idle,
            frame.rgba.len() >= 4 * frame.width * frame.height,
        ensures
            final(self).wf(),
            frame_uploaded(*old(self), *frame, *final(self)),
    {
        let replaced: Option<Vec<u64>> = match &mut self.feed {
            ScreenFeedKind::Shm(feed) => {
                feed.write_rgba(frame);
                self.pending_update = true;
                None
            },
            ScreenFeedKind::Dmabuf(feed) => {
                if frame.width == 0 || frame.height == 0 {
                    None
                } else {
                    Some(feed.destroy())
                }
            },
        };
        match replaced {
            Some(mut images) => {
                self.feed = ScreenFeedKind::Shm(ScreenFeed::of_frame(frame));
                self.retired.append(&mut images);
                self.old_imports = true;
                self.pending_update = true;
            },
            None => {},
        }
    }

    /// Prepares for a captured DMA-BUF: the image before the sampled one is let
    /// go. While a draw is in flight, which may sample it, it is kept, and the
    /// next draw hands it out once the fence has signalled.
    pub fn import_screen(&mut self) -> (turn: ImportTurn)
        requires
            old(self).wf(),
            old(self).stage == DrawStage::Idle,
        ensures
            final(self).wf(),
            import_turned(*old(self), *final(self), turn),
            old(self).in_flight && old(self).feed is Dmabuf ==> turn == (ImportTurn::Import {
                destroy: None,
            }),
    {
        let previous: Option<u64> = match &mut self.feed {
            ScreenFeedKind::Shm(_) => {
                return ImportTurn::Skip;
            },
            ScreenFeedKind::Dmabuf(feed) => feed.retire_previous(),
        };
        if self.in_flight {
            match previous {
                Some(image) => {
                    self.retired.push(image);
                },
                None => {},
            }
            assert(self.retired@ =~= old(self).retired@ + previous_of(old(self).feed));
            ImportTurn::Import { destroy: None }
        } else {
            ImportTurn::Import { destroy: previous }
        }
    }

    /// Takes in the image that a captured DMA-BUF was imported as. Where the
    /// import failed there is none, and the last image stays in use.
    pub fn imported(&mut self, image: Option<u64>)
        requires
            old(self).wf(),
            old(self).stage == DrawStage::Idle,
            old(self).feed matches ScreenFeedKind::Dmabuf(f) && f.previous is None,
        ensures
            final(self).wf(),
            import_settled(*old(self), image, *final(self)),
    {
        match image {
            Some(new) => {
                match &mut self.feed {
                    ScreenFeedKind::Shm(_) => {},
                    ScreenFeedKind::Dmabuf(feed) => {
                        feed.import_frame(new);
                    },
                }
                self.pending_update = true;
            },
            None => {},
        }
    }

    /// Lets go of every imported image: those to destroy, once the device is
    /// idle.
    pub fn destroy(&mut self) -> (images: Vec<u64>)
        requires
            old(self).wf(),
        ensures
            final(self).wf(),
            images@ == old(self).retired@ + images_of(old(self).feed),
            final(self).retired@ == Seq::<u64>::empty(),
            images_of(final(self).feed) == Seq::<u64>::empty(),
    {
        let mut images: Vec<u64> = Vec::new();
        std::mem::swap(&mut images, &mut self.retired);
        let ghost before = images@;
        match &mut self.feed {
            ScreenFeedKind::Shm(_) => {},
            ScreenFeedKind::Dmabuf(feed) => {
                let mut held = feed.destroy();
                images.append(&mut held);
            },
        }
        assert(images@ =~= before + images_of(old(self).feed));
        assert(images_of(self.feed) =~= Seq::<u64>::empty());
        images
    }

    /// Whether the swapchain has to be made anew for a surface of this extent.
    pub fn needs_recreate(&self, extent: Extent) -> (r: bool)
        ensures
            r == (extent != self.extent),
    {
        extent.width != self.extent.width || extent.height != self.extent.height
    }

    /// Takes in the extent of a swapchain that was made anew.
    pub fn recreated(&mut self, extent: Extent)
        requires
            old(self).wf(),
        ensures
            final(self).wf(),
            *final(self) == (OverlayGpu { extent, ..*old(self) }),
    {
        self.extent = extent;
    }

    /// Starts a draw.
    pub fn begin_draw(&mut self) -> (action: DrawAction)
        requires
            old(self).wf(),
            old(self).stage == DrawStage::Idle,
        ensures
            final(self).wf(),
            *final(self) == (OverlayGpu { stage: DrawStage::Fence, ..*old(self) }),
            action is WaitFence,
    {
        self.stage = DrawStage::Fence;
        DrawAction::WaitFence
    }

    /// Takes in the outcome of the awaited call of a draw.
    pub fn draw(&mut self, event: DrawEvent) -> (action: DrawAction)
        requires
            old(self).wf(),
            draw_expects(old(self).stage, event),
        ensures
            final(self).wf(),
            draw_stepped(*old(self), event, *final(self), action),
    {
        let stage = self.stage;
        match event {
            DrawEvent::Failed(reason) => {
                let mut message = match stage {
                    DrawStage::Fence => "overlay fence wait: ".to_string(),
                    DrawStage::Acquire => "vkAcquireNextImageKHR failed: ".to_string(),
                    DrawStage::ResetFence { .. } => "overlay reset fences: ".to_string(),
                    DrawStage::ResetCommands { .. } => "overlay reset cmd: ".to_string(),
                    DrawStage::BeginCommands { .. } => "overlay begin cmd: ".to_string(),
                    DrawStage::EndCommands { .. } => "overlay end cmd: ".to_string(),
                    DrawStage::Submit { .. } => "overlay queue_submit: ".to_string(),
                    _ => "vkQueuePresentKHR failed: ".to_string(),
                };
                message.append(reason.as_str());
                self.stage = DrawStage::Idle;
                DrawAction::Refused(message)
            },
            DrawEvent::Acquired { image } => {
                self.stage = DrawStage::ResetFence { image };
                DrawAction::ResetFence
            },
            DrawEvent::OutOfDate | DrawEvent::Suboptimal => {
                self.stage = DrawStage::Idle;
                DrawAction::Finished
            },
            DrawEvent::Done => match stage {
                DrawStage::Fence => {
                    let mut destroy: Vec<u64> = Vec::new();
                    std::mem::swap(&mut destroy, &mut self.retired);
                    let previous: Option<u64> = match &mut self.feed {
                        ScreenFeedKind::Shm(_) => None,
                        ScreenFeedKind::Dmabuf(feed) => feed.retire_previous(),
                    };
                    match previous {
                        Some(image) => {
                            destroy.push(image);
                        },
                        None => {},
                    }
                    let drop_imports = self.old_imports;
                    self.old_imports = false;
                    self.in_flight = false;
                    self.stage = DrawStage::Acquire;
                    assert(destroy@ =~= old(self).retired@ + previous_of(old(self).feed));
                    DrawAction::Acquire { destroy, drop_imports }
                },
                DrawStage::ResetFence { image } => {
                    self.stage = DrawStage::ResetCommands { image };
                    DrawAction::ResetCommands
                },
                DrawStage::ResetCommands { image } => {
                    self.stage = DrawStage::BeginCommands { image };
                    DrawAction::BeginCommands
                },
                DrawStage::BeginCommands { image } => {
                    let update = if self.pending_update {
                        match &mut self.feed {
                            ScreenFeedKind::Shm(feed) => {
                                let from = feed.record_upload();
                                ScreenUpdate::Upload { from }
                            },
                            ScreenFeedKind::Dmabuf(feed) => {
                                let image = feed.record_transition();
                                ScreenUpdate::Transition { image }
                            },
                        }
                    } else {
                        ScreenUpdate::Unchanged
                    };
                    self.pending_update = false;
                    self.stage = DrawStage::Recording { image };
                    DrawAction::Record { image, update }
                },
                DrawStage::Recording { image } => {
                    self.stage = DrawStage::EndCommands { image };
                    DrawAction::EndCommands
                },
                DrawStage::EndCommands { image } => {
                    self.stage = DrawStage::Submit { image };
                    DrawAction::Submit
                },
                DrawStage::Submit { image } => {
                    self.stage = DrawStage::Present;
                    self.in_flight = true;
                    DrawAction::Present { image }
                },
                _ => {
                    self.stage = DrawStage::Idle;
                    DrawAction::Finished
                },
            },
        }
    }
}

// ---------------------------------------------------------------------------
// laws
// ---------------------------------------------------------------------------

/// Teardown destroys exactly what the set-up made, each object once, and the
/// swapchain last.
pub proof fn law_teardown_is_complete(object: OverlayObject)
    ensures
        setup_order().contains(object),
        teardown_order().contains(object),
        setup_order().no_duplicates(),
        teardown_order().no_duplicates(),
        teardown_order().last() == OverlayObject::Swapchain,
{
    let made = setup_order();
    let gone = teardown_order();
    assert(made[0] == gone[10] && made[1] == gone[1] && made[2] == gone[2] && made[3] == gone[0]);
    assert(made[4] == gone[5] && made[5] == gone[4] && made[6] == gone[3] && made[7] == gone[6]);
    assert(made[8] == gone[7] && made[9] == gone[8] && made[10] == gone[9]);
}

/// One step of a picture's life, with what came of it.
pub enum PictureStep {
    Import(ImportTurn),
    Imported(Option<u64>),
    Upload(IngressFrame),
    Recreated(Extent),
    BeginDraw,
    Draw(DrawEvent, DrawAction),
}

/// Whether this step takes `before` to `after`.
pub open spec fn picture_stepped(
    before: OverlayGpu,
    step: PictureStep,
    after: OverlayGpu,
) -> bool {
    match step {
        PictureStep::Import(turn) => import_turned(before, after, turn),
        PictureStep::Imported(image) => {
            &&& before.feed matches ScreenFeedKind::Dmabuf(f)
            &&& f.previous is None
            &&& import_settled(before, image, after)
        },
        PictureStep::Upload(frame) => frame_uploaded(before, frame, after),
        PictureStep::Recreated(extent) => after == (OverlayGpu { extent, ..before }),
        PictureStep::BeginDraw => after == (OverlayGpu { stage: DrawStage::Fence, ..before }),
        PictureStep::Draw(event, action) => {
            &&& draw_expects(before.stage, event)
            &&& draw_stepped(before, event, after, action)
        },
    }
}

/// The imported images that a step has destroyed.
pub open spec fn destroyed_by(step: PictureStep) -> Seq<u64> {
    match step {
        PictureStep::Import(ImportTurn::Import { destroy }) => screen_feed::listed(destroy),
        PictureStep::Draw(_, DrawAction::Acquire { destroy, .. }) => destroy@,
        _ => Seq::empty(),
    }
}

/// Whether a step takes in that the fence of the last draw has signalled.
pub open spec fn fence_signalled(before: OverlayGpu, step: PictureStep) -> bool {
    step matches PictureStep::Draw(event, action) && before.stage == DrawStage::Fence && event
        is Done
}

/// From the submission of a draw to its fence nothing that was held is
/// destroyed: whatever is imported, taken in from memory or attempted to be
/// drawn meanwhile, in whatever number, each image that the draw can sample
/// stays.
pub proof fn law_images_outlive_their_draw(
    states: Seq<OverlayGpu>,
    steps: Seq<PictureStep>,
    image: u64,
)
    requires
        states.len() == steps.len() + 1,
        forall|i: int|
            0 <= i < steps.len() ==> picture_stepped(states[i], #[trigger] steps[i], states[i + 1]),
        forall|i: int| 0 <= i < steps.len() ==> !fence_signalled(states[i], #[trigger] steps[i]),
        states[0].in_flight,
        states[0].holds(image),
    ensures
        states.last().in_flight,
        states.last().holds(image),
        forall|i: int| 0 <= i < steps.len() ==> destroyed_by(#[trigger] steps[i]).len() == 0,
    decreases steps.len(),
{
    if steps.len() > 0 {
        let n = steps.len() - 1;
        let before = states.drop_last();
        assert forall|i: int| 0 <= i < n implies picture_stepped(
            before[i],
            #[trigger] steps.drop_last()[i],
            before[i + 1],
        ) by {
            assert(steps.drop_last()[i] == steps[i]);
        }
        assert forall|i: int| 0 <= i < n implies !fence_signalled(
            before[i],
            #[trigger] steps.drop_last()[i],
        ) by {
            assert(steps.drop_last()[i] == steps[i]);
        }
        law_images_outlive_their_draw(before, steps.drop_last(), image);
        assert forall|i: int| 0 <= i < n implies destroyed_by(#[trigger] steps[i]).len() == 0 by {
            assert(steps.drop_last()[i] == steps[i]);
        }
        assert(picture_stepped(states[n], steps[n], states[n + 1]));
        lemma_step_keeps(states[n], steps[n], states[n + 1], image);
    }
}

proof fn lemma_step_keeps(before: OverlayGpu, step: PictureStep, after: OverlayGpu, image: u64)
    requires
        picture_stepped(before, step, after),
        !fence_signalled(before, step),
        before.in_flight,
        before.holds(image),
    ensures
        after.in_flight,
        after.holds(image),
        destroyed_by(step).len() == 0,
{
    lemma_kept_or_destroyed(before, step, after, image);
}

/// No image is lost: a step keeps each image that was held or has it destroyed.
pub proof fn law_images_are_kept_or_destroyed(
    before: OverlayGpu,
    step: PictureStep,
    after: OverlayGpu,
    image: u64,
)
    requires
        picture_stepped(before, step, after),
        before.holds(image),
    ensures
        after.holds(image) || destroyed_by(step).contains(image),
{
    lemma_kept_or_destroyed(before, step, after, image);
}

proof fn lemma_kept_or_destroyed(
    before: OverlayGpu,
    step: PictureStep,
    after: OverlayGpu,
    image: u64,
)
    requires
        picture_stepped(before, step, after),
        before.holds(image),
    ensures
        after.holds(image) || destroyed_by(step).contains(image),
{
    lemma_images_in_feed(before.feed, image);
    lemma_images_in_feed(after.feed, image);
    if before.retired@.contains(image) {
        let k = before.retired@.index_of(image);
        match step {
            PictureStep::Draw(_, DrawAction::Acquire { destroy, .. }) => {
                if before.stage == DrawStage::Fence {
                    assert(destroy@[k] == image);
                }
            },
            _ => {
                assert(after.retired@[k] == image);
            },
        }
    } else {
        let n = before.retired@.len() as int;
        match (step, before.feed) {
            (PictureStep::Draw(_, DrawAction::Acquire { destroy, .. }), ScreenFeedKind::Dmabuf(f)) => {
                if f.current != Some(image) {
                    assert(destroy@[n] == image);
                }
            },
            (PictureStep::Import(ImportTurn::Import { destroy }), ScreenFeedKind::Dmabuf(f)) => {
                if f.current != Some(image) {
                    if before.in_flight {
                        assert(after.retired@[n] == image);
                    } else {
                        assert(destroyed_by(step)[0] == image);
                    }
                }
            },
            (PictureStep::Upload(frame), ScreenFeedKind::Dmabuf(f)) => {
                if frame.width > 0 && frame.height > 0 {
                    let k = f.images().index_of(image);
                    assert(after.retired@[n + k] == image);
                }
            },
            _ => {},
        }
    }
}

proof fn lemma_images_in_feed(feed: ScreenFeedKind, image: u64)
    ensures
        feed matches ScreenFeedKind::Dmabuf(f) ==> (images_of(feed).contains(image)
            <==> f.holds(image)),
        feed is Shm ==> !images_of(feed).contains(image),
{
    match feed {
        ScreenFeedKind::Shm(_) => {},
        ScreenFeedKind::Dmabuf(f) => {
            let images = f.images();
            let n = screen_feed::listed(f.current).len() as int;
            if f.current == Some(image) {
                assert(images[0] == image);
            }
            if f.previous == Some(image) {
                assert(images[n] == image);
            }
            if images.contains(image) {
                let k = images.index_of(image);
                assert(images[k] == image);
                assert(k < n ==> images[k] == screen_feed::listed(f.current)[k]);
                assert(k >= n ==> images[k] == screen_feed::listed(f.previous)[k - n]);
            }
        },
    }
}

/// A draw is in flight from its submission until its fence has signalled.
pub proof fn law_submitted_draws_are_in_flight(
    before: OverlayGpu,
    event: DrawEvent,
    after: OverlayGpu,
    action: DrawAction,
)
    requires
        draw_expects(before.stage, event),
        draw_stepped(before, event, after, action),
    ensures
        before.stage is Submit && event is Done ==> after.in_flight,
        before.in_flight && !after.in_flight ==> before.stage == DrawStage::Fence && event is Done,
{
}

/// A frame that was taken in from memory is shown, also by a picture that
/// sampled imported images until then: the next draw uploads it, and every
/// pixel of it is staged.
pub proof fn law_fallback_frames_are_drawn(
    before: OverlayGpu,
    frame: IngressFrame,
    after: OverlayGpu,
    i: int,
)
    requires
        before.feed is Dmabuf,
        frame.width > 0,
        frame.height > 0,
        frame.rgba@.len() >= 4 * frame.width * frame.height,
        frame_uploaded(before, frame, after),
        0 <= i < 4 * frame.width * frame.height,
    ensures
        updated(after.feed, after.pending_update).1 == (ScreenUpdate::Upload {
            from: ImageLayout::Undefined,
        }),
        after.feed matches ScreenFeedKind::Shm(g) && g.staging@[i] == frame.rgba@[i],
{
}

/// Once a draw has recorded an update, nothing is pending; up to then an update
/// that is pending stays so, even when the draw comes to nothing.
pub proof fn law_updates_are_not_lost(
    before: OverlayGpu,
    event: DrawEvent,
    after: OverlayGpu,
    action: DrawAction,
)
    requires
        draw_expects(before.stage, event),
        draw_stepped(before, event, after, action),
    ensures
        action is Record ==> !after.pending_update,
        !(action is Record) ==> after.pending_update == before.pending_update,
{
}

/// A draw goes from the fence through the swapchain image, the commands and the
/// submission to the presentation, and it presents the image that it acquired
/// and recorded. A call that fails ends it, and so does a swapchain that no
/// longer suits the surface.
pub proof fn law_draws_go_call_by_call(
    gpu: &mut OverlayGpu,
    event: DrawEvent,
    action: DrawAction,
)
    requires
        call_ensures(OverlayGpu::draw, (gpu, event), action),
        old(gpu).wf(),
        draw_expects(old(gpu).stage, event),
    ensures
        final(gpu).extent == old(gpu).extent,
        event is Failed ==> final(gpu).stage is Idle && action is Refused,
        event is OutOfDate || event is Suboptimal ==> final(gpu).stage is Idle && action
            is Finished,
        event matches DrawEvent::Acquired { image } ==> final(gpu).stage == (
        DrawStage::ResetFence { image }) && action is ResetFence,
        event is Done ==> match old(gpu).stage {
            DrawStage::Fence => final(gpu).stage is Acquire && action is Acquire,
            DrawStage::ResetFence { image } => final(gpu).stage == (DrawStage::ResetCommands {
                image,
            }) && action is ResetCommands,
            DrawStage::ResetCommands { image } => final(gpu).stage == (DrawStage::BeginCommands {
                image,
            }) && action is BeginCommands,
            DrawStage::BeginCommands { image } => final(gpu).stage == (DrawStage::Recording {
                image,
            }) && action is Record && action->Record_image == image,
            DrawStage::Recording { image } => final(gpu).stage == (DrawStage::EndCommands {
                image,
            }) && action is EndCommands,
            DrawStage::EndCommands { image } => final(gpu).stage == (DrawStage::Submit { image })
                && action is Submit,
            DrawStage::Submit { image } => final(gpu).stage is Present && action == (
            DrawAction::Present { image }) && final(gpu).in_flight,
            DrawStage::Present => final(gpu).stage is Idle && action is Finished,
            _ => true,
        },
{
}

/// What a draw records about the screen: nothing where nothing is new; else an
/// upload from the layout that the image is in, which is then readable, or the
/// imported image that still has to be brought into layout, once.
pub proof fn law_draws_record_what_is_new(
    gpu: &mut OverlayGpu,
    action: DrawAction,
    image: u32,
)
    requires
        call_ensures(OverlayGpu::draw, (gpu, DrawEvent::Done), action),
        old(gpu).wf(),
        old(gpu).stage == (DrawStage::BeginCommands { image }),
    ensures
        action is Record,
        !final(gpu).pending_update,
        final(gpu).retired == old(gpu).retired,
        !old(gpu).pending_update ==> action->update is Unchanged && final(gpu).feed
            == old(gpu).feed,
        old(gpu).pending_update ==> match old(gpu).feed {
            ScreenFeedKind::Shm(f) => {
                &&& action->update == (ScreenUpdate::Upload { from: f.image_layout })
                &&& final(gpu).feed matches ScreenFeedKind::Shm(g)
                &&& g.image_layout is ShaderRead
                &&& g.staging == f.staging
                &&& g.width == f.width
                &&& g.height == f.height
            },
            ScreenFeedKind::Dmabuf(f) => {
                &&& f.needs_transition ==> action->update == (ScreenUpdate::Transition {
                    image: f.current,
                })
                &&& !f.needs_transition ==> action->update == (ScreenUpdate::Transition {
                    image: None,
                })
                &&& final(gpu).feed matches ScreenFeedKind::Dmabuf(g)
                &&& g.current == f.current
                &&& g.previous == f.previous
                &&& !g.needs_transition
            },
        },
{
}

/// Once the fence has signalled, every retired image and the one before the
/// sampled one are handed out to be destroyed, in this order and nothing else,
/// and the sampled image is kept.
pub proof fn law_fences_hand_out_what_is_retired(
    gpu: &mut OverlayGpu,
    action: DrawAction,
    k: int,
)
    requires
        call_ensures(OverlayGpu::draw, (gpu, DrawEvent::Done), action),
        old(gpu).wf(),
        old(gpu).stage is Fence,
    ensures
        action is Acquire,
        action->drop_imports == old(gpu).old_imports,
        !final(gpu).old_imports,
        !final(gpu).in_flight,
        final(gpu).retired@.len() == 0,
        final(gpu).pending_update == old(gpu).pending_update,
        0 <= k < old(gpu).retired@.len() ==> action->destroy@.len() > k && action->destroy@[k]
            == old(gpu).retired@[k],
        old(gpu).feed is Shm ==> final(gpu).feed == old(gpu).feed && action->destroy@.len()
            == old(gpu).retired@.len(),
        old(gpu).feed matches ScreenFeedKind::Dmabuf(f) ==> {
            &&& final(gpu).feed matches ScreenFeedKind::Dmabuf(g)
            &&& g.current == f.current
            &&& g.previous is None
            &&& g.needs_transition == f.needs_transition
            &&& f.previous is None ==> action->destroy@.len() == old(gpu).retired@.len()
            &&& f.previous is Some ==> action->destroy@.len() == old(gpu).retired@.len() + 1
                && action->destroy@.last() == f.previous->0
        },
{
}

/// A new picture has the asked extent and something to show. With zero-copy
/// capture it samples imported images, of which there is none yet; else a dark
/// opaque staging buffer of the capture's size.
pub proof fn law_pictures_start_dark(
    extent: Extent,
    capture: Extent,
    zero_copy: bool,
    gpu: OverlayGpu,
)
    requires
        call_ensures(OverlayGpu::new, (extent, capture, zero_copy), gpu),
    ensures
        gpu.extent == extent,
        gpu.pending_update,
        gpu.stage is Idle,
        !gpu.in_flight,
        !gpu.old_imports,
        gpu.retired@.len() == 0,
        zero_copy ==> {
            &&& gpu.feed matches ScreenFeedKind::Dmabuf(f)
            &&& f.current is None
            &&& f.previous is None
            &&& !f.needs_transition
        },
        !zero_copy ==> {
            &&& gpu.feed matches ScreenFeedKind::Shm(f)
            &&& capture.width > 0 ==> f.width == capture.width
            &&& capture.width == 0 ==> f.width == 1
            &&& capture.height > 0 ==> f.height == capture.height
            &&& capture.height == 0 ==> f.height == 1
            &&& f.staging@.len() == 4 * f.width * f.height
            &&& f.image_layout is Undefined
        },
{
}

/// A frame from memory is shown by the next draw: every pixel that it shares
/// with the staging buffer is staged in its place and the others are kept; a
/// picture that sampled imported images goes over to a buffer of the frame's
/// size and retires what it sampled.
pub proof fn law_frames_from_memory_are_staged(
    gpu: &mut OverlayGpu,
    frame: &IngressFrame,
    x: int,
    y: int,
    channel: int,
)
    requires
        call_ensures(OverlayGpu::upload_screen, (gpu, frame), ()),
        old(gpu).wf(),
        frame.width > 0,
        frame.height > 0,
        frame.rgba@.len() >= 4 * frame.width * frame.height,
        0 <= x < frame.width,
        0 <= y < frame.height,
        0 <= channel < 4,
    ensures
        final(gpu).pending_update,
        final(gpu).stage == old(gpu).stage,
        final(gpu).extent == old(gpu).extent,
        final(gpu).in_flight == old(gpu).in_flight,
        final(gpu).feed is Shm,
        old(gpu).feed matches ScreenFeedKind::Shm(f) ==> {
            &&& final(gpu).feed->Shm_0.width == f.width
            &&& final(gpu).feed->Shm_0.height == f.height
            &&& final(gpu).feed->Shm_0.image_layout == f.image_layout
            &&& x < f.width && y < f.height ==> final(gpu).feed->Shm_0.staging@[4 * f.width * y + 4
                * x + channel] == frame.rgba@[4 * frame.width * y + 4 * x + channel]
            &&& final(gpu).retired == old(gpu).retired
        },
        old(gpu).feed matches ScreenFeedKind::Dmabuf(f) ==> {
            &&& final(gpu).feed->Shm_0.width == frame.width
            &&& final(gpu).feed->Shm_0.height == frame.height
            &&& final(gpu).feed->Shm_0.image_layout is Undefined
            &&& final(gpu).feed->Shm_0.staging@[4 * frame.width * y + 4 * x + channel]
                == frame.rgba@[4 * frame.width * y + 4 * x + channel]
            &&& final(gpu).old_imports
            &&& f.current is Some ==> final(gpu).retired@.contains(f.current->0)
            &&& f.previous is Some ==> final(gpu).retired@.contains(f.previous->0)
        },
{
    match old(gpu).feed {
        ScreenFeedKind::Shm(f) => {
            if x < f.width && y < f.height {
                screen_feed::law_frame_pixels_land(
                    f.staging@,
                    f.width,
                    f.height,
                    frame.rgba@,
                    frame.width,
                    frame.height,
                    if f.height <= frame.height {
                        f.height as nat
                    } else {
                        frame.height as nat
                    },
                    x,
                    y,
                    channel,
                );
            }
        },
        ScreenFeedKind::Dmabuf(f) => {
            let to = 4 * frame.width * y + 4 * x + channel;
            assert(0 <= 4 * frame.width * y && 4 * frame.width * y + 4 * frame.width <= 4
                * frame.width * frame.height) by (nonlinear_arith)
                requires
                    0 <= y,
                    y + 1 <= frame.height,
                    0 <= frame.width,
            ;
            let n = old(gpu).retired@.len() as int;
            let first = screen_feed::listed(f.current).len() as int;
            if f.current is Some {
                assert(final(gpu).retired@[n] == f.current->0);
            }
            if f.previous is Some {
                assert(final(gpu).retired@[n + first] == f.previous->0);
            }
        },
    }
}

/// A frame that is imported takes the place of the sampled one, which is kept
/// behind it; where the import failed nothing changes. The image behind is let
/// go at once when no draw is in flight, and retired when one is.
pub proof fn law_imports_take_turns(
    gpu: &mut OverlayGpu,
    turn: ImportTurn,
    next: &mut OverlayGpu,
    image: Option<u64>,
    f: DmabufScreenFeed,
)
    requires
        call_ensures(OverlayGpu::import_screen, (gpu,), turn),
        old(gpu).feed == ScreenFeedKind::Dmabuf(f),
        *old(next) == *final(gpu),
        call_ensures(OverlayGpu::imported, (next, image), ()),
    ensures
        turn is Import,
        !old(gpu).in_flight ==> turn->destroy == f.previous && final(gpu).retired@
            == old(gpu).retired@,
        old(gpu).in_flight ==> turn->destroy is None,
        old(gpu).in_flight && f.previous is Some ==> final(gpu).retired@
            == old(gpu).retired@.push(f.previous->0),
        old(gpu).in_flight && f.previous is None ==> final(gpu).retired@ == old(gpu).retired@,
        final(next).retired == final(gpu).retired,
        final(next).extent == old(gpu).extent,
        final(next).feed is Dmabuf,
        image is Some ==> {
            &&& final(next).feed->Dmabuf_0.current == image
            &&& final(next).feed->Dmabuf_0.previous == f.current
            &&& final(next).feed->Dmabuf_0.needs_transition
            &&& final(next).pending_update
        },
        image is None ==> {
            &&& final(next).feed->Dmabuf_0.current == f.current
            &&& final(next).feed->Dmabuf_0.previous is None
            &&& final(next).feed->Dmabuf_0.needs_transition == f.needs_transition
            &&& final(next).pending_update == old(gpu).pending_update
        },
{
    if old(gpu).in_flight {
        let before = old(gpu).retired@;
        match f.previous {
            Some(image) => {
                assert(before + seq![image] =~= before.push(image));
            },
            None => {
                assert(before + Seq::<u64>::empty() =~= before);
            },
        }
    }
}

/// An empty frame has nothing to show: a picture that samples imported images
/// goes on sampling them.
pub proof fn law_empty_frames_change_nothing(gpu: &mut OverlayGpu, frame: &IngressFrame)
    requires
        call_ensures(OverlayGpu::upload_screen, (gpu, frame), ()),
        old(gpu).feed is Dmabuf,
        frame.width == 0 || frame.height == 0,
    ensures
        *final(gpu) == *old(gpu),
{
}

/// A picture that samples a staging buffer takes no DMA-BUF.
pub proof fn law_staged_pictures_skip_imports(gpu: &mut OverlayGpu, turn: ImportTurn)
    requires
        call_ensures(OverlayGpu::import_screen, (gpu,), turn),
        old(gpu).feed is Shm,
    ensures
        turn is Skip,
        *final(gpu) == *old(gpu),
{
}

/// The swapchain is made anew when the surface has another width or height, and
/// the picture then has that extent; nothing else of it changes.
pub proof fn law_swapchains_follow_the_surface(
    gpu: &OverlayGpu,
    extent: Extent,
    needed: bool,
    made: &mut OverlayGpu,
)
    requires
        call_ensures(OverlayGpu::needs_recreate, (gpu, extent), needed),
        call_ensures(OverlayGpu::recreated, (made, extent), ()),
    ensures
        needed <==> extent.width != gpu.extent.width || extent.height != gpu.extent.height,
        final(made).extent == extent,
        final(made).feed == old(made).feed,
        final(made).retired == old(made).retired,
        final(made).pending_update == old(made).pending_update,
        final(made).stage == old(made).stage,
        final(made).in_flight == old(made).in_flight,
{
}

/// Where the picture is let go, every imported image is given up: the retired
/// ones, then the sampled one and the one behind it.
pub proof fn law_destroyed_pictures_give_up_their_images(
    gpu: &mut OverlayGpu,
    images: Vec<u64>,
    image: u64,
)
    requires
        call_ensures(OverlayGpu::destroy, (gpu,), images),
        old(gpu).retired@.contains(image) || (old(gpu).feed matches ScreenFeedKind::Dmabuf(f) && (
        f.current == Some(image) || f.previous == Some(image))),
    ensures
        images@.contains(image),
        final(gpu).retired@.len() == 0,
{
    let n = old(gpu).retired@.len() as int;
    if old(gpu).retired@.contains(image) {
        let k = old(gpu).retired@.index_of(image);
        assert(images@[k] == image);
    } else {
        lemma_images_in_feed(old(gpu).feed, image);
        let held = images_of(old(gpu).feed);
        let k = held.index_of(image);
        assert(images@[n + k] == image);
    }
}

/// Nothing is made before what it is made of, or destroyed before what uses it:
/// framebuffers need views and the render pass, views the swapchain, and the
/// pipeline its layout, the render pass and, through the layout, the feed.
pub proof fn law_objects_go_by_use(
    made: Vec<OverlayObject>,
    gone: Vec<OverlayObject>,
    a: int,
    b: int,
    c: int,
    d: int,
)
    requires
        call_ensures(setup, (), made),
        call_ensures(teardown, (), gone),
        0 <= a < made@.len(),
        0 <= b < made@.len(),
        0 <= c < gone@.len(),
        0 <= d < gone@.len(),
        made@[a] == gone@[c],
        made@[b] == gone@[d],
        match (made@[a], made@[b]) {
            (OverlayObject::Swapchain, OverlayObject::ImageViews) => true,
            (OverlayObject::ImageViews, OverlayObject::Framebuffers) => true,
            (OverlayObject::RenderPass, OverlayObject::Framebuffers) => true,
            (OverlayObject::PipelineLayout, OverlayObject::Pipeline) => true,
            (OverlayObject::Feed, OverlayObject::PipelineLayout) => true,
            _ => false,
        },
    ensures
        a < b,
        d < c,
{
}

/// Every word of an overlay shader is spelled by its own four bytes, and either
/// all words are read least significant byte first or all most significant
/// first; the first one shows which.
pub proof fn law_overlay_shader_words_are_spelled(
    bytes: &[u8],
    r: Result<Vec<u32>, String>,
    i: int,
)
    requires
        call_ensures(overlay_shader_code, (bytes,), r),
    ensures
        r matches Ok(words) ==> {
            &&& 4 * words@.len() == bytes@.len()
            &&& words@.len() > 0
            &&& words@[0] == 0x0723_0203
            &&& 0 <= i < words@.len() && bytes@[0] == 0x03 ==> words@[i] == le::spelled_at(
                bytes@,
                4 * i,
            )
            &&& 0 <= i < words@.len() && bytes@[0] != 0x03 ==> words@[i] == 0x100_0000
                * bytes@[4 * i] + 0x1_0000 * bytes@[4 * i + 1] + 0x100 * bytes@[4 * i + 2]
                + bytes@[4 * i + 3]
        },
{
}

/// The message for a failed call names the call and ends with what the device
/// reported.
pub proof fn law_failures_name_their_call(call: OverlayFault, detail: &str, message: String)
    requires
        call_ensures(OverlayFault::failure, (call, detail), message),
    ensures
        message@ == match call {
            OverlayFault::SurfaceCapabilities => "vkGetPhysicalDeviceSurfaceCapabilitiesKHR: "@ + detail@,
            OverlayFault::SurfaceFormats => "vkGetPhysicalDeviceSurfaceFormatsKHR: "@ + detail@,
            OverlayFault::CreateSwapchain => "vkCreateSwapchainKHR failed: "@ + detail@,
            OverlayFault::SwapchainImages => "vkGetSwapchainImagesKHR failed: "@ + detail@,
            OverlayFault::CreateImageView => "vkCreateImageView (overlay) failed: "@ + detail@,
            OverlayFault::CreateRenderPass => "vkCreateRenderPass (overlay) failed: "@ + detail@,
            OverlayFault::CreateFramebuffer => "vkCreateFramebuffer failed: "@ + detail@,
            OverlayFault::CreateShaderModule => "vkCreateShaderModule (overlay) failed: "@ + detail@,
            OverlayFault::CreatePipelineLayout => "vkCreatePipelineLayout (overlay) failed: "@ + detail@,
            OverlayFault::CreateGraphicsPipelines => "vkCreateGraphicsPipelines (overlay) failed: "@ + detail@,
            OverlayFault::CreateCommandPool => "vkCreateCommandPool (overlay) failed: "@ + detail@,
            OverlayFault::AllocateCommandBuffers => "vkAllocateCommandBuffers (overlay) failed: "@ + detail@,
            OverlayFault::CreateSemaphore => "vkCreateSemaphore failed: "@ + detail@,
            OverlayFault::CreateFence => "vkCreateFence (overlay) failed: "@ + detail@,
        },
{
}

/// The message of a draw that failed names the call and ends with the reason.
pub proof fn law_failed_draws_name_their_call(
    gpu: &mut OverlayGpu,
    reason: String,
    action: DrawAction,
)
    requires
        call_ensures(OverlayGpu::draw, (gpu, DrawEvent::Failed(reason)), action),
        old(gpu).stage !is Idle,
        old(gpu).stage !is Recording,
    ensures
        action is Refused,
        action->Refused_0@ == match old(gpu).stage {
            DrawStage::Fence => "overlay fence wait: "@ + reason@,
            DrawStage::Acquire => "vkAcquireNextImageKHR failed: "@ + reason@,
            DrawStage::ResetFence { .. } => "overlay reset fences: "@ + reason@,
            DrawStage::ResetCommands { .. } => "overlay reset cmd: "@ + reason@,
            DrawStage::BeginCommands { .. } => "overlay begin cmd: "@ + reason@,
            DrawStage::EndCommands { .. } => "overlay end cmd: "@ + reason@,
            DrawStage::Submit { .. } => "overlay queue_submit: "@ + reason@,
            _ => "vkQueuePresentKHR failed: "@ + reason@,
        },
        final(gpu).stage is Idle,
        final(gpu).feed == old(gpu).feed,
        final(gpu).retired == old(gpu).retired,
        final(gpu).pending_update == old(gpu).pending_update,
        final(gpu).in_flight == old(gpu).in_flight,
{
}

/// A draw begins with the fence of the one before and changes nothing else.
pub proof fn law_draws_begin_with_the_fence(gpu: &mut OverlayGpu, action: DrawAction)
    requires
        call_ensures(OverlayGpu::begin_draw, (gpu,), action),
    ensures
        action is WaitFence,
        final(gpu).stage is Fence,
        final(gpu).feed == old(gpu).feed,
        final(gpu).pending_update == old(gpu).pending_update,
        final(gpu).in_flight == old(gpu).in_flight,
        final(gpu).retired == old(gpu).retired,
        final(gpu).old_imports == old(gpu).old_imports,
        final(gpu).extent == old(gpu).extent,
{
}

} // verus!
