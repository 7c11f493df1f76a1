//! What is decided about the GPU: which device is taken, which extensions are
//! switched on, which memory is used, and how a captured DMA-BUF becomes an
//! image. The calls themselves are made by whoever owns the device.

use crate::actors::ingress::screen_dmabuf;
use crate::actors::ingress::{
    DmabufFrame, DRM_FORMAT_ABGR8888, DRM_FORMAT_ARGB8888, DRM_FORMAT_XBGR8888, DRM_FORMAT_XRGB8888,
};
use crate::text;
use vstd::prelude::*;
use vstd::string::*;

verus! {

// ---------------------------------------------------------------------------
// formats and memory
// ---------------------------------------------------------------------------

/// The image formats in use.
#[derive(Debug, Clone, Copy, PartialEq, Eq, Structural)]
pub enum VkFormat {
    Undefined,
    B8G8R8A8Unorm,
    R8G8B8A8Unorm,
}

pub open spec fn vk_format_of(drm_format: u32) -> VkFormat {
    if drm_format == DRM_FORMAT_XRGB8888 || drm_format == DRM_FORMAT_ARGB8888 {
        VkFormat::B8G8R8A8Unorm
    } else if drm_format == DRM_FORMAT_XBGR8888 || drm_format == DRM_FORMAT_ABGR8888 {
        VkFormat::R8G8B8A8Unorm
    } else {
        VkFormat::Undefined
    }
}

/// The image format of a DRM format, `Undefined` where it is not handled.
pub fn drm_to_vk_format(drm_format: u32) -> (format: VkFormat)
    ensures
        format == vk_format_of(drm_format),
{
    if drm_format == DRM_FORMAT_XRGB8888 || drm_format == DRM_FORMAT_ARGB8888 {
        VkFormat::B8G8R8A8Unorm
    } else if drm_format == DRM_FORMAT_XBGR8888 || drm_format == DRM_FORMAT_ABGR8888 {
        VkFormat::R8G8B8A8Unorm
    } else {
        VkFormat::Undefined
    }
}

/// Memory property bits.
pub const MEMORY_DEVICE_LOCAL: u32 = 1;

pub const MEMORY_HOST_VISIBLE: u32 = 2;

pub const MEMORY_HOST_COHERENT: u32 = 4;

/// Whether memory type `i` is among `compatible_bits` and has all of
/// `required_flags`.
pub open spec fn memory_type_fits(
    types: Seq<u32>,
    compatible_bits: u32,
    required_flags: u32,
    i: int,
) -> bool {
    &&& 0 <= i < types.len()
    &&& compatible_bits & (1u32 << (i as u32)) != 0
    &&& types[i] & required_flags == required_flags
}

/// Whether no memory type is among `compatible_bits` with all of
/// `required_flags`.
pub open spec fn none_fits(types: Seq<u32>, compatible_bits: u32, required_flags: u32) -> bool {
    forall|j: int| !memory_type_fits(types, compatible_bits, required_flags, j)
}

/// The first memory type that fits; `types` holds the property bits of each.
pub fn choose_memory_type(types: &[u32], compatible_bits: u32, required_flags: u32) -> (r: Option<
    u32,
>)
    requires
        types.len() <= 32,
    ensures
        match r {
            Some(i) => {
                &&& memory_type_fits(types@, compatible_bits, required_flags, i as int)
                &&& forall|j: int|
                    0 <= j < i ==> !memory_type_fits(types@, compatible_bits, required_flags, j)
            },
            None => none_fits(types@, compatible_bits, required_flags),
        },
{
    let mut i: u32 = 0;
    while (i as usize) < types.len()
        invariant
            i <= types.len(),
            types.len() <= 32,
            forall|j: int|
                0 <= j < i ==> !memory_type_fits(types@, compatible_bits, required_flags, j),
        decreases types.len() - i,
    {
        if compatible_bits & (1u32 << i) != 0 && types[i as usize] & required_flags
            == required_flags {
            return Some(i);
        }
        i += 1;
    }
    None
}

// ---------------------------------------------------------------------------
// the physical device
// ---------------------------------------------------------------------------

#[derive(Debug, Clone, Copy, PartialEq, Eq, Structural)]
pub enum DeviceKind {
    Discrete,
    Integrated,
    Virtual,
    Cpu,
    Other,
}

/// How much a kind of device is wanted.
pub open spec fn score_of(kind: DeviceKind) -> int {
    match kind {
        DeviceKind::Discrete => 4,
        DeviceKind::Integrated => 3,
        DeviceKind::Virtual => 2,
        DeviceKind::Cpu => 1,
        DeviceKind::Other => 0,
    }
}

fn score(kind: DeviceKind) -> (s: i32)
    ensures
        s == score_of(kind),
{
    match kind {
        DeviceKind::Discrete => 4,
        DeviceKind::Integrated => 3,
        DeviceKind::Virtual => 2,
        DeviceKind::Cpu => 1,
        DeviceKind::Other => 0,
    }
}

/// The graphics bit of a queue family.
pub const QUEUE_GRAPHICS: u32 = 1;

/// Whether no queue family draws.
pub open spec fn none_draws(families: Seq<u32>) -> bool {
    forall|j: int|
        0 <= j < families.len() ==> (#[trigger] families[j]) & QUEUE_GRAPHICS != QUEUE_GRAPHICS
}

/// The first queue family that draws; `families` holds the bits of each.
pub fn graphics_family(families: &[u32]) -> (r: Option<u32>)
    requires
        families.len() <= u32::MAX,
    ensures
        match r {
            Some(i) => {
                &&& i < families.len()
                &&& families@[i as int] & QUEUE_GRAPHICS == QUEUE_GRAPHICS
                &&& none_draws(families@.take(i as int))
            },
            None => none_draws(families@),
        },
{
    let mut i: usize = 0;
    while i < families.len()
        invariant
            i <= families.len(),
            families.len() <= u32::MAX,
            forall|j: int|
                0 <= j < i ==> (#[trigger] families@[j]) & QUEUE_GRAPHICS != QUEUE_GRAPHICS,
        decreases families.len() - i,
    {
        if families[i] & QUEUE_GRAPHICS == QUEUE_GRAPHICS {
            return Some(i as u32);
        }
        i += 1;
    }
    None
}

/// One physical device. `presentable` says whether its graphics family can
/// present to the overlay's surface, where there is one.
#[derive(Debug)]
pub struct DeviceInfo {
    pub kind: DeviceKind,
    pub graphics_family: Option<u32>,
    pub presentable: Option<bool>,
    pub name: String,
}

impl DeviceInfo {
    pub open spec fn usable(&self) -> bool {
        self.graphics_family is Some && self.presentable != Some(false)
    }
}

pub open spec fn no_device() -> Seq<char> {
    "no Vulkan physical device with a graphics queue family"@
}

/// Whether device `i` is the one to take: usable, with the highest score, and
/// the first of those.
pub open spec fn is_best(devices: Seq<DeviceInfo>, i: int) -> bool {
    &&& 0 <= i < devices.len()
    &&& devices[i].usable()
    &&& forall|j: int|
        0 <= j < devices.len() && (#[trigger] devices[j]).usable() ==> {
            &&& score_of(devices[j].kind) <= score_of(devices[i].kind)
            &&& j < i ==> score_of(devices[j].kind) < score_of(devices[i].kind)
        }
}

/// Whether no device is usable.
pub open spec fn none_usable(devices: Seq<DeviceInfo>) -> bool {
    forall|j: int| 0 <= j < devices.len() ==> !(#[trigger] devices[j]).usable()
}

/// Picks a device that can draw and present: discrete before integrated before
/// virtual before software, and the first of its kind.
pub fn pick_physical_device(devices: &[DeviceInfo]) -> (r: Result<usize, String>)
    ensures
        match r {
            Ok(i) => is_best(devices@, i as int),
            Err(message) => message@ == no_device() && none_usable(devices@),
        },
{
    let mut best: Option<usize> = None;
    let mut i: usize = 0;
    while i < devices.len()
        invariant
            i <= devices.len(),
            match best {
                Some(b) => b < i && is_best(devices@.take(i as int), b as int),
                None => forall|j: int| 0 <= j < i ==> !(#[trigger] devices@[j]).usable(),
            },
        decreases devices.len() - i,
    {
        let device = &devices[i];
        let usable = device.graphics_family.is_some() && device.presentable != Some(false);
        let ghost now = devices@.take(i + 1);
        proof {
            assert forall|j: int| 0 <= j < i implies now[j] == devices@.take(i as int)[j] by {}
        }
        if usable {
            match best {
                Some(b) => {
                    if score(device.kind) > score(devices[b].kind) {
                        best = Some(i);
                        assert(is_best(now, i as int)) by {
                            assert forall|j: int|
                                0 <= j < now.len() && (#[trigger] now[j]).usable() implies score_of(
                                now[j].kind,
                            ) <= score_of(now[i as int].kind) && (j < i ==> score_of(now[j].kind)
                                < score_of(now[i as int].kind)) by {
                                if j < i {
                                    assert(devices@.take(i as int)[j].usable());
                                }
                            }
                        }
                    } else {
                        assert(is_best(now, b as int)) by {
                            assert forall|j: int|
                                0 <= j < now.len() && (#[trigger] now[j]).usable() implies score_of(
                                now[j].kind,
                            ) <= score_of(now[b as int].kind) && (j < b ==> score_of(now[j].kind)
                                < score_of(now[b as int].kind)) by {
                                if j < i {
                                    assert(devices@.take(i as int)[j].usable());
                                }
                            }
                        }
                    }
                },
                None => {
                    best = Some(i);
                    assert(is_best(now, i as int));
                },
            }
        } else {
            match best {
                Some(b) => {
                    assert(is_best(now, b as int)) by {
                        assert forall|j: int|
                            0 <= j < now.len() && (#[trigger] now[j]).usable() implies score_of(
                            now[j].kind,
                        ) <= score_of(now[b as int].kind) && (j < b ==> score_of(now[j].kind)
                            < score_of(now[b as int].kind)) by {
                            assert(devices@.take(i as int)[j].usable());
                        }
                    }
                },
                None => {},
            }
        }
        i += 1;
    }
    assert(devices@.take(i as int) =~= devices@);
    match best {
        Some(b) => Ok(b),
        None => Err("no Vulkan physical device with a graphics queue family".to_string()),
    }
}

// ---------------------------------------------------------------------------
// extensions
// ---------------------------------------------------------------------------

/// The extensions that are asked for.
#[derive(Debug, Clone, Copy, PartialEq, Eq, Structural)]
pub enum Extension {
    KhrSurface,
    KhrWaylandSurface,
    KhrSwapchain,
    KhrExternalMemoryFd,
    ExtExternalMemoryDmaBuf,
    ExtImageDrmFormatModifier,
}

impl Extension {
    pub open spec fn text(self) -> Seq<char> {
        match self {
            Extension::KhrSurface => "VK_KHR_surface"@,
            Extension::KhrWaylandSurface => "VK_KHR_wayland_surface"@,
            Extension::KhrSwapchain => "VK_KHR_swapchain"@,
            Extension::KhrExternalMemoryFd => "VK_KHR_external_memory_fd"@,
            Extension::ExtExternalMemoryDmaBuf => "VK_EXT_external_memory_dma_buf"@,
            Extension::ExtImageDrmFormatModifier => "VK_EXT_image_drm_format_modifier"@,
        }
    }

    /// The name under which a driver lists the extension.
    pub fn name(self) -> (name: &'static str)
        ensures
            name@ == self.text(),
    {
        match self {
            Extension::KhrSurface => "VK_KHR_surface",
            Extension::KhrWaylandSurface => "VK_KHR_wayland_surface",
            Extension::KhrSwapchain => "VK_KHR_swapchain",
            Extension::KhrExternalMemoryFd => "VK_KHR_external_memory_fd",
            Extension::ExtExternalMemoryDmaBuf => "VK_EXT_external_memory_dma_buf",
            Extension::ExtImageDrmFormatModifier => "VK_EXT_image_drm_format_modifier",
        }
    }
}

/// The instance extensions: those for a surface, where one is wanted.
pub open spec fn instance_extension_list(wayland: bool) -> Seq<Extension> {
    if wayland {
        seq![Extension::KhrSurface, Extension::KhrWaylandSurface]
    } else {
        Seq::empty()
    }
}

pub fn instance_extensions(wayland: bool) -> (extensions: Vec<Extension>)
    ensures
        extensions@ == instance_extension_list(wayland),
{
    let mut extensions: Vec<Extension> = Vec::new();
    if wayland {
        extensions.push(Extension::KhrSurface);
        extensions.push(Extension::KhrWaylandSurface);
    }
    extensions
}

/// Whether a driver lists the extension.
pub open spec fn lists(available: Seq<String>, extension: Extension) -> bool {
    exists|i: int| 0 <= i < available.len() && #[trigger] available[i]@ == extension.text()
}

fn has_extension(available: &[String], extension: Extension) -> (has: bool)
    ensures
        has == lists(available@, extension),
{
    let name = extension.name();
    let mut i: usize = 0;
    while i < available.len()
        invariant
            i <= available.len(),
            name@ == extension.text(),
            forall|j: int| 0 <= j < i ==> #[trigger] available@[j]@ != extension.text(),
        decreases available.len() - i,
    {
        let own = text::chars_of(available[i].as_str());
        if text::equals(own.as_slice(), name) {
            return true;
        }
        i += 1;
    }
    false
}

/// Whether DMA-BUFs can be imported: both extensions for it are listed.
pub open spec fn can_import(available: Seq<String>) -> bool {
    lists(available, Extension::KhrExternalMemoryFd) && lists(
        available,
        Extension::ExtExternalMemoryDmaBuf,
    )
}

/// The device extensions: the swapchain where there is a surface, and the
/// zero-copy ones as far as they are listed.
pub open spec fn device_extension_list(wayland: bool, dma_buf: bool, modifier: bool) -> Seq<
    Extension,
> {
    (if wayland {
        seq![Extension::KhrSwapchain]
    } else {
        Seq::empty()
    }) + (if dma_buf {
        seq![Extension::KhrExternalMemoryFd, Extension::ExtExternalMemoryDmaBuf]
    } else {
        Seq::empty()
    }) + (if modifier {
        seq![Extension::ExtImageDrmFormatModifier]
    } else {
        Seq::empty()
    })
}

fn device_extensions(wayland: bool, dma_buf: bool, modifier: bool) -> (extensions: Vec<Extension>)
    ensures
        extensions@ == device_extension_list(wayland, dma_buf, modifier),
{
    let mut extensions: Vec<Extension> = Vec::new();
    if wayland {
        extensions.push(Extension::KhrSwapchain);
    }
    if dma_buf {
        extensions.push(Extension::KhrExternalMemoryFd);
        extensions.push(Extension::ExtExternalMemoryDmaBuf);
    }
    if modifier {
        extensions.push(Extension::ExtImageDrmFormatModifier);
    }
    assert(extensions@ =~= device_extension_list(wayland, dma_buf, modifier));
    extensions
}

// ---------------------------------------------------------------------------
// bringing the device up
// ---------------------------------------------------------------------------

/// What is known of the device that was brought up. `device` is its place in
/// the list of physical devices.
#[derive(Debug)]
pub struct VulkanContext {
    pub device: usize,
    pub graphics_queue_family: u32,
    pub supports_dma_buf_import: bool,
    pub supports_drm_format_modifier: bool,
    pub device_name: String,
}

impl VulkanContext {
    /// Whether captured DMA-BUFs can be used without a copy: import and format
    /// modifiers are both there.
    pub fn supports_zero_copy_capture(&self) -> (r: bool)
        ensures
            r == (self.supports_dma_buf_import && self.supports_drm_format_modifier),
    {
        self.supports_dma_buf_import && self.supports_drm_format_modifier
    }
}

/// The call whose outcome is awaited.
#[derive(Debug)]
pub enum InitStage {
    Loader,
    Instance,
    Surface,
    Devices,
    Extensions { device: usize, family: u32, name: String },
    Device {
        device: usize,
        family: u32,
        name: String,
        dma_buf: bool,
        modifier: bool,
    },
    Over,
}

/// What became of the awaited call.
#[derive(Debug)]
pub enum InitEvent {
    Done,
    Devices(Vec<DeviceInfo>),
    Extensions(Vec<String>),
    Failed(String),
}

/// What to do next.
#[derive(Debug)]
pub enum InitAction {
    LoadLoader,
    CreateInstance { extensions: Vec<Extension> },
    CreateSurface,
    ListDevices,
    ListExtensions { device: usize },
    CreateDevice { device: usize, family: u32, extensions: Vec<Extension> },
    Ready(VulkanContext),
    /// The message, after the surface and the instance are destroyed as asked.
    Refused { destroy_surface: bool, destroy_instance: bool, message: String },
}

impl InitAction {
    /// A refusal that leaves everything to the end of the process.
    pub open spec fn refuses(&self, message: Seq<char>) -> bool {
        &&& self matches InitAction::Refused {
            destroy_surface: false,
            destroy_instance: false,
            message: m,
        }
        &&& m@ == message
    }
}

/// How the message for a failed call starts.
pub open spec fn init_failure(stage: InitStage) -> Seq<char> {
    match stage {
        InitStage::Loader => "no Vulkan loader found on this system: "@,
        InitStage::Instance => "vkCreateInstance failed: "@,
        InitStage::Surface => "vkCreateWaylandSurfaceKHR failed: "@,
        InitStage::Devices => "failed to enumerate physical devices: "@,
        InitStage::Extensions { .. } => "failed to enumerate device extensions: "@,
        _ => "vkCreateDevice failed: "@,
    }
}

/// Whether an event can be the outcome of the awaited call.
pub open spec fn init_expects(stage: InitStage, event: InitEvent) -> bool {
    match stage {
        InitStage::Loader | InitStage::Instance | InitStage::Surface => event is Done
            || event is Failed,
        InitStage::Devices => event is Devices || event is Failed,
        InitStage::Extensions { .. } => event is Extensions || event is Failed,
        InitStage::Device { .. } => event is Done || event is Failed,
        InitStage::Over => false,
    }
}

/// Brings the device up, call by call.
#[derive(Debug)]
pub struct VulkanInit {
    pub wayland: bool,
    pub stage: InitStage,
}

impl VulkanInit {
    /// Starts, with a surface for the overlay or without.
    pub fn begin(wayland: bool) -> (r: (VulkanInit, InitAction))
        ensures
            r.0.wayland == wayland,
            r.0.stage is Loader,
            r.1 is LoadLoader,
    {
        (VulkanInit { wayland, stage: InitStage::Loader }, InitAction::LoadLoader)
    }

    /// Takes in the outcome of the awaited call.
    pub fn step(&mut self, event: InitEvent) -> (action: InitAction)
        requires
            init_expects(old(self).stage, event),
        ensures
            final(self).wayland == old(self).wayland,
            match event {
                InitEvent::Failed(reason) => {
                    &&& final(self).stage is Over
                    &&& action.refuses(init_failure(old(self).stage) + reason@)
                },
                InitEvent::Devices(devices) => if devices@.len() == 0 {
                    &&& final(self).stage is Over
                    &&& action matches InitAction::Refused {
                        destroy_surface,
                        destroy_instance,
                        message,
                    }
                    &&& destroy_surface == old(self).wayland
                    &&& destroy_instance
                    &&& message@ == "no Vulkan-capable physical devices found"@
                } else if exists|i: int|
                    0 <= i < devices@.len() && (#[trigger] devices@[i]).usable() {
                    &&& final(self).stage matches InitStage::Extensions { device, family, name }
                    &&& is_best(devices@, device as int)
                    &&& Some(family) == devices@[device as int].graphics_family
                    &&& name@ == devices@[device as int].name@
                    &&& action == (InitAction::ListExtensions { device })
                } else {
                    &&& final(self).stage is Over
                    &&& action.refuses(no_device())
                },
                InitEvent::Extensions(available) => match old(self).stage {
                    InitStage::Extensions { device: d, family: f, name: n } => {
                        &&& final(self).stage matches InitStage::Device {
                            device,
                            family,
                            name,
                            dma_buf,
                            modifier,
                        }
                        &&& (device, family) == (d, f)
                        &&& name == n
                        &&& dma_buf == can_import(available@)
                        &&& modifier == lists(available@, Extension::ExtImageDrmFormatModifier)
                        &&& action matches InitAction::CreateDevice {
                            device: at,
                            family: of,
                            extensions,
                        }
                        &&& (at, of) == (d, f)
                        &&& extensions@ == device_extension_list(
                            old(self).wayland,
                            dma_buf,
                            modifier,
                        )
                    },
                    _ => true,
                },
                InitEvent::Done => match old(self).stage {
                    InitStage::Loader => {
                        &&& final(self).stage is Instance
                        &&& action matches InitAction::CreateInstance { extensions }
                        &&& extensions@ == instance_extension_list(old(self).wayland)
                    },
                    InitStage::Instance => if old(self).wayland {
                        final(self).stage is Surface && action is CreateSurface
                    } else {
                        final(self).stage is Devices && action is ListDevices
                    },
                    InitStage::Surface => final(self).stage is Devices && action is ListDevices,
                    InitStage::Device { device, family, name, dma_buf, modifier } => {
                        &&& final(self).stage is Over
                        &&& action matches InitAction::Ready(context)
                        &&& context.device == device
                        &&& context.graphics_queue_family == family
                        &&& context.supports_dma_buf_import == dma_buf
                        &&& context.supports_drm_format_modifier == modifier
                        &&& context.device_name == name
                    },
                    _ => true,
                },
            },
    {
        let mut stage = InitStage::Over;
        std::mem::swap(&mut stage, &mut self.stage);
        match event {
            InitEvent::Failed(reason) => {
                let mut message = match stage {
                    InitStage::Loader => "no Vulkan loader found on this system: ".to_string(),
                    InitStage::Instance => "vkCreateInstance failed: ".to_string(),
                    InitStage::Surface => "vkCreateWaylandSurfaceKHR failed: ".to_string(),
                    InitStage::Devices => "failed to enumerate physical devices: ".to_string(),
                    InitStage::Extensions { .. } =>
                        "failed to enumerate device extensions: ".to_string(),
                    _ => "vkCreateDevice failed: ".to_string(),
                };
                message.append(reason.as_str());
                InitAction::Refused { destroy_surface: false, destroy_instance: false, message }
            },
            InitEvent::Devices(devices) => {
                if devices.len() == 0 {
                    return InitAction::Refused {
                        destroy_surface: self.wayland,
                        destroy_instance: true,
                        message: "no Vulkan-capable physical devices found".to_string(),
                    };
                }
                match pick_physical_device(devices.as_slice()) {
                    Ok(device) => {
                        let family: u32 = match devices[device].graphics_family {
                            Some(family) => family,
                            None => 0,
                        };
                        let name = devices[device].name.as_str().to_string();
                        self.stage = InitStage::Extensions { device, family, name };
                        InitAction::ListExtensions { device }
                    },
                    Err(message) => InitAction::Refused {
                        destroy_surface: false,
                        destroy_instance: false,
                        message,
                    },
                }
            },
            InitEvent::Extensions(available) => match stage {
                InitStage::Extensions { device, family, name } => {
                    let dma_buf = has_extension(
                        available.as_slice(),
                        Extension::KhrExternalMemoryFd,
                    ) && has_extension(available.as_slice(), Extension::ExtExternalMemoryDmaBuf);
                    let modifier = has_extension(
                        available.as_slice(),
                        Extension::ExtImageDrmFormatModifier,
                    );
                    self.stage = InitStage::Device { device, family, name, dma_buf, modifier };
                    InitAction::CreateDevice {
                        device,
                        family,
                        extensions: device_extensions(self.wayland, dma_buf, modifier),
                    }
                },
                _ => InitAction::ListDevices,
            },
            InitEvent::Done => match stage {
                InitStage::Loader => {
                    self.stage = InitStage::Instance;
                    InitAction::CreateInstance { extensions: instance_extensions(self.wayland) }
                },
                InitStage::Instance => {
                    if self.wayland {
                        self.stage = InitStage::Surface;
                        InitAction::CreateSurface
                    } else {
                        self.stage = InitStage::Devices;
                        InitAction::ListDevices
                    }
                },
                InitStage::Device { device, family, name, dma_buf, modifier } => InitAction::Ready(
                    VulkanContext {
                        device,
                        graphics_queue_family: family,
                        supports_dma_buf_import: dma_buf,
                        supports_drm_format_modifier: modifier,
                        device_name: name,
                    },
                ),
                _ => {
                    self.stage = InitStage::Devices;
                    InitAction::ListDevices
                },
            },
        }
    }
}

// ---------------------------------------------------------------------------
// importing a DMA-BUF
// ---------------------------------------------------------------------------

/// The image to create for a captured frame, around its one plane.
#[derive(Debug, Clone, Copy, PartialEq, Eq, Structural)]
pub struct ImportedImage {
    pub format: VkFormat,
    pub width: u32,
    pub height: u32,
    pub modifier: u64,
    pub fd: i32,
    pub stride: u32,
    pub offset: u32,
    pub opaque_alpha: bool,
}

/// Why a frame is not imported at all. `importable` holds the modifiers that
/// the device can import for the frame's format.
pub open spec fn import_refusal(
    frame: DmabufFrame,
    fd_import: bool,
    importable: Seq<u64>,
) -> Option<Seq<char>> {
    if !fd_import {
        Some("VK_KHR_external_memory_fd not enabled — cannot import dmabuf"@)
    } else if !frame.ready() {
        Some("dmabuf frame not ready (no planes)"@)
    } else if vk_format_of(frame.drm_format) == VkFormat::Undefined {
        Some("unsupported DRM format 0x"@ + text::hex_fixed(frame.drm_format as nat, 8, true))
    } else if frame.planes@.len() != 1 {
        Some(
            "multi-plane import not supported (got "@ + text::decimal(frame.planes@.len())
                + " planes)"@,
        )
    } else if !importable.contains(frame.modifier) {
        Some(
            "DRM modifier 0x"@ + text::hex_fixed(frame.modifier as nat, 16, true)
                + " not importable for format 0x"@ + text::hex_fixed(
                frame.drm_format as nat,
                8,
                true,
            ),
        )
    } else {
        None
    }
}

/// Whether `modifier` is listed.
fn lists_modifier(importable: &[u64], modifier: u64) -> (r: bool)
    ensures
        r == importable@.contains(modifier),
{
    let mut i: usize = 0;
    while i < importable.len()
        invariant
            i <= importable.len(),
            forall|j: int| 0 <= j < i ==> #[trigger] importable@[j] != modifier,
        decreases importable.len() - i,
    {
        if importable[i] == modifier {
            assert(importable@[i as int] == modifier);
            return true;
        }
        i += 1;
    }
    false
}

/// The call whose outcome is awaited, and with it what exists by now: the
/// image from `Requirements` on, a copy of the frame's descriptor while
/// `Memory` is awaited, and from `Bind` on the memory, with which the driver
/// has taken that copy.
#[derive(Debug, Clone, Copy, PartialEq, Eq, Structural)]
pub enum ImportStage {
    Image,
    Requirements,
    FdTypes { type_bits: u32, size: u64 },
    Duplicate { size: u64, memory_type: u32 },
    Memory,
    Bind,
    View,
    Over,
}

/// Whether the image exists while this call is awaited.
pub open spec fn image_exists(stage: ImportStage) -> bool {
    !(stage is Image || stage is Over)
}

/// Whether the memory exists while this call is awaited.
pub open spec fn memory_exists(stage: ImportStage) -> bool {
    stage is Bind || stage is View
}

/// Whether the import itself has to close the copy of the descriptor while this
/// call is awaited.
pub open spec fn copy_held(stage: ImportStage) -> bool {
    stage is Memory
}

/// Whether the driver has taken the copy of the descriptor while this call is
/// awaited: it goes over with the memory, and is closed with it.
pub open spec fn copy_taken(stage: ImportStage) -> bool {
    memory_exists(stage)
}

/// What became of the awaited call.
#[derive(Debug)]
pub enum ImportEvent {
    Done,
    /// The memory types and the size that the image needs.
    Requirements { type_bits: u32, size: u64 },
    /// The memory types that the descriptor can be imported as.
    FdTypes { type_bits: u32 },
    Failed(String),
}

/// What to do next.
#[derive(Debug)]
pub enum ImportAction {
    CreateImage(ImportedImage),
    QueryRequirements,
    QueryFdTypes,
    /// Make a copy of the frame's descriptor.
    DuplicateFd,
    /// Allocate memory that is imported through the copy. The driver takes the
    /// copy where that succeeds, and only there.
    Allocate { size: u64, memory_type: u32 },
    Bind,
    CreateView,
    /// The frame is imported, and the driver closes the copy with the memory.
    /// Close the frame's own descriptor: the buffer is the driver's alone.
    Imported(ImportedImage),
    /// The message, after memory and image are released and the copy is closed
    /// as asked. The frame's own descriptor is open, and still the frame's to
    /// close.
    Refused { free_memory: bool, destroy_image: bool, close_copy: bool, message: String },
}

impl ImportAction {
    /// A refusal that releases exactly what exists at this stage.
    pub open spec fn refuses(&self, stage: ImportStage, message: Seq<char>) -> bool {
        &&& self matches ImportAction::Refused {
            free_memory,
            destroy_image,
            close_copy,
            message: m,
        }
        &&& free_memory == memory_exists(stage)
        &&& close_copy == copy_held(stage)
        &&& destroy_image == image_exists(stage)
        &&& m@ == message
    }
}

/// How the message for a failed call starts.
pub open spec fn import_failure(stage: ImportStage) -> Seq<char> {
    match stage {
        ImportStage::Image => "vkCreateImage (dmabuf) failed: "@,
        ImportStage::Duplicate { .. } => "dup of dmabuf fd failed: "@,
        ImportStage::Memory => "vkAllocateMemory (dmabuf) failed: "@,
        ImportStage::Bind => "vkBindImageMemory (dmabuf) failed: "@,
        ImportStage::View => "vkCreateImageView (dmabuf) failed: "@,
        _ => "vkGetMemoryFdPropertiesKHR failed: "@,
    }
}

/// Whether an event can be the outcome of the awaited call.
pub open spec fn import_expects(stage: ImportStage, event: ImportEvent) -> bool {
    match stage {
        ImportStage::Image | ImportStage::Duplicate { .. } | ImportStage::Memory
        | ImportStage::Bind | ImportStage::View => event is Done || event is Failed,
        ImportStage::Requirements => event is Requirements,
        ImportStage::FdTypes { .. } => event is FdTypes || event is Failed,
        ImportStage::Over => false,
    }
}

/// Whether taking in `event` takes `before` to `after` with this action.
/// `types` holds the property bits of the device's memory types.
pub open spec fn import_stepped(
    before: DmabufImport,
    event: ImportEvent,
    types: Seq<u32>,
    after: DmabufImport,
    action: ImportAction,
) -> bool {
    &&& after.image == before.image
    &&& match event {
        ImportEvent::Failed(reason) => {
            &&& after.stage == ImportStage::Over
            &&& action.refuses(
                before.stage,
                import_failure(before.stage) + reason@,
            )
        },
        ImportEvent::Requirements { type_bits, size } => {
            &&& after.stage == (ImportStage::FdTypes { type_bits, size })
            &&& action is QueryFdTypes
        },
        ImportEvent::FdTypes { type_bits: fd_bits } => match before.stage {
            ImportStage::FdTypes { type_bits, size } => {
                let common = type_bits & fd_bits;
                if common == 0 {
                    &&& after.stage == ImportStage::Over
                    &&& action.refuses(
                        before.stage,
                        "no compatible Vulkan memory type for dmabuf fd"@,
                    )
                } else if exists|i: int| memory_type_fits(types, common, 0, i) {
                    &&& action is DuplicateFd
                    &&& after.stage matches ImportStage::Duplicate { size: bytes, memory_type }
                    &&& bytes == size
                    &&& memory_type_fits(types, common, 0, memory_type as int)
                    &&& forall|j: int|
                        0 <= j < memory_type ==> !memory_type_fits(types, common, 0, j)
                } else {
                    &&& after.stage == ImportStage::Over
                    &&& action.refuses(
                        before.stage,
                        "no suitable memory type for dmabuf import"@,
                    )
                }
            },
            _ => true,
        },
        ImportEvent::Done => match before.stage {
            ImportStage::Image => after.stage == ImportStage::Requirements && action
                is QueryRequirements,
            ImportStage::Duplicate { size, memory_type } => after.stage == ImportStage::Memory
                && action == (ImportAction::Allocate { size, memory_type }),
            ImportStage::Memory => after.stage == ImportStage::Bind && action
                is Bind,
            ImportStage::Bind => after.stage == ImportStage::View && action
                is CreateView,
            _ => after.stage == ImportStage::Over && action
                == ImportAction::Imported(before.image),
        },
    }
}

/// The import of one captured frame.
#[derive(Debug, Clone, Copy)]
pub struct DmabufImport {
    pub image: ImportedImage,
    pub stage: ImportStage,
}

impl DmabufImport {
    /// Starts an import, unless the frame cannot be imported. `fd_import` says
    /// whether the device can import descriptors, and `importable` holds the
    /// modifiers that it reports as importable for the frame's format.
    pub fn begin(frame: &DmabufFrame, fd_import: bool, importable: &[u64]) -> (r: Result<
        (DmabufImport, ImportAction),
        String,
    >)
        ensures
            match r {
                Ok((import, action)) => {
                    &&& import_refusal(*frame, fd_import, importable@) is None
                    &&& import.stage == ImportStage::Image
                    &&& action == ImportAction::CreateImage(import.image)
                    &&& import.image == (ImportedImage {
                        format: vk_format_of(frame.drm_format),
                        width: frame.width,
                        height: frame.height,
                        modifier: frame.modifier,
                        fd: frame.planes@[0].fd,
                        stride: frame.planes@[0].stride,
                        offset: frame.planes@[0].offset,
                        opaque_alpha: frame.drm_format == DRM_FORMAT_XRGB8888
                            || frame.drm_format == DRM_FORMAT_XBGR8888,
                    })
                },
                Err(message) => import_refusal(*frame, fd_import, importable@) == Some(message@),
            },
    {
        if !fd_import {
            return Err(
                "VK_KHR_external_memory_fd not enabled — cannot import dmabuf".to_string(),
            );
        }
        if !frame.frame_ready_for_import() {
            return Err("dmabuf frame not ready (no planes)".to_string());
        }
        let format = drm_to_vk_format(frame.drm_format);
        if format == VkFormat::Undefined {
            let mut message = "unsupported DRM format 0x".to_string();
            text::push_hex(&mut message, frame.drm_format as u64, 8, true);
            return Err(message);
        }
        if frame.planes.len() != 1 {
            let mut message = "multi-plane import not supported (got ".to_string();
            text::push_decimal(&mut message, frame.planes.len() as u128);
            message.append(" planes)");
            return Err(message);
        }
        if !lists_modifier(importable, frame.modifier) {
            let mut message = "DRM modifier 0x".to_string();
            text::push_hex(&mut message, frame.modifier, 16, true);
            message.append(" not importable for format 0x");
            text::push_hex(&mut message, frame.drm_format as u64, 8, true);
            return Err(message);
        }
        let plane = frame.planes[0];
        let image = ImportedImage {
            format,
            width: frame.width,
            height: frame.height,
            modifier: frame.modifier,
            fd: plane.fd,
            stride: plane.stride,
            offset: plane.offset,
            opaque_alpha: frame.opaque_alpha(),
        };
        Ok(
            (
                DmabufImport { image, stage: ImportStage::Image },
                ImportAction::CreateImage(image),
            ),
        )
    }

    /// Takes in the outcome of the awaited call. `types` holds the property
    /// bits of the device's memory types. On every refusal, what exists by then
    /// is released.
    pub fn step(&mut self, event: ImportEvent, types: &[u32]) -> (action: ImportAction)
        requires
            import_expects(old(self).stage, event),
            types.len() <= 32,
        ensures
            import_stepped(*old(self), event, types@, *final(self), action),
    {
        let stage = self.stage;
        let free_memory = matches!(stage, ImportStage::Bind | ImportStage::View);
        let destroy_image = !matches!(stage, ImportStage::Image | ImportStage::Over);
        let close_copy = matches!(stage, ImportStage::Memory);
        match event {
            ImportEvent::Failed(reason) => {
                let mut message = match stage {
                    ImportStage::Image => "vkCreateImage (dmabuf) failed: ".to_string(),
                    ImportStage::Duplicate { .. } => "dup of dmabuf fd failed: ".to_string(),
                    ImportStage::Memory => "vkAllocateMemory (dmabuf) failed: ".to_string(),
                    ImportStage::Bind => "vkBindImageMemory (dmabuf) failed: ".to_string(),
                    ImportStage::View => "vkCreateImageView (dmabuf) failed: ".to_string(),
                    _ => "vkGetMemoryFdPropertiesKHR failed: ".to_string(),
                };
                message.append(reason.as_str());
                self.stage = ImportStage::Over;
                ImportAction::Refused { free_memory, destroy_image, close_copy, message }
            },
            ImportEvent::Requirements { type_bits, size } => {
                self.stage = ImportStage::FdTypes { type_bits, size };
                ImportAction::QueryFdTypes
            },
            ImportEvent::FdTypes { type_bits: fd_bits } => {
                let (type_bits, size) = match stage {
                    ImportStage::FdTypes { type_bits, size } => (type_bits, size),
                    _ => (0, 0),
                };
                let common: u32 = type_bits & fd_bits;
                if common == 0 {
                    self.stage = ImportStage::Over;
                    return ImportAction::Refused {
                        free_memory,
                        destroy_image,
                        close_copy,
                        message: "no compatible Vulkan memory type for dmabuf fd".to_string(),
                    };
                }
                match choose_memory_type(types, common, 0) {
                    Some(memory_type) => {
                        self.stage = ImportStage::Duplicate { size, memory_type };
                        ImportAction::DuplicateFd
                    },
                    None => {
                        self.stage = ImportStage::Over;
                        ImportAction::Refused {
                            free_memory,
                            destroy_image,
                            close_copy,
                            message: "no suitable memory type for dmabuf import".to_string(),
                        }
                    },
                }
            },
            ImportEvent::Done => match stage {
                ImportStage::Image => {
                    self.stage = ImportStage::Requirements;
                    ImportAction::QueryRequirements
                },
                ImportStage::Duplicate { size, memory_type } => {
                    self.stage = ImportStage::Memory;
                    ImportAction::Allocate { size, memory_type }
                },
                ImportStage::Memory => {
                    self.stage = ImportStage::Bind;
                    ImportAction::Bind
                },
                ImportStage::Bind => {
                    self.stage = ImportStage::View;
                    ImportAction::CreateView
                },
                _ => {
                    self.stage = ImportStage::Over;
                    ImportAction::Imported(self.image)
                },
            },
        }
    }
}

// ---------------------------------------------------------------------------
// laws
// ---------------------------------------------------------------------------

/// The objects of an import that exist.
pub struct ImportOwned {
    pub image: bool,
    pub memory: bool,
    pub view: bool,
}

/// What exists once `event` has come in and `action` has released what it asks
/// to release.
pub open spec fn owned_after(
    owned: ImportOwned,
    stage: ImportStage,
    event: ImportEvent,
    action: ImportAction,
) -> ImportOwned {
    let made = ImportOwned {
        image: owned.image || (stage is Image && event is Done),
        memory: owned.memory || (stage is Memory && event is Done),
        view: owned.view || (stage is View && event is Done),
    };
    match action {
        ImportAction::Refused { free_memory, destroy_image, .. } => ImportOwned {
            image: made.image && !destroy_image,
            memory: made.memory && !free_memory,
            view: made.view,
        },
        _ => made,
    }
}

/// What exists while a call is awaited.
pub open spec fn owned_at(stage: ImportStage) -> ImportOwned {
    ImportOwned { image: image_exists(stage), memory: memory_exists(stage), view: false }
}

/// An import that is refused leaves nothing behind; one that succeeds leaves
/// its image, memory and view; and at every stage between exactly the objects
/// of that stage exist.
pub proof fn law_imports_leak_nothing(
    before: DmabufImport,
    event: ImportEvent,
    types: Seq<u32>,
    after: DmabufImport,
    action: ImportAction,
)
    requires
        import_expects(before.stage, event),
        import_stepped(before, event, types, after, action),
    ensures
        ({
            let owned = owned_after(owned_at(before.stage), before.stage, event, action);
            match action {
                ImportAction::Refused { .. } => owned == (ImportOwned {
                    image: false,
                    memory: false,
                    view: false,
                }),
                ImportAction::Imported(_) => owned == (ImportOwned {
                    image: true,
                    memory: true,
                    view: true,
                }),
                _ => owned == owned_at(after.stage),
            }
        }),
{
}

/// Where a descriptor stands. One that is closed without being open is
/// misclosed.
pub enum FdState {
    Unopened,
    Open { closer: FdCloser },
    Closed,
    Misclosed,
}

/// Who is to close a descriptor.
pub enum FdCloser {
    Frame,
    Import,
    Driver,
}

/// A descriptor once it has been closed.
pub open spec fn closed(fd: FdState) -> FdState {
    match fd {
        FdState::Open { .. } => FdState::Closed,
        _ => FdState::Misclosed,
    }
}

/// The descriptors of an import: the frame's own and the copy of it.
pub struct ImportFds {
    pub own: FdState,
    pub copy: FdState,
}

/// The descriptors while a call is awaited.
pub open spec fn fds_at(stage: ImportStage) -> ImportFds {
    ImportFds {
        own: FdState::Open { closer: FdCloser::Frame },
        copy: if copy_held(stage) {
            FdState::Open { closer: FdCloser::Import }
        } else if copy_taken(stage) {
            FdState::Open { closer: FdCloser::Driver }
        } else {
            FdState::Unopened
        },
    }
}

/// The descriptors once `event` has come in and `action` has been carried out.
/// Memory that is freed takes the copy that went with it along.
pub open spec fn fds_after(
    fds: ImportFds,
    stage: ImportStage,
    event: ImportEvent,
    action: ImportAction,
) -> ImportFds {
    let copy = if stage is Duplicate && event is Done {
        FdState::Open { closer: FdCloser::Import }
    } else if stage is Memory && event is Done {
        FdState::Open { closer: FdCloser::Driver }
    } else {
        fds.copy
    };
    match action {
        ImportAction::Refused { free_memory, close_copy, .. } => {
            let copy = if close_copy {
                closed(copy)
            } else {
                copy
            };
            ImportFds {
                own: fds.own,
                copy: if free_memory {
                    closed(copy)
                } else {
                    copy
                },
            }
        },
        ImportAction::Imported(_) => ImportFds { own: closed(fds.own), copy },
        _ => ImportFds { own: fds.own, copy },
    }
}

/// Every descriptor is closed once on every path. Once a frame is imported its
/// own descriptor is closed, and the driver alone holds the buffer and closes
/// the copy. Where the import is refused, whenever that is, the frame's own
/// descriptor is open and the frame's to close, and a copy that was made is
/// closed.
pub proof fn law_descriptors_are_closed_once(
    before: DmabufImport,
    event: ImportEvent,
    types: Seq<u32>,
    after: DmabufImport,
    action: ImportAction,
)
    requires
        import_expects(before.stage, event),
        import_stepped(before, event, types, after, action),
    ensures
        ({
            let fds = fds_after(fds_at(before.stage), before.stage, event, action);
            match action {
                ImportAction::Refused { .. } => {
                    &&& fds.own == (FdState::Open { closer: FdCloser::Frame })
                    &&& fds.copy == if copy_held(before.stage) || copy_taken(before.stage) {
                        FdState::Closed
                    } else {
                        FdState::Unopened
                    }
                },
                ImportAction::Imported(_) => {
                    &&& fds.own == FdState::Closed
                    &&& fds.copy == (FdState::Open { closer: FdCloser::Driver })
                },
                _ => fds == fds_at(after.stage),
            }
        }),
{
}

/// A frame is imported under the format its DRM format stands for, and never
/// under the undefined one; its modifier is one that the device can import.
pub proof fn law_imported_formats_are_known(
    frame: DmabufFrame,
    fd_import: bool,
    importable: Seq<u64>,
)
    requires
        import_refusal(frame, fd_import, importable) is None,
    ensures
        vk_format_of(frame.drm_format) != VkFormat::Undefined,
        frame.planes@.len() == 1,
        frame.width > 0,
        frame.height > 0,
        importable.contains(frame.modifier),
{
}

/// A frame that the zero-copy client captured is not refused, where the device
/// can import, the buffer has a size, its format is known and its modifier is
/// importable.
pub proof fn law_captured_frames_are_accepted(
    frame: DmabufFrame,
    buffer: screen_dmabuf::Allocated,
    fd: i32,
    importable: Seq<u64>,
)
    requires
        screen_dmabuf::is_frame(frame, buffer, fd),
        buffer.width > 0,
        buffer.height > 0,
        vk_format_of(buffer.format) != VkFormat::Undefined,
        importable.contains(screen_dmabuf::effective_modifier(buffer.modifier)),
    ensures
        import_refusal(frame, true, importable) is None,
{
    screen_dmabuf::law_captured_frames_can_be_imported(frame, buffer, fd);
}

/// Zero-copy extensions are switched on only where the driver lists them.
pub proof fn law_only_listed_extensions_are_enabled(
    wayland: bool,
    available: Seq<String>,
    extension: Extension,
)
    requires
        device_extension_list(
            wayland,
            can_import(available),
            lists(available, Extension::ExtImageDrmFormatModifier),
        ).contains(extension),
    ensures
        extension == Extension::KhrSwapchain || lists(available, extension),
{
}

/// The DRM formats `XR24` and `AR24` are blue first, `XB24` and `AB24` red
/// first; no other is handled.
pub proof fn law_formats_by_their_letters(drm_format: u32, format: VkFormat)
    requires
        call_ensures(drm_to_vk_format, (drm_format,), format),
    ensures
        format is B8G8R8A8Unorm <==> drm_format == 0x3432_5258 || drm_format == 0x3432_5241,
        format is R8G8B8A8Unorm <==> drm_format == 0x3432_4258 || drm_format == 0x3432_4241,
{
}

/// The chosen memory type is allowed, has every property that is required, and
/// is the first that does; without one there is none.
pub proof fn law_memory_types_are_chosen(
    types: &[u32],
    compatible_bits: u32,
    required_flags: u32,
    r: Option<u32>,
    j: int,
)
    requires
        call_ensures(choose_memory_type, (types, compatible_bits, required_flags), r),
    ensures
        r matches Some(i) ==> {
            &&& i < types@.len()
            &&& compatible_bits & (1u32 << i) != 0
            &&& types@[i as int] & required_flags == required_flags
        },
        0 <= j < types@.len() && (r is None || j < r->0) ==> compatible_bits & (1u32 << (
        j as u32)) == 0 || types@[j] & required_flags != required_flags,
{
    match r {
        Some(i) => {
            if 0 <= j < i {
                assert(!memory_type_fits(types@, compatible_bits, required_flags, j));
            }
        },
        None => {
            assert(!memory_type_fits(types@, compatible_bits, required_flags, j));
        },
    }
}

/// The device that is taken can draw, and present where that matters. One that
/// is not discrete is taken only where no discrete one could be, one that is
/// neither discrete nor integrated only where none of those could be, and so on
/// down to software; of several of a kind the first is taken.
pub proof fn law_best_device_is_taken(devices: &[DeviceInfo], r: Result<usize, String>, j: int)
    requires
        call_ensures(pick_physical_device, (devices,), r),
        0 <= j < devices@.len(),
        devices@[j].graphics_family is Some,
        devices@[j].presentable != Some(false),
    ensures
        r is Ok,
        r->Ok_0 < devices@.len(),
        ({
            let taken = devices@[r->Ok_0 as int];
            let other = devices@[j].kind;
            &&& taken.graphics_family is Some
            &&& taken.presentable != Some(false)
            &&& other is Discrete ==> taken.kind is Discrete
            &&& other is Integrated ==> taken.kind is Discrete || taken.kind is Integrated
            &&& other is Virtual ==> taken.kind is Discrete || taken.kind is Integrated
                || taken.kind is Virtual
            &&& other is Cpu ==> taken.kind !is Other
            &&& other == taken.kind ==> r->Ok_0 <= j
        }),
{
    assert(devices@[j].usable());
    match r {
        Ok(i) => {
            assert(is_best(devices@, i as int));
        },
        Err(message) => {
            assert(message@ == no_device());
            assert(!devices@[j].usable());
        },
    }
}

/// The family that is taken draws, and is the first that does.
pub proof fn law_first_drawing_family_is_taken(families: &[u32], r: Option<u32>, j: int)
    requires
        call_ensures(graphics_family, (families,), r),
    ensures
        r matches Some(i) ==> i < families@.len() && families@[i as int] & 1 == 1,
        0 <= j < families@.len() && families@[j] & 1 == 1 ==> r is Some && r->0 <= j,
{
    if let Some(i) = r {
        if 0 <= j < i {
            assert(families@.take(i as int)[j] == families@[j]);
        }
    }
}

/// A surface needs the two surface extensions of the instance, and nothing else
/// is asked of it.
pub proof fn law_instance_extensions(wayland: bool, extensions: Vec<Extension>)
    requires
        call_ensures(instance_extensions, (wayland,), extensions),
    ensures
        !wayland ==> extensions@.len() == 0,
        wayland ==> extensions@ == seq![Extension::KhrSurface, Extension::KhrWaylandSurface],
{
}

/// Every extension under the name that drivers list it by.
pub proof fn law_extension_names(extension: Extension, name: &'static str)
    requires
        call_ensures(Extension::name, (extension,), name),
    ensures
        extension is KhrSurface ==> name@ == "VK_KHR_surface"@,
        extension is KhrWaylandSurface ==> name@ == "VK_KHR_wayland_surface"@,
        extension is KhrSwapchain ==> name@ == "VK_KHR_swapchain"@,
        extension is KhrExternalMemoryFd ==> name@ == "VK_KHR_external_memory_fd"@,
        extension is ExtExternalMemoryDmaBuf ==> name@ == "VK_EXT_external_memory_dma_buf"@,
        extension is ExtImageDrmFormatModifier ==> name@ == "VK_EXT_image_drm_format_modifier"@,
{
}

/// Whether a driver lists an extension of this name.
pub open spec fn names(available: Seq<String>, name: Seq<char>) -> bool {
    exists|i: int| 0 <= i < available.len() && #[trigger] available[i]@ == name
}

/// The calls come in their order: loader, instance, surface where there is one,
/// devices. A call that fails ends it, with its reason at the end of the
/// message.
pub proof fn law_bring_up_goes_call_by_call(
    init: &mut VulkanInit,
    event: InitEvent,
    action: InitAction,
)
    requires
        call_ensures(VulkanInit::step, (init, event), action),
        event is Done || event is Failed,
    ensures
        final(init).wayland == old(init).wayland,
        event is Failed ==> final(init).stage is Over && action is Refused,
        event is Done && old(init).stage is Loader ==> {
            &&& final(init).stage is Instance
            &&& action is CreateInstance
            &&& action->CreateInstance_extensions@.len() == if old(init).wayland {
                2int
            } else {
                0
            }
        },
        event is Done && old(init).stage is Instance && old(init).wayland ==> final(init).stage
            is Surface && action is CreateSurface,
        event is Done && old(init).stage is Instance && !old(init).wayland ==> final(init).stage
            is Devices && action is ListDevices,
        event is Done && old(init).stage is Surface ==> final(init).stage is Devices && action
            is ListDevices,
        event is Done && old(init).stage is Device ==> final(init).stage is Over && action
            is Ready,
{
}

/// What is brought up is the device that was taken, with its graphics family
/// and name. It can import DMA-BUFs where both extensions for that are listed
/// and has modifiers where that one is; the extensions that are switched on are
/// these and, with a surface, the swapchain.
pub proof fn law_device_is_brought_up(
    listed: &mut VulkanInit,
    devices: Vec<DeviceInfo>,
    list: InitAction,
    chosen: &mut VulkanInit,
    available: Vec<String>,
    create: InitAction,
    created: &mut VulkanInit,
    ready: InitAction,
    extension: Extension,
)
    requires
        old(listed).stage is Devices,
        call_ensures(VulkanInit::step, (listed, InitEvent::Devices(devices)), list),
        list is ListExtensions,
        *old(chosen) == *final(listed),
        call_ensures(VulkanInit::step, (chosen, InitEvent::Extensions(available)), create),
        *old(created) == *final(chosen),
        call_ensures(VulkanInit::step, (created, InitEvent::Done), ready),
    ensures
        ready is Ready,
        ready->Ready_0.device < devices@.len(),
        list->ListExtensions_device == ready->Ready_0.device,
        devices@[ready->Ready_0.device as int].graphics_family == Some(
            ready->Ready_0.graphics_queue_family,
        ),
        devices@[ready->Ready_0.device as int].presentable != Some(false),
        ready->Ready_0.device_name@ == devices@[ready->Ready_0.device as int].name@,
        ready->Ready_0.supports_dma_buf_import <==> names(
            available@,
            "VK_KHR_external_memory_fd"@,
        ) && names(available@, "VK_EXT_external_memory_dma_buf"@),
        ready->Ready_0.supports_drm_format_modifier <==> names(
            available@,
            "VK_EXT_image_drm_format_modifier"@,
        ),
        create is CreateDevice,
        create->CreateDevice_device == ready->Ready_0.device,
        create->CreateDevice_family == ready->Ready_0.graphics_queue_family,
        create->CreateDevice_extensions@.contains(extension) <==> match extension {
            Extension::KhrSwapchain => old(listed).wayland,
            Extension::KhrExternalMemoryFd => ready->Ready_0.supports_dma_buf_import,
            Extension::ExtExternalMemoryDmaBuf => ready->Ready_0.supports_dma_buf_import,
            Extension::ExtImageDrmFormatModifier => ready->Ready_0.supports_drm_format_modifier,
            _ => false,
        },
{
    let wayland = old(listed).wayland;
    let dma_buf = can_import(available@);
    let modifier = lists(available@, Extension::ExtImageDrmFormatModifier);
    let extensions = device_extension_list(wayland, dma_buf, modifier);
    assert(names(available@, "VK_KHR_external_memory_fd"@) == lists(
        available@,
        Extension::KhrExternalMemoryFd,
    ));
    assert(names(available@, "VK_EXT_external_memory_dma_buf"@) == lists(
        available@,
        Extension::ExtExternalMemoryDmaBuf,
    ));
    assert(names(available@, "VK_EXT_image_drm_format_modifier"@) == modifier);
    assert(create->CreateDevice_extensions@ == extensions);
    if wayland {
        assert(extensions[0] == Extension::KhrSwapchain);
    }
    let first: int = if wayland {
        1
    } else {
        0
    };
    if dma_buf {
        assert(extensions[first] == Extension::KhrExternalMemoryFd);
        assert(extensions[first + 1] == Extension::ExtExternalMemoryDmaBuf);
    }
    if modifier {
        assert(extensions.last() == Extension::ExtImageDrmFormatModifier);
    }
}

/// A frame is imported exactly where descriptors can be, it has one plane, a
/// size and a modifier that the device can import, and one of the four formats;
/// the image is then that of the frame, with the plane's descriptor, row length
/// and offset.
pub proof fn law_imports_begin_with_the_frame(
    frame: &DmabufFrame,
    fd_import: bool,
    importable: &[u64],
    r: Result<(DmabufImport, ImportAction), String>,
)
    requires
        call_ensures(DmabufImport::begin, (frame, fd_import, importable), r),
    ensures
        r is Ok <==> fd_import && frame.planes@.len() == 1 && frame.width > 0 && frame.height > 0
            && frame.modifier != 0xff_ffff_ffff_ffff && importable@.contains(frame.modifier) && (
        frame.drm_format == 0x3432_5258 || frame.drm_format == 0x3432_5241 || frame.drm_format
            == 0x3432_4258 || frame.drm_format == 0x3432_4241),
        r matches Ok((import, action)) ==> {
            &&& action == ImportAction::CreateImage(import.image)
            &&& import.stage is Image
            &&& import.image.width == frame.width
            &&& import.image.height == frame.height
            &&& import.image.modifier == frame.modifier
            &&& import.image.fd == frame.planes@[0].fd
            &&& import.image.stride == frame.planes@[0].stride
            &&& import.image.offset == frame.planes@[0].offset
            &&& import.image.format is B8G8R8A8Unorm <==> frame.drm_format == 0x3432_5258
                || frame.drm_format == 0x3432_5241
            &&& import.image.format is R8G8B8A8Unorm <==> frame.drm_format == 0x3432_4258
                || frame.drm_format == 0x3432_4241
            &&& import.image.opaque_alpha <==> frame.drm_format == 0x3432_5258
                || frame.drm_format == 0x3432_4258
        },
{
}

/// The memory of an import has the size that the image needs and is of the
/// first type that both the image and the descriptor allow; where they allow
/// none in common, the import is refused and the image destroyed.
pub proof fn law_imports_take_common_memory(
    required: &mut DmabufImport,
    type_bits: u32,
    size: u64,
    query: ImportAction,
    typed: &mut DmabufImport,
    fd_bits: u32,
    duplicate: ImportAction,
    copied: &mut DmabufImport,
    allocate: ImportAction,
    types: &[u32],
    j: int,
)
    requires
        old(required).stage is Requirements,
        call_ensures(
            DmabufImport::step,
            (required, ImportEvent::Requirements { type_bits, size }, types),
            query,
        ),
        *old(typed) == *final(required),
        call_ensures(
            DmabufImport::step,
            (typed, ImportEvent::FdTypes { type_bits: fd_bits }, types),
            duplicate,
        ),
        *old(copied) == *final(typed),
        duplicate is DuplicateFd ==> call_ensures(
            DmabufImport::step,
            (copied, ImportEvent::Done, types),
            allocate,
        ),
        types@.len() <= 32,
    ensures
        query is QueryFdTypes,
        type_bits & fd_bits == 0 ==> duplicate is Refused,
        duplicate is Refused ==> duplicate->Refused_destroy_image
            && !duplicate->Refused_free_memory && !duplicate->Refused_close_copy,
        duplicate is Refused || duplicate is DuplicateFd,
        duplicate is Refused && 0 <= j < types@.len() ==> (type_bits & fd_bits) & (1u32 << (
        j as u32)) == 0,
        duplicate is DuplicateFd ==> {
            &&& allocate is Allocate
            &&& allocate->Allocate_size == size
            &&& allocate->Allocate_memory_type < types@.len()
            &&& (type_bits & fd_bits) & (1u32 << allocate->Allocate_memory_type) != 0
            &&& 0 <= j < allocate->Allocate_memory_type ==> (type_bits & fd_bits) & (1u32 << (
            j as u32)) == 0
        },
{
    let common = type_bits & fd_bits;
    if 0 <= j < types@.len() {
        let own = types@[j];
        assert(own & 0 == 0) by (bit_vector);
        let bit = 1u32 << (j as u32);
        if duplicate is Refused && common == 0 {
            assert(common & bit == 0) by (bit_vector)
                requires
                    common == 0,
            ;
        }
        assert(memory_type_fits(types@, common, 0, j) <==> common & (1u32 << (j as u32)) != 0);
    }
}

/// An import that succeeds goes from image to memory to view, and ends with the
/// image that it began with.
pub proof fn law_imports_end_with_their_image(
    import: &mut DmabufImport,
    event: ImportEvent,
    types: &[u32],
    action: ImportAction,
)
    requires
        call_ensures(DmabufImport::step, (import, event, types), action),
        old(import).stage !is Over,
        event is Done || event is Failed,
    ensures
        final(import).image == old(import).image,
        event is Failed ==> action is Refused && final(import).stage is Over,
        event is Done && old(import).stage is Image ==> action is QueryRequirements && final(
            import).stage is Requirements,
        event is Done && old(import).stage is Memory ==> action is Bind && final(import).stage
            is Bind,
        event is Done && old(import).stage is Bind ==> action is CreateView && final(import).stage
            is View,
        event is Done && old(import).stage is View ==> action == ImportAction::Imported(
            old(import).image,
        ),
        action matches ImportAction::Refused { free_memory, destroy_image, close_copy, .. } ==> {
            &&& free_memory <==> old(import).stage is Bind || old(import).stage is View
            &&& destroy_image <==> old(import).stage !is Image
            &&& close_copy <==> old(import).stage is Memory
        },
{
}

/// Captured frames need no copy where import and modifiers are both there.
pub proof fn law_zero_copy_needs_both(context: &VulkanContext, r: bool)
    requires
        call_ensures(VulkanContext::supports_zero_copy_capture, (context,), r),
    ensures
        r <==> context.supports_dma_buf_import && context.supports_drm_format_modifier,
{
}

/// The message of a call that failed while the device was brought up names the
/// call and ends with the reason, and nothing is destroyed for it; without any
/// device the surface and the instance are.
pub proof fn law_failed_bring_ups_name_their_call(
    init: &mut VulkanInit,
    reason: String,
    action: InitAction,
    empty: &mut VulkanInit,
    devices: Vec<DeviceInfo>,
    none: InitAction,
)
    requires
        call_ensures(VulkanInit::step, (init, InitEvent::Failed(reason)), action),
        old(init).stage !is Over,
        call_ensures(VulkanInit::step, (empty, InitEvent::Devices(devices)), none),
        devices@.len() == 0,
    ensures
        action is Refused,
        !action->Refused_destroy_surface,
        !action->Refused_destroy_instance,
        action->Refused_message@ == match old(init).stage {
            InitStage::Loader => "no Vulkan loader found on this system: "@ + reason@,
            InitStage::Instance => "vkCreateInstance failed: "@ + reason@,
            InitStage::Surface => "vkCreateWaylandSurfaceKHR failed: "@ + reason@,
            InitStage::Devices => "failed to enumerate physical devices: "@ + reason@,
            InitStage::Extensions { .. } => "failed to enumerate device extensions: "@ + reason@,
            _ => "vkCreateDevice failed: "@ + reason@,
        },
        none is Refused,
        none->Refused_destroy_surface == old(empty).wayland,
        none->Refused_destroy_instance,
        none->Refused_message@ == "no Vulkan-capable physical devices found"@,
{
}

/// The message of an import that failed names the call and ends with the
/// reason.
pub proof fn law_failed_imports_name_their_call(
    import: &mut DmabufImport,
    reason: String,
    types: &[u32],
    action: ImportAction,
)
    requires
        call_ensures(DmabufImport::step, (import, ImportEvent::Failed(reason), types), action),
        old(import).stage !is Over,
    ensures
        action is Refused,
        action->Refused_message@ == match old(import).stage {
            ImportStage::Image => "vkCreateImage (dmabuf) failed: "@ + reason@,
            ImportStage::Duplicate { .. } => "dup of dmabuf fd failed: "@ + reason@,
            ImportStage::Memory => "vkAllocateMemory (dmabuf) failed: "@ + reason@,
            ImportStage::Bind => "vkBindImageMemory (dmabuf) failed: "@ + reason@,
            ImportStage::View => "vkCreateImageView (dmabuf) failed: "@ + reason@,
            _ => "vkGetMemoryFdPropertiesKHR failed: "@ + reason@,
        },
{
}

/// Why a frame is not imported: the first of the five things that it needs.
pub proof fn law_refused_frames_say_why(
    frame: &DmabufFrame,
    fd_import: bool,
    importable: &[u64],
    r: Result<(DmabufImport, ImportAction), String>,
)
    requires
        call_ensures(DmabufImport::begin, (frame, fd_import, importable), r),
        r is Err,
    ensures
        ({
            let ready = frame.planes@.len() > 0 && frame.width > 0 && frame.height > 0
                && frame.modifier != 0xff_ffff_ffff_ffff;
            let known = frame.drm_format == 0x3432_5258 || frame.drm_format == 0x3432_5241
                || frame.drm_format == 0x3432_4258 || frame.drm_format == 0x3432_4241;
            r->Err_0@ == if !fd_import {
                "VK_KHR_external_memory_fd not enabled — cannot import dmabuf"@
            } else if !ready {
                "dmabuf frame not ready (no planes)"@
            } else if !known {
                "unsupported DRM format 0x"@ + text::hex_fixed(frame.drm_format as nat, 8, true)
            } else if frame.planes@.len() > 1 {
                "multi-plane import not supported (got "@ + text::decimal(frame.planes@.len())
                    + " planes)"@
            } else {
                "DRM modifier 0x"@ + text::hex_fixed(frame.modifier as nat, 16, true)
                    + " not importable for format 0x"@ + text::hex_fixed(
                    frame.drm_format as nat,
                    8,
                    true,
                )
            }
        }),
{
}

/// Bringing a device up begins with the loader.
pub proof fn law_bring_up_begins_with_the_loader(wayland: bool, r: (VulkanInit, InitAction))
    requires
        call_ensures(VulkanInit::begin, (wayland,), r),
    ensures
        r.0.wayland == wayland,
        r.0.stage is Loader,
        r.1 is LoadLoader,
{
}

} // verus!
