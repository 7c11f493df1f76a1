//! Captured frames and the billboards they enter the presence layer as: a
//! frame needs no depth model, it becomes one camera-facing splat.

pub mod screen_dmabuf;
pub mod screen_wlr;
pub mod webcam_v4l2;

use crate::actors::gpu_layout::{AnimatedSplatGpu, FLAG_ACTIVE, FLAG_TEXTURED_BILLBOARD};
use crate::named_map;
use crate::named_map::NamedMap;
use crate::single;
use crate::single::{ONE, ZERO};
use vstd::prelude::*;

verus! {

/// One frame in RGBA, eight bits each, from the top left.
#[derive(Debug)]
pub struct IngressFrame {
    pub width: u32,
    pub height: u32,
    pub rgba: Vec<u8>,
}

/// One plane of a DMA-BUF, by the number of its file descriptor.
#[derive(Debug, Clone, Copy, PartialEq, Eq, Structural)]
pub struct DmabufPlane {
    pub fd: i32,
    pub stride: u32,
    pub offset: u32,
    pub plane_index: u32,
}

/// A captured frame as a DMA-BUF.
#[derive(Debug)]
pub struct DmabufFrame {
    pub width: u32,
    pub height: u32,
    pub drm_format: u32,
    pub modifier: u64,
    pub planes: Vec<DmabufPlane>,
}

/// `X`, `R`, `2`, `4`, least significant byte first.
pub const DRM_FORMAT_XRGB8888: u32 = 0x34325258;

/// `A`, `R`, `2`, `4`.
pub const DRM_FORMAT_ARGB8888: u32 = 0x34325241;

/// `X`, `B`, `2`, `4`.
pub const DRM_FORMAT_XBGR8888: u32 = 0x34324258;

/// `A`, `B`, `2`, `4`.
pub const DRM_FORMAT_ABGR8888: u32 = 0x34324241;

/// The modifier that stands for none.
pub const DRM_FORMAT_MOD_INVALID: u64 = 0x00FFFFFFFFFFFFFF;

impl DmabufFrame {
    /// Whether the format has no alpha to speak of, so that a shader takes the
    /// pixels as opaque.
    pub fn opaque_alpha(&self) -> (opaque: bool)
        ensures
            opaque <==> self.drm_format == DRM_FORMAT_XRGB8888 || self.drm_format
                == DRM_FORMAT_XBGR8888,
    {
        self.drm_format == DRM_FORMAT_XRGB8888 || self.drm_format == DRM_FORMAT_XBGR8888
    }

    /// Whether there is something to import: a plane, a size and a modifier.
    pub open spec fn ready(&self) -> bool {
        self.planes@.len() > 0 && self.width > 0 && self.height > 0 && self.modifier
            != DRM_FORMAT_MOD_INVALID
    }

    pub fn frame_ready_for_import(&self) -> (ready: bool)
        ensures
            ready == self.ready(),
    {
        self.planes.len() > 0 && self.width > 0 && self.height > 0 && self.modifier
            != DRM_FORMAT_MOD_INVALID
    }
}

/// A capture backend. `next_frame` gives the latest frame where one is ready,
/// and `None` without waiting where none is.
pub trait FrameSource {
    fn next_frame(&mut self) -> Result<Option<IngressFrame>, String>;
}

/// The density that the projection shader reads out of a padding word.
pub open spec fn density_of(padding: u32) -> u32 {
    padding & 0xff
}

/// The atlas layer that the eviction shader reads out of a padding word.
pub open spec fn layer_of(padding: u32) -> u32 {
    (padding >> 16) & 0xffff
}

/// Packs a density and an atlas layer into a padding word: the one in its low
/// byte, the other in its high half, nothing between.
pub fn pack_padding(density: u8, texture_layer: u16) -> (padding: u32)
    ensures
        padding == density + 0x1_0000 * texture_layer,
        density_of(padding) == density,
        layer_of(padding) == texture_layer,
{
    let padding: u32 = (density as u32) | ((texture_layer as u32) << 16);
    assert(padding == density + 0x1_0000 * texture_layer && padding & 0xff == density && (padding
        >> 16) & 0xffff == texture_layer) by (bit_vector)
        requires
            padding == (density as u32) | ((texture_layer as u32) << 16),
    ;
    padding
}

/// Width over height of a frame; a frame without rows counts as one row high.
pub open spec fn aspect_bits(width: u32, height: u32) -> u32 {
    single::quotient_bits(
        width as nat,
        if height == 0 {
            1
        } else {
            height as nat
        },
    )
}

/// Whether `gpu` is the billboard of a frame of this size.
pub open spec fn is_billboard(
    gpu: AnimatedSplatGpu,
    width: u32,
    height: u32,
    position: Seq<u32>,
    rotation: Seq<u32>,
    physical_width_m: u32,
    owner_id: u32,
    current_frame: u32,
    texture_layer: u16,
) -> bool {
    &&& gpu.position_and_confidence@ == position.push(physical_width_m)
    &&& gpu.rotation@ == rotation
    &&& gpu.color@ == seq![ONE, ONE, ONE, aspect_bits(width, height)]
    &&& gpu.joint_ids@ == seq![0u32, 0u32, 0u32, 0u32]
    &&& gpu.weights@ == seq![ONE, ZERO, ZERO, ZERO]
    &&& gpu.owner_id == owner_id
    &&& gpu.last_visible_frame == current_frame
    &&& gpu.flags == FLAG_ACTIVE | FLAG_TEXTURED_BILLBOARD
    &&& gpu.padding == 255 + 0x1_0000 * texture_layer
}

/// Makes one frame a billboard. `position`, `rotation` and `physical_width_m`
/// place it in the world; the aspect ratio comes from the frame.
pub fn frame_to_billboard(
    frame: &IngressFrame,
    position: [u32; 3],
    rotation: [u32; 4],
    physical_width_m: u32,
    owner_id: u32,
    current_frame: u32,
    texture_layer: u16,
) -> (gpu: AnimatedSplatGpu)
    ensures
        is_billboard(
            gpu,
            frame.width,
            frame.height,
            position@,
            rotation@,
            physical_width_m,
            owner_id,
            current_frame,
            texture_layer,
        ),
{
    let height: u32 = if frame.height == 0 {
        1
    } else {
        frame.height
    };
    let aspect_ratio: u32 = single::quotient(frame.width, height);
    let gpu = AnimatedSplatGpu {
        position_and_confidence: [position[0], position[1], position[2], physical_width_m],
        rotation,
        color: [ONE, ONE, ONE, aspect_ratio],
        joint_ids: [0, 0, 0, 0],
        weights: [ONE, ZERO, ZERO, ZERO],
        owner_id,
        last_visible_frame: current_frame,
        flags: FLAG_ACTIVE | FLAG_TEXTURED_BILLBOARD,
        padding: pack_padding(255, texture_layer),
    };
    assert(gpu.position_and_confidence@ =~= position@.push(physical_width_m));
    gpu
}

/// One billboard per named source, refreshed with every frame that arrives.
pub struct IngressActor {
    slots: NamedMap<AnimatedSplatGpu>,
}

impl View for IngressActor {
    type V = Map<Seq<char>, AnimatedSplatGpu>;

    closed spec fn view(&self) -> Map<Seq<char>, AnimatedSplatGpu> {
        self.slots@
    }
}

impl IngressActor {
    pub fn new() -> (actor: Self)
        ensures
            actor@ == Map::<Seq<char>, AnimatedSplatGpu>::empty(),
    {
        IngressActor { slots: NamedMap::new() }
    }

    /// Puts the billboard of a fresh frame into the slot `name`.
    pub fn update_slot(
        &mut self,
        name: &str,
        frame: &IngressFrame,
        position: [u32; 3],
        rotation: [u32; 4],
        physical_width_m: u32,
        owner_id: u32,
        current_frame: u32,
        texture_layer: u16,
    )
        ensures
            final(self)@ == old(self)@.insert(name@, final(self)@[name@]),
            is_billboard(
                final(self)@[name@],
                frame.width,
                frame.height,
                position@,
                rotation@,
                physical_width_m,
                owner_id,
                current_frame,
                texture_layer,
            ),
    {
        let billboard = frame_to_billboard(
            frame,
            position,
            rotation,
            physical_width_m,
            owner_id,
            current_frame,
            texture_layer,
        );
        self.slots.insert(name, billboard);
    }

    pub fn get(&self, name: &str) -> (r: Option<&AnimatedSplatGpu>)
        ensures
            match r {
                Some(gpu) => self@.contains_key(name@) && *gpu == self@[name@],
                None => !self@.contains_key(name@),
            },
    {
        self.slots.get(name)
    }

    /// The names of the slots, each once.
    pub fn slot_names(&self) -> (names: Vec<String>)
        ensures
            forall|k: int| 0 <= k < names@.len() ==> self@.contains_key(#[trigger] names@[k]@),
            named_map::names_all(names@, self@),
            forall|i: int, j: int|
                0 <= i < j < names@.len() ==> #[trigger] names@[i]@ != #[trigger] names@[j]@,
    {
        self.slots.names()
    }
}

// ---------------------------------------------------------------------------
// laws
// ---------------------------------------------------------------------------

/// A slot that has just taken in a frame is active and was last seen in the
/// frame at hand, however long the frame before it is past, so a live feed has
/// no age; the other slots stay as they are.
pub proof fn law_live_feeds_stay_fresh(
    before: Map<Seq<char>, AnimatedSplatGpu>,
    after: Map<Seq<char>, AnimatedSplatGpu>,
    name: Seq<char>,
    other: Seq<char>,
    width: u32,
    height: u32,
    position: Seq<u32>,
    rotation: Seq<u32>,
    physical_width_m: u32,
    owner_id: u32,
    current_frame: u32,
    texture_layer: u16,
)
    requires
        after == before.insert(name, after[name]),
        is_billboard(
            after[name],
            width,
            height,
            position,
            rotation,
            physical_width_m,
            owner_id,
            current_frame,
            texture_layer,
        ),
        other != name,
    ensures
        after.contains_key(name),
        current_frame - after[name].last_visible_frame == 0,
        after[name].flags & FLAG_ACTIVE == FLAG_ACTIVE,
        after.contains_key(other) == before.contains_key(other),
        before.contains_key(other) ==> after[other] == before[other],
{
    let flags = after[name].flags;
    assert(flags & FLAG_ACTIVE == FLAG_ACTIVE) by (bit_vector)
        requires
            flags == FLAG_ACTIVE | FLAG_TEXTURED_BILLBOARD,
    ;
    assert(before.insert(name, after[name]).contains_key(name));
}

/// A billboard lies where it was placed, turned as it was turned and as wide as
/// it was said to be; it is white, as wide to its height as the frame, rigid on
/// bone 0, active and textured, at full density, with its own atlas layer.
pub proof fn law_billboards_keep_their_place(
    frame: &IngressFrame,
    position: [u32; 3],
    rotation: [u32; 4],
    physical_width_m: u32,
    owner_id: u32,
    current_frame: u32,
    texture_layer: u16,
    gpu: AnimatedSplatGpu,
    c: int,
)
    requires
        call_ensures(
            frame_to_billboard,
            (
                frame,
                position,
                rotation,
                physical_width_m,
                owner_id,
                current_frame,
                texture_layer,
            ),
            gpu,
        ),
        0 <= c < 4,
    ensures
        c < 3 ==> gpu.position_and_confidence[c] == position[c],
        gpu.position_and_confidence[3] == physical_width_m,
        gpu.rotation[c] == rotation[c],
        c < 3 ==> gpu.color[c] == 0x3f80_0000,
        frame.width == 0 ==> gpu.color[3] == 0,
        0 < frame.width < 0x100_0000 && 0 < frame.height < 0x100_0000 ==> single::is_nearest(
            gpu.color[3],
            frame.width as nat,
            frame.height as nat,
        ),
        0 < frame.width < 0x100_0000 && frame.height == 0 ==> single::is_nearest(
            gpu.color[3],
            frame.width as nat,
            1,
        ),
        gpu.joint_ids[c] == 0,
        gpu.weights[c] == if c == 0 {
            0x3f80_0000int
        } else {
            0
        },
        gpu.owner_id == owner_id,
        gpu.last_visible_frame == current_frame,
        gpu.flags == 3,
        gpu.padding == 255 + 0x1_0000 * texture_layer,
{
    assert(1u32 | 2u32 == 3u32) by (bit_vector);
    if c < 3 {
        assert(gpu.position_and_confidence@[c] == position@[c]);
    }
    assert(gpu.position_and_confidence@[3] == physical_width_m);
    assert(gpu.rotation@[c] == rotation@[c]);
    assert(gpu.joint_ids@[c] == 0);
    assert(gpu.weights@[c] == seq![ONE, ZERO, ZERO, ZERO][c]);
    assert(gpu.color@[c] == seq![ONE, ONE, ONE, aspect_bits(frame.width, frame.height)][c]);
    assert(gpu.color@[3] == aspect_bits(frame.width, frame.height));
    let height: nat = if frame.height == 0 {
        1
    } else {
        frame.height as nat
    };
    single::lemma_round24(height);
    single::law_ratio_exists(single::round24(frame.width as nat), single::round24(height));
    if 0 < frame.width < 0x100_0000 && height < 0x100_0000 {
        single::law_ratio_is_nearest(gpu.color@[3], frame.width as nat, height);
    }
}

/// The slot of a name holds the billboard of the last frame put there, and no
/// other slot changes.
pub proof fn law_slots_hold_the_last_frame(
    actor: &mut IngressActor,
    name: &str,
    frame: &IngressFrame,
    position: [u32; 3],
    rotation: [u32; 4],
    physical_width_m: u32,
    owner_id: u32,
    current_frame: u32,
    texture_layer: u16,
    other: Seq<char>,
    c: int,
)
    requires
        call_ensures(
            IngressActor::update_slot,
            (
                actor,
                name,
                frame,
                position,
                rotation,
                physical_width_m,
                owner_id,
                current_frame,
                texture_layer,
            ),
            (),
        ),
        other != name@,
        0 <= c < 4,
    ensures
        final(actor)@.contains_key(name@),
        c < 3 ==> final(actor)@[name@].position_and_confidence[c] == position[c],
        final(actor)@[name@].position_and_confidence[3] == physical_width_m,
        final(actor)@[name@].rotation[c] == rotation[c],
        final(actor)@[name@].owner_id == owner_id,
        final(actor)@[name@].last_visible_frame == current_frame,
        final(actor)@[name@].padding == 255 + 0x1_0000 * texture_layer,
        final(actor)@.contains_key(other) <==> old(actor)@.contains_key(other),
        old(actor)@.contains_key(other) ==> final(actor)@[other] == old(actor)@[other],
{
    let gpu = final(actor)@[name@];
    assert(old(actor)@.insert(name@, gpu).contains_key(name@));
    if c < 3 {
        assert(gpu.position_and_confidence@[c] == position@[c]);
    }
    assert(gpu.position_and_confidence@[3] == physical_width_m);
    assert(gpu.rotation@[c] == rotation@[c]);
}

/// The formats whose fourth byte means nothing are `XR24` and `XB24`; a frame
/// can be imported when it has a plane, a size and a modifier.
pub proof fn law_dmabuf_frames_are_told_apart(frame: &DmabufFrame, opaque: bool, ready: bool)
    requires
        call_ensures(DmabufFrame::opaque_alpha, (frame,), opaque),
        call_ensures(DmabufFrame::frame_ready_for_import, (frame,), ready),
    ensures
        opaque <==> frame.drm_format == 0x3432_5258 || frame.drm_format == 0x3432_4258,
        ready <==> frame.planes@.len() > 0 && frame.width > 0 && frame.height > 0
            && frame.modifier != 0xff_ffff_ffff_ffff,
{
}

/// A padding word holds the density in its low byte and the atlas layer in its
/// high half, and nothing between.
pub proof fn law_padding_is_packed(density: u8, texture_layer: u16, padding: u32)
    requires
        call_ensures(pack_padding, (density, texture_layer), padding),
    ensures
        padding % 0x100 == density,
        padding / 0x100 % 0x100 == 0,
        padding / 0x1_0000 == texture_layer,
{
    assert(padding % 0x100 == density && padding / 0x100 % 0x100 == 0 && padding / 0x1_0000
        == texture_layer) by (bit_vector)
        requires
            padding == density + 0x1_0000 * texture_layer,
    ;
}

/// A slot is found under its name once a frame was put there, with that frame's
/// billboard, and its name is listed; before any frame there is none.
pub proof fn law_slots_are_found(
    actor: &mut IngressActor,
    name: &str,
    frame: &IngressFrame,
    position: [u32; 3],
    rotation: [u32; 4],
    physical_width_m: u32,
    owner_id: u32,
    current_frame: u32,
    texture_layer: u16,
    found: Option<&AnimatedSplatGpu>,
    names: Vec<String>,
    fresh: &IngressActor,
    missing: Option<&AnimatedSplatGpu>,
)
    requires
        call_ensures(
            IngressActor::update_slot,
            (
                actor,
                name,
                frame,
                position,
                rotation,
                physical_width_m,
                owner_id,
                current_frame,
                texture_layer,
            ),
            (),
        ),
        call_ensures(IngressActor::get, (&*final(actor), name), found),
        call_ensures(IngressActor::slot_names, (&*final(actor),), names),
        call_ensures(IngressActor::new, (), *fresh),
        call_ensures(IngressActor::get, (fresh, name), missing),
    ensures
        found is Some,
        found->0.owner_id == owner_id,
        found->0.last_visible_frame == current_frame,
        found->0.position_and_confidence[3] == physical_width_m,
        exists|k: int| 0 <= k < names@.len() && #[trigger] names@[k]@ == name@,
        missing is None,
{
    let gpu = final(actor)@[name@];
    assert(old(actor)@.insert(name@, gpu).contains_key(name@));
    assert(final(actor)@.contains_key(name@));
    assert(gpu.position_and_confidence@[3] == physical_width_m);
}

} // verus!
