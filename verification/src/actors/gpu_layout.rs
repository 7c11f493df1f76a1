//! The records that the compute shaders read and write, word for word.
//!
//! Flag bits of a splat: bit 0 is active, bit 1 a textured billboard, bit 2
//! soft Gaussian falloff. Its `padding` word is packed: the low byte is the
//! density and bits 16 to 31 are a texture-atlas layer.
//!
//! Numbers that the shaders read as floats are single-precision patterns (see
//! `single`).

use crate::actors::scene_memory::{GaussianSplat, SkinningWeights};
use crate::bytes as le;
use crate::single::{ONE, ZERO};
use vstd::prelude::*;

verus! {

pub const FLAG_ACTIVE: u32 = 1;

pub const FLAG_TEXTURED_BILLBOARD: u32 = 2;

pub const FLAG_SOFT_GAUSSIAN_FALLOFF: u32 = 4;

/// Length of the shader's eviction list.
pub const MAX_EVICTIONS_PER_FRAME: u32 = 256;

/// Number of bones in the palette.
pub const MAX_BONES: u32 = 64;

/// Bytes of an `AnimatedSplatGpu` in a buffer.
pub const ANIMATED_SPLAT_BYTES: usize = 96;

/// Bytes of a `DualQuatGpu` in a buffer.
pub const DUAL_QUAT_BYTES: usize = 32;

/// Bytes of a `ProjectionUniformsGpu` in a buffer.
pub const PROJECTION_UNIFORMS_BYTES: usize = 80;

/// Bytes of an `EvictionUniformsGpu` in a buffer.
pub const EVICTION_UNIFORMS_BYTES: usize = 16;

/// Bytes of a `ProjectedSplatGpu` in a buffer.
pub const PROJECTED_SPLAT_BYTES: usize = 48;

/// One live splat. `position_and_confidence` holds the world position and, in
/// its last place, the confidence of a loose splat or the physical width of a
/// billboard.
#[derive(Debug, Clone, Copy, PartialEq, Eq)]
pub struct AnimatedSplatGpu {
    pub position_and_confidence: [u32; 4],
    pub rotation: [u32; 4],
    pub color: [u32; 4],
    pub joint_ids: [u32; 4],
    pub weights: [u32; 4],
    pub owner_id: u32,
    pub last_visible_frame: u32,
    pub flags: u32,
    pub padding: u32,
}

impl AnimatedSplatGpu {
    /// The words of the record: five groups of four, then the four integers.
    pub open spec fn words(&self) -> Seq<u32> {
        self.position_and_confidence@ + self.rotation@ + self.color@ + self.joint_ids@
            + self.weights@ + seq![
            self.owner_id,
            self.last_visible_frame,
            self.flags,
            self.padding,
        ]
    }

    pub fn to_bytes(&self) -> (bytes: Vec<u8>)
        ensures
            bytes@ == le::words_bytes(self.words()),
            bytes@.len() == ANIMATED_SPLAT_BYTES,
    {
        let words: [u32; 24] = [
            self.position_and_confidence[0],
            self.position_and_confidence[1],
            self.position_and_confidence[2],
            self.position_and_confidence[3],
            self.rotation[0],
            self.rotation[1],
            self.rotation[2],
            self.rotation[3],
            self.color[0],
            self.color[1],
            self.color[2],
            self.color[3],
            self.joint_ids[0],
            self.joint_ids[1],
            self.joint_ids[2],
            self.joint_ids[3],
            self.weights[0],
            self.weights[1],
            self.weights[2],
            self.weights[3],
            self.owner_id,
            self.last_visible_frame,
            self.flags,
            self.padding,
        ];
        assert(words@ =~= self.words());
        le::encode_words(words.as_slice())
    }
}

/// The bones a splat follows: those of its skinning, or bone 0 alone when it
/// has none.
pub open spec fn joints_of(skin: Option<SkinningWeights>) -> Seq<u32> {
    match skin {
        Some(s) => s.bone_indices@.map_values(|b: u16| b as u32),
        None => seq![0u32, 0u32, 0u32, 0u32],
    }
}

/// How much each bone counts; an unskinned splat is rigid on bone 0.
pub open spec fn weights_of(skin: Option<SkinningWeights>) -> Seq<u32> {
    match skin {
        Some(s) => s.bone_weights@,
        None => seq![ONE, ZERO, ZERO, ZERO],
    }
}

/// Whether `gpu` is the live form of `splat`.
pub open spec fn is_gpu_splat(
    gpu: AnimatedSplatGpu,
    splat: GaussianSplat,
    skin: Option<SkinningWeights>,
    owner_id: u32,
    current_frame: u32,
    density: u8,
) -> bool {
    &&& gpu.position_and_confidence@ == splat.position@.push(ONE)
    &&& gpu.rotation == splat.rotation
    &&& gpu.color == splat.color
    &&& gpu.joint_ids@ == joints_of(skin)
    &&& gpu.weights@ == weights_of(skin)
    &&& gpu.owner_id == owner_id
    &&& gpu.last_visible_frame == current_frame
    &&& gpu.flags == FLAG_ACTIVE
    &&& gpu.padding == density
}

/// The live form of one canonical splat. Without skinning the splat is bound
/// rigidly to bone 0, so a whole unrigged artifact moves as one body.
pub fn to_gpu_splat(
    splat: &GaussianSplat,
    skin: Option<&SkinningWeights>,
    owner_id: u32,
    current_frame: u32,
    density: u8,
) -> (gpu: AnimatedSplatGpu)
    ensures
        is_gpu_splat(
            gpu,
            *splat,
            match skin {
                Some(s) => Some(*s),
                None => None,
            },
            owner_id,
            current_frame,
            density,
        ),
{
    let (joint_ids, weights) = match skin {
        Some(s) => (
            [
                s.bone_indices[0] as u32,
                s.bone_indices[1] as u32,
                s.bone_indices[2] as u32,
                s.bone_indices[3] as u32,
            ],
            s.bone_weights,
        ),
        None => ([0, 0, 0, 0], [ONE, ZERO, ZERO, ZERO]),
    };
    let gpu = AnimatedSplatGpu {
        position_and_confidence: [splat.position[0], splat.position[1], splat.position[2], ONE],
        rotation: splat.rotation,
        color: splat.color,
        joint_ids,
        weights,
        owner_id,
        last_visible_frame: current_frame,
        flags: FLAG_ACTIVE,
        padding: density as u32,
    };
    proof {
        let skinning = match skin {
            Some(s) => Some(*s),
            None => None,
        };
        assert(gpu.position_and_confidence@ =~= splat.position@.push(ONE));
        assert(gpu.joint_ids@ =~= joints_of(skinning));
        assert(gpu.weights@ =~= weights_of(skinning));
    }
    gpu
}

/// A rigid transform. Both halves are in (w, x, y, z) order.
#[derive(Debug, Clone, Copy, PartialEq, Eq)]
pub struct DualQuatGpu {
    pub real: [u32; 4],
    pub dual: [u32; 4],
}

/// The transform that moves nothing.
pub open spec fn is_identity(dq: DualQuatGpu) -> bool {
    dq.real@ == seq![ONE, ZERO, ZERO, ZERO] && dq.dual@ == seq![ZERO, ZERO, ZERO, ZERO]
}

pub fn identity_dual_quat() -> (dq: DualQuatGpu)
    ensures
        is_identity(dq),
{
    DualQuatGpu { real: [ONE, ZERO, ZERO, ZERO], dual: [ZERO, ZERO, ZERO, ZERO] }
}

impl DualQuatGpu {
    pub open spec fn words(&self) -> Seq<u32> {
        self.real@ + self.dual@
    }

    pub fn to_bytes(&self) -> (bytes: Vec<u8>)
        ensures
            bytes@ == le::words_bytes(self.words()),
            bytes@.len() == DUAL_QUAT_BYTES,
    {
        let words: [u32; 8] = [
            self.real[0],
            self.real[1],
            self.real[2],
            self.real[3],
            self.dual[0],
            self.dual[1],
            self.dual[2],
            self.dual[3],
        ];
        assert(words@ =~= self.words());
        le::encode_words(words.as_slice())
    }
}

/// The projection shader's uniform block. Three unread words at its end round
/// it up to a multiple of sixteen bytes.
#[derive(Debug, Clone, Copy, PartialEq, Eq)]
pub struct ProjectionUniformsGpu {
    pub world_to_camera_dq: DualQuatGpu,
    pub focal: [u32; 2],
    pub principal: [u32; 2],
    pub screen_size: [u32; 2],
    pub base_splat_scale: u32,
    pub total_capacity: u32,
    pub current_frame: u32,
}

impl ProjectionUniformsGpu {
    pub fn new(
        world_to_camera_dq: DualQuatGpu,
        focal: [u32; 2],
        principal: [u32; 2],
        screen_size: [u32; 2],
        base_splat_scale: u32,
        total_capacity: u32,
        current_frame: u32,
    ) -> (uniforms: Self)
        ensures
            uniforms == (ProjectionUniformsGpu {
                world_to_camera_dq,
                focal,
                principal,
                screen_size,
                base_splat_scale,
                total_capacity,
                current_frame,
            }),
    {
        ProjectionUniformsGpu {
            world_to_camera_dq,
            focal,
            principal,
            screen_size,
            base_splat_scale,
            total_capacity,
            current_frame,
        }
    }

    pub open spec fn words(&self) -> Seq<u32> {
        self.world_to_camera_dq.words() + self.focal@ + self.principal@ + self.screen_size@ + seq![
            self.base_splat_scale,
            self.total_capacity,
            self.current_frame,
            0u32,
            0u32,
            0u32,
        ]
    }

    pub fn to_bytes(&self) -> (bytes: Vec<u8>)
        ensures
            bytes@ == le::words_bytes(self.words()),
            bytes@.len() == PROJECTION_UNIFORMS_BYTES,
    {
        let dq = &self.world_to_camera_dq;
        let words: [u32; 20] = [
            dq.real[0],
            dq.real[1],
            dq.real[2],
            dq.real[3],
            dq.dual[0],
            dq.dual[1],
            dq.dual[2],
            dq.dual[3],
            self.focal[0],
            self.focal[1],
            self.principal[0],
            self.principal[1],
            self.screen_size[0],
            self.screen_size[1],
            self.base_splat_scale,
            self.total_capacity,
            self.current_frame,
            0,
            0,
            0,
        ];
        assert(words@ =~= self.words());
        le::encode_words(words.as_slice())
    }
}

/// The eviction shader's uniform block, followed by one unread word.
#[derive(Debug, Clone, Copy, PartialEq, Eq)]
pub struct EvictionUniformsGpu {
    pub total_capacity: u32,
    pub current_frame: u32,
    pub absolute_max_age: u32,
}

impl EvictionUniformsGpu {
    pub fn new(total_capacity: u32, current_frame: u32, absolute_max_age: u32) -> (uniforms: Self)
        ensures
            uniforms == (EvictionUniformsGpu { total_capacity, current_frame, absolute_max_age }),
    {
        EvictionUniformsGpu { total_capacity, current_frame, absolute_max_age }
    }

    pub open spec fn words(&self) -> Seq<u32> {
        seq![self.total_capacity, self.current_frame, self.absolute_max_age, 0u32]
    }

    pub fn to_bytes(&self) -> (bytes: Vec<u8>)
        ensures
            bytes@ == le::words_bytes(self.words()),
            bytes@.len() == EVICTION_UNIFORMS_BYTES,
    {
        let words: [u32; 4] = [
            self.total_capacity,
            self.current_frame,
            self.absolute_max_age,
            0,
        ];
        assert(words@ =~= self.words());
        le::encode_words(words.as_slice())
    }
}

/// What the projection shader writes for one splat. In the buffer three words
/// of padding stand before `color`, which must start on a sixteen-byte
/// boundary.
#[derive(Debug, Clone, Copy, PartialEq, Eq)]
pub struct ProjectedSplatGpu {
    pub screen_center: [u32; 2],
    pub radius_pixels: u32,
    pub depth: u32,
    pub splat_id: u32,
    pub color: [u32; 4],
}

/// Whether `p` is the projected splat stored at byte `at`.
pub open spec fn is_projected_at(p: ProjectedSplatGpu, bytes: Seq<u8>, at: int) -> bool {
    &&& p.screen_center@ == seq![le::word_at(bytes, at), le::word_at(bytes, at + 4)]
    &&& p.radius_pixels == le::word_at(bytes, at + 8)
    &&& p.depth == le::word_at(bytes, at + 12)
    &&& p.splat_id == le::word_at(bytes, at + 16)
    &&& p.color@ == seq![
        le::word_at(bytes, at + 32),
        le::word_at(bytes, at + 36),
        le::word_at(bytes, at + 40),
        le::word_at(bytes, at + 44),
    ]
}

impl ProjectedSplatGpu {
    /// Reads the projected splat stored at byte `at`.
    pub fn from_bytes(bytes: &[u8], at: usize) -> (p: Self)
        requires
            at + PROJECTED_SPLAT_BYTES <= bytes.len(),
        ensures
            is_projected_at(p, bytes@, at as int),
    {
        ProjectedSplatGpu {
            screen_center: [le::read_word(bytes, at), le::read_word(bytes, at + 4)],
            radius_pixels: le::read_word(bytes, at + 8),
            depth: le::read_word(bytes, at + 12),
            splat_id: le::read_word(bytes, at + 16),
            color: [
                le::read_word(bytes, at + 32),
                le::read_word(bytes, at + 36),
                le::read_word(bytes, at + 40),
                le::read_word(bytes, at + 44),
            ],
        }
    }
}

// ---------------------------------------------------------------------------
// laws
// ---------------------------------------------------------------------------

/// Every field of a live splat lies at its offset of the record: the five
/// groups at 0, 16, 32, 48 and 64, the integers from 80 on.
pub proof fn law_animated_splat_layout(splat: AnimatedSplatGpu, i: int)
    requires
        0 <= i < 4,
    ensures
        ({
            let bytes = le::words_bytes(splat.words());
            &&& bytes.len() == 96
            &&& le::word_at(bytes, 4 * i) == splat.position_and_confidence[i]
            &&& le::word_at(bytes, 16 + 4 * i) == splat.rotation[i]
            &&& le::word_at(bytes, 32 + 4 * i) == splat.color[i]
            &&& le::word_at(bytes, 48 + 4 * i) == splat.joint_ids[i]
            &&& le::word_at(bytes, 64 + 4 * i) == splat.weights[i]
            &&& le::word_at(bytes, 80) == splat.owner_id
            &&& le::word_at(bytes, 84) == splat.last_visible_frame
            &&& le::word_at(bytes, 88) == splat.flags
            &&& le::word_at(bytes, 92) == splat.padding
        }),
{
    let words = splat.words();
    le::law_word_round_trip(words, i);
    le::law_word_round_trip(words, 4 + i);
    le::law_word_round_trip(words, 8 + i);
    le::law_word_round_trip(words, 12 + i);
    le::law_word_round_trip(words, 16 + i);
    le::law_word_round_trip(words, 20);
    le::law_word_round_trip(words, 21);
    le::law_word_round_trip(words, 22);
    le::law_word_round_trip(words, 23);
}

/// The halves of a transform lie at offsets 0 and 16.
pub proof fn law_dual_quat_layout(dq: DualQuatGpu, i: int)
    requires
        0 <= i < 4,
    ensures
        ({
            let bytes = le::words_bytes(dq.words());
            &&& bytes.len() == 32
            &&& le::word_at(bytes, 4 * i) == dq.real[i]
            &&& le::word_at(bytes, 16 + 4 * i) == dq.dual[i]
        }),
{
    le::law_word_round_trip(dq.words(), i);
    le::law_word_round_trip(dq.words(), 4 + i);
}

/// Every field of the projection uniforms lies where the shader's block has it,
/// and zeros fill the block up.
pub proof fn law_projection_uniforms_layout(uniforms: ProjectionUniformsGpu, i: int, j: int)
    requires
        0 <= i < 4,
        0 <= j < 2,
    ensures
        ({
            let bytes = le::words_bytes(uniforms.words());
            &&& bytes.len() == 80
            &&& le::word_at(bytes, 4 * i) == uniforms.world_to_camera_dq.real[i]
            &&& le::word_at(bytes, 16 + 4 * i) == uniforms.world_to_camera_dq.dual[i]
            &&& le::word_at(bytes, 32 + 4 * j) == uniforms.focal[j]
            &&& le::word_at(bytes, 40 + 4 * j) == uniforms.principal[j]
            &&& le::word_at(bytes, 48 + 4 * j) == uniforms.screen_size[j]
            &&& le::word_at(bytes, 56) == uniforms.base_splat_scale
            &&& le::word_at(bytes, 60) == uniforms.total_capacity
            &&& le::word_at(bytes, 64) == uniforms.current_frame
            &&& le::word_at(bytes, 68) == 0
            &&& le::word_at(bytes, 72) == 0
            &&& le::word_at(bytes, 76) == 0
        }),
{
    let words = uniforms.words();
    le::law_word_round_trip(words, i);
    le::law_word_round_trip(words, 4 + i);
    le::law_word_round_trip(words, 8 + j);
    le::law_word_round_trip(words, 10 + j);
    le::law_word_round_trip(words, 12 + j);
    le::law_word_round_trip(words, 14);
    le::law_word_round_trip(words, 15);
    le::law_word_round_trip(words, 16);
    le::law_word_round_trip(words, 17);
    le::law_word_round_trip(words, 18);
    le::law_word_round_trip(words, 19);
}

/// Every field of the eviction uniforms lies where the shader's block has it,
/// and a zero fills the block up.
pub proof fn law_eviction_uniforms_layout(uniforms: EvictionUniformsGpu)
    ensures
        ({
            let bytes = le::words_bytes(uniforms.words());
            &&& bytes.len() == 16
            &&& le::word_at(bytes, 0) == uniforms.total_capacity
            &&& le::word_at(bytes, 4) == uniforms.current_frame
            &&& le::word_at(bytes, 8) == uniforms.absolute_max_age
            &&& le::word_at(bytes, 12) == 0
        }),
{
    let words = uniforms.words();
    le::law_word_round_trip(words, 0);
    le::law_word_round_trip(words, 1);
    le::law_word_round_trip(words, 2);
    le::law_word_round_trip(words, 3);
}

/// The stored record of a live splat keeps the splat: its position, rotation
/// and color word for word, the bones and weights of its skinning (or bone 0
/// with weight one and nothing else), its owner, the frame and the density.
/// It is active and fully confident.
pub proof fn law_live_splats_keep_the_splat(
    splat: &GaussianSplat,
    skin: Option<&SkinningWeights>,
    owner_id: u32,
    current_frame: u32,
    density: u8,
    gpu: AnimatedSplatGpu,
    bytes: Vec<u8>,
    c: int,
)
    requires
        call_ensures(to_gpu_splat, (splat, skin, owner_id, current_frame, density), gpu),
        call_ensures(AnimatedSplatGpu::to_bytes, (&gpu,), bytes),
        0 <= c < 4,
    ensures
        bytes@.len() == 96,
        c < 3 ==> le::spelled_at(bytes@, 4 * c) == splat.position[c],
        le::spelled_at(bytes@, 12) == 0x3f80_0000,
        le::spelled_at(bytes@, 16 + 4 * c) == splat.rotation[c],
        le::spelled_at(bytes@, 32 + 4 * c) == splat.color[c],
        skin matches Some(s) ==> le::spelled_at(bytes@, 48 + 4 * c) == s.bone_indices[c],
        skin matches Some(s) ==> le::spelled_at(bytes@, 64 + 4 * c) == s.bone_weights[c],
        skin is None ==> le::spelled_at(bytes@, 48 + 4 * c) == 0,
        skin is None ==> le::spelled_at(bytes@, 64 + 4 * c) == if c == 0 {
            0x3f80_0000int
        } else {
            0
        },
        le::spelled_at(bytes@, 80) == owner_id,
        le::spelled_at(bytes@, 84) == current_frame,
        le::spelled_at(bytes@, 88) == 1,
        le::spelled_at(bytes@, 92) == density,
{
    law_animated_splat_layout(gpu, c);
    law_animated_splat_layout(gpu, 3);
    assert(gpu.position_and_confidence@[3] == ONE);
    if c < 3 {
        assert(gpu.position_and_confidence@[c] == splat.position@[c]);
    }
    match skin {
        Some(s) => {
            assert(gpu.joint_ids@[c] == s.bone_indices@[c]);
            assert(gpu.weights@[c] == s.bone_weights@[c]);
        },
        None => {
            assert(gpu.joint_ids@[c] == 0);
            assert(gpu.weights@[c] == if c == 0 {
                ONE
            } else {
                ZERO
            });
        },
    }
}

/// A stored transform keeps both halves, and the identity is a one followed by
/// seven zeros.
pub proof fn law_stored_transforms(dq: DualQuatGpu, bytes: Vec<u8>, c: int)
    requires
        call_ensures(DualQuatGpu::to_bytes, (&dq,), bytes),
        0 <= c < 4,
    ensures
        bytes@.len() == 32,
        le::spelled_at(bytes@, 4 * c) == dq.real[c],
        le::spelled_at(bytes@, 16 + 4 * c) == dq.dual[c],
        call_ensures(identity_dual_quat, (), dq) ==> dq.dual[c] == 0 && dq.real[c] == if c == 0 {
            0x3f80_0000int
        } else {
            0
        },
{
    law_dual_quat_layout(dq, c);
    if call_ensures(identity_dual_quat, (), dq) {
        assert(dq.real@[c] == if c == 0 {
            ONE
        } else {
            ZERO
        });
        assert(dq.dual@[c] == ZERO);
    }
}

/// The stored projection uniforms keep what they were made from: the camera,
/// the focal lengths, the principal point, the screen, the base scale, the
/// capacity and the frame.
pub proof fn law_stored_projection_uniforms(
    world_to_camera_dq: DualQuatGpu,
    focal: [u32; 2],
    principal: [u32; 2],
    screen_size: [u32; 2],
    base_splat_scale: u32,
    total_capacity: u32,
    current_frame: u32,
    uniforms: ProjectionUniformsGpu,
    bytes: Vec<u8>,
    c: int,
    k: int,
)
    requires
        call_ensures(
            ProjectionUniformsGpu::new,
            (
                world_to_camera_dq,
                focal,
                principal,
                screen_size,
                base_splat_scale,
                total_capacity,
                current_frame,
            ),
            uniforms,
        ),
        call_ensures(ProjectionUniformsGpu::to_bytes, (&uniforms,), bytes),
        0 <= c < 4,
        0 <= k < 2,
    ensures
        bytes@.len() == 80,
        le::spelled_at(bytes@, 4 * c) == world_to_camera_dq.real[c],
        le::spelled_at(bytes@, 16 + 4 * c) == world_to_camera_dq.dual[c],
        le::spelled_at(bytes@, 32 + 4 * k) == focal[k],
        le::spelled_at(bytes@, 40 + 4 * k) == principal[k],
        le::spelled_at(bytes@, 48 + 4 * k) == screen_size[k],
        le::spelled_at(bytes@, 56) == base_splat_scale,
        le::spelled_at(bytes@, 60) == total_capacity,
        le::spelled_at(bytes@, 64) == current_frame,
        le::spelled_at(bytes@, 68) == 0,
        le::spelled_at(bytes@, 72) == 0,
        le::spelled_at(bytes@, 76) == 0,
{
    law_projection_uniforms_layout(uniforms, c, k);
}

/// The stored eviction uniforms keep what they were made from.
pub proof fn law_stored_eviction_uniforms(
    total_capacity: u32,
    current_frame: u32,
    absolute_max_age: u32,
    uniforms: EvictionUniformsGpu,
    bytes: Vec<u8>,
)
    requires
        call_ensures(
            EvictionUniformsGpu::new,
            (total_capacity, current_frame, absolute_max_age),
            uniforms,
        ),
        call_ensures(EvictionUniformsGpu::to_bytes, (&uniforms,), bytes),
    ensures
        bytes@.len() == 16,
        le::spelled_at(bytes@, 0) == total_capacity,
        le::spelled_at(bytes@, 4) == current_frame,
        le::spelled_at(bytes@, 8) == absolute_max_age,
        le::spelled_at(bytes@, 12) == 0,
{
    law_eviction_uniforms_layout(uniforms);
}

/// A projected splat is read from its own bytes: the centre, the radius, the
/// depth and the splat number from the first twenty, the color from byte 32 on.
pub proof fn law_projected_splats_are_read_in_place(
    bytes: &[u8],
    at: usize,
    p: ProjectedSplatGpu,
    k: int,
    c: int,
)
    requires
        call_ensures(ProjectedSplatGpu::from_bytes, (bytes, at), p),
        0 <= k < 2,
        0 <= c < 4,
    ensures
        p.screen_center[k] == le::spelled_at(bytes@, at + 4 * k),
        p.radius_pixels == le::spelled_at(bytes@, at + 8),
        p.depth == le::spelled_at(bytes@, at + 12),
        p.splat_id == le::spelled_at(bytes@, at + 16),
        p.color[c] == le::spelled_at(bytes@, at + 32 + 4 * c),
{
    assert(p.screen_center@[k] == le::word_at(bytes@, at + 4 * k));
    assert(p.color@[c] == le::word_at(bytes@, at + 32 + 4 * c));
}

} // verus!
