//! The compute pipeline: which buffers it owns and how large they are, what is
//! bound where, what is written into them, and what is read back out.
//!
//! A `SplatPipeline` decides; whoever owns the device performs. Every write it
//! asks for is a `BufferWrite`, a run of bytes at an offset of one buffer.

use crate::actors::gpu_layout;
use crate::actors::gpu_layout::{
    AnimatedSplatGpu, DualQuatGpu, EvictionUniformsGpu, ProjectedSplatGpu, ProjectionUniformsGpu,
    ANIMATED_SPLAT_BYTES, DUAL_QUAT_BYTES, EVICTION_UNIFORMS_BYTES, FLAG_ACTIVE, MAX_BONES,
    MAX_EVICTIONS_PER_FRAME, PROJECTED_SPLAT_BYTES, PROJECTION_UNIFORMS_BYTES,
};
use crate::bytes as le;
use crate::single;
use crate::single::{ONE, ZERO};
use crate::text;
use crate::vulkan;
use vstd::prelude::*;
use vstd::string::*;

verus! {

// ---------------------------------------------------------------------------
// shader code
// ---------------------------------------------------------------------------

/// The word that every SPIR-V module starts with.
pub const SPIRV_MAGIC: u32 = 0x0723_0203;

/// The words of a SPIR-V module, in whichever byte order its first word shows.
pub open spec fn spirv_words(bytes: Seq<u8>) -> Option<Seq<u32>> {
    if bytes.len() == 0 || bytes.len() % 4 != 0 {
        None
    } else if le::word_at(bytes, 0) == SPIRV_MAGIC {
        Some(Seq::new(bytes.len() / 4, |i: int| le::word_at(bytes, 4 * i)))
    } else if le::big_word_at(bytes, 0) == SPIRV_MAGIC {
        Some(Seq::new(bytes.len() / 4, |i: int| le::big_word_at(bytes, 4 * i)))
    } else {
        None
    }
}

/// Why bytes are no SPIR-V module.
pub open spec fn spirv_refusal(bytes: Seq<u8>) -> Seq<char> {
    if bytes.len() % 4 != 0 {
        "input length not divisible by 4"@
    } else {
        "input missing SPIR-V magic number"@
    }
}

/// Calls `ash::util::read_spv` on the bytes in memory. It is taken to give the
/// words of a module that starts with the SPIR-V magic number in either byte
/// order, and to refuse everything else with one of its two messages: one for
/// a length that is no multiple of four, one for a missing magic number.
#[verifier::external_body]
pub(crate) fn read_spv(bytes: &[u8]) -> (r: Result<Vec<u32>, String>)
    ensures
        match r {
            Ok(words) => spirv_words(bytes@) == Some(words@),
            Err(reason) => spirv_words(bytes@) is None && reason@ == spirv_refusal(bytes@),
        },
{
    ash::util::read_spv(&mut std::io::Cursor::new(bytes)).map_err(|e| format!("{e}"))
}

/// The words of a compute shader.
pub fn shader_code(bytes: &[u8]) -> (r: Result<Vec<u32>, String>)
    ensures
        match r {
            Ok(words) => spirv_words(bytes@) == Some(words@),
            Err(message) => spirv_words(bytes@) is None && message@
                == "SPIR-V embedded in the binary is malformed: "@ + spirv_refusal(bytes@),
        },
{
    match read_spv(bytes) {
        Ok(words) => Ok(words),
        Err(reason) => {
            let mut message = "SPIR-V embedded in the binary is malformed: ".to_string();
            message.append(reason.as_str());
            Err(message)
        },
    }
}

// ---------------------------------------------------------------------------
// buffers
// ---------------------------------------------------------------------------

/// The buffers of the pipeline, all host-visible and always mapped.
#[derive(Debug, Clone, Copy, PartialEq, Eq, Structural)]
pub enum BufferId {
    DynamicSplats,
    BonePalette,
    ProjectedOutput,
    ProjectionUniforms,
    EvictionUniforms,
    EvictedTextures,
}

#[derive(Debug, Clone, Copy, PartialEq, Eq, Structural)]
pub enum BufferUsage {
    Storage,
    Uniform,
}

/// Bytes that a buffer of a pipeline with room for `capacity` splats holds.
/// The eviction list is a count followed by the layers.
pub open spec fn buffer_bytes(buffer: BufferId, capacity: u32) -> nat {
    match buffer {
        BufferId::DynamicSplats => (96 * capacity) as nat,
        BufferId::BonePalette => (32 * MAX_BONES) as nat,
        BufferId::ProjectedOutput => (48 * capacity) as nat,
        BufferId::ProjectionUniforms => PROJECTION_UNIFORMS_BYTES as nat,
        BufferId::EvictionUniforms => EVICTION_UNIFORMS_BYTES as nat,
        BufferId::EvictedTextures => (4 + 4 * MAX_EVICTIONS_PER_FRAME) as nat,
    }
}

pub open spec fn usage_of(buffer: BufferId) -> BufferUsage {
    match buffer {
        BufferId::ProjectionUniforms | BufferId::EvictionUniforms => BufferUsage::Uniform,
        _ => BufferUsage::Storage,
    }
}

pub fn buffer_size(buffer: BufferId, capacity: u32) -> (size: u64)
    ensures
        size == buffer_bytes(buffer, capacity),
{
    match buffer {
        BufferId::DynamicSplats => 96 * capacity as u64,
        BufferId::BonePalette => 32 * MAX_BONES as u64,
        BufferId::ProjectedOutput => 48 * capacity as u64,
        BufferId::ProjectionUniforms => PROJECTION_UNIFORMS_BYTES as u64,
        BufferId::EvictionUniforms => EVICTION_UNIFORMS_BYTES as u64,
        BufferId::EvictedTextures => 4 + 4 * MAX_EVICTIONS_PER_FRAME as u64,
    }
}

/// The memory type for a buffer whose allowed types are `type_bits`: the first
/// that is host-visible and coherent. `types` holds the property bits of each.
pub fn buffer_memory_type(types: &[u32], type_bits: u32) -> (r: Result<u32, String>)
    requires
        types.len() <= 32,
    ensures
        match r {
            Ok(i) => {
                &&& vulkan::memory_type_fits(types@, type_bits, 6, i as int)
                &&& forall|j: int|
                    0 <= j < i ==> !vulkan::memory_type_fits(types@, type_bits, 6, j)
            },
            Err(message) => {
                &&& vulkan::none_fits(types@, type_bits, 6)
                &&& message@ == "no HOST_VISIBLE|HOST_COHERENT memory type supports this buffer"@
            },
        },
{
    let wanted: u32 = vulkan::MEMORY_HOST_VISIBLE + vulkan::MEMORY_HOST_COHERENT;
    match vulkan::choose_memory_type(types, type_bits, wanted) {
        Some(i) => Ok(i),
        None => Err(
            "no HOST_VISIBLE|HOST_COHERENT memory type supports this buffer".to_string(),
        ),
    }
}

/// Bytes to store in a buffer from an offset on.
#[derive(Debug)]
pub struct BufferWrite {
    pub buffer: BufferId,
    pub offset: u64,
    pub bytes: Vec<u8>,
}

impl BufferWrite {
    /// Whether the write stays inside its buffer.
    pub open spec fn fits(&self, capacity: u32) -> bool {
        self.offset + self.bytes@.len() <= buffer_bytes(self.buffer, capacity)
    }
}

/// What is logged of a splat whose slot lies past the capacity.
pub open spec fn skipped_line(index: u32, capacity: u32) -> Seq<char> {
    "[pipeline] write_splat index "@ + text::decimal(index as nat) + " out of range (capacity "@
        + text::decimal(capacity as nat) + ") — skipped"@
}

/// What is logged of a bone past the palette.
pub open spec fn clamped_line(index: u32) -> Seq<char> {
    "[pipeline] write_bone index "@ + text::decimal(index as nat) + " >= "@ + text::decimal(
        MAX_BONES as nat,
    ) + " — clamped"@
}

/// `total / group_size`, rounded up: the number of work groups that cover
/// `total` lanes.
pub fn workgroup_count(total: u32, group_size: u32) -> (groups: u32)
    requires
        group_size > 0,
    ensures
        groups * group_size >= total,
        groups > 0 ==> (groups - 1) * group_size < total,
{
    let whole: u32 = total / group_size;
    let rest: u32 = total % group_size;
    assert(total == whole * group_size + rest) by (nonlinear_arith)
        requires
            group_size > 0,
            whole == total / group_size,
            rest == total % group_size,
    ;
    assert(whole <= total) by (nonlinear_arith)
        requires
            group_size > 0,
            whole == total / group_size,
    ;
    if rest == 0 {
        assert((whole - 1) * group_size == whole * group_size - group_size) by (nonlinear_arith);
        whole
    } else {
        assert(whole < total) by (nonlinear_arith)
            requires
                total == whole * group_size + rest,
                rest > 0,
                group_size > 0,
                whole >= 0,
        ;
        assert((whole + 1) * group_size == whole * group_size + group_size) by (nonlinear_arith);
        whole + 1
    }
}

// ---------------------------------------------------------------------------
// writes and reads
// ---------------------------------------------------------------------------

/// A slot that nothing occupies.
pub open spec fn is_inactive(splat: AnimatedSplatGpu) -> bool {
    &&& splat.position_and_confidence@ == seq![ZERO, ZERO, ZERO, ZERO]
    &&& splat.rotation@ == seq![ONE, ZERO, ZERO, ZERO]
    &&& splat.color@ == seq![ZERO, ZERO, ZERO, ZERO]
    &&& splat.joint_ids@ == seq![0u32, 0u32, 0u32, 0u32]
    &&& splat.weights@ == seq![ZERO, ZERO, ZERO, ZERO]
    &&& splat.owner_id == 0
    &&& splat.last_visible_frame == 0
    &&& splat.flags == 0
    &&& splat.padding == 0
}

/// What a freed slot is overwritten with.
pub fn inactive_splat() -> (splat: AnimatedSplatGpu)
    ensures
        is_inactive(splat),
{
    AnimatedSplatGpu {
        position_and_confidence: [ZERO, ZERO, ZERO, ZERO],
        rotation: [ONE, ZERO, ZERO, ZERO],
        color: [ZERO, ZERO, ZERO, ZERO],
        joint_ids: [0, 0, 0, 0],
        weights: [ZERO, ZERO, ZERO, ZERO],
        owner_id: 0,
        last_visible_frame: 0,
        flags: 0,
        padding: 0,
    }
}

/// Whether `w` stores `splat` in slot `index`.
pub open spec fn stores_splat(w: BufferWrite, index: u32, splat: AnimatedSplatGpu) -> bool {
    &&& w.buffer == BufferId::DynamicSplats
    &&& w.offset == 96 * index
    &&& w.bytes@ == le::words_bytes(splat.words())
}

/// Whether `w` stores `dual_quat` as bone `index`.
pub open spec fn stores_bone(w: BufferWrite, index: u32, dual_quat: DualQuatGpu) -> bool {
    &&& w.buffer == BufferId::BonePalette
    &&& w.offset == 32 * index
    &&& w.bytes@ == le::words_bytes(dual_quat.words())
}

/// Whether `w` stores the projection shader's uniforms.
pub open spec fn stores_projection(w: BufferWrite, uniforms: ProjectionUniformsGpu) -> bool {
    &&& w.buffer == BufferId::ProjectionUniforms
    &&& w.offset == 0
    &&& w.bytes@ == le::words_bytes(uniforms.words())
}

/// Whether `w` stores the eviction shader's uniforms.
pub open spec fn stores_eviction(w: BufferWrite, uniforms: EvictionUniformsGpu) -> bool {
    &&& w.buffer == BufferId::EvictionUniforms
    &&& w.offset == 0
    &&& w.bytes@ == le::words_bytes(uniforms.words())
}

/// Whether `w` sets the count of the eviction list to zero.
pub open spec fn clears_evictions(w: BufferWrite) -> bool {
    &&& w.buffer == BufferId::EvictedTextures
    &&& w.offset == 0
    &&& w.bytes@ == le::words_bytes(seq![0u32])
}

/// A pipeline with room for `capacity` live splats.
#[derive(Debug)]
pub struct SplatPipeline {
    pub capacity: u32,
}

impl SplatPipeline {
    pub fn capacity(&self) -> (capacity: u32)
        ensures
            capacity == self.capacity,
    {
        self.capacity
    }

    /// Stores one splat in slot `index`; a slot past the capacity is skipped,
    /// with this line to log.
    pub fn write_splat(&self, index: u32, splat: &AnimatedSplatGpu) -> (r: Result<
        BufferWrite,
        String,
    >)
        ensures
            match r {
                Ok(w) => index < self.capacity && stores_splat(w, index, *splat) && w.fits(
                    self.capacity,
                ),
                Err(line) => index >= self.capacity && line@ == skipped_line(index, self.capacity),
            },
    {
        if index >= self.capacity {
            let mut line = "[pipeline] write_splat index ".to_string();
            text::push_decimal(&mut line, index as u128);
            line.append(" out of range (capacity ");
            text::push_decimal(&mut line, self.capacity as u128);
            line.append(") — skipped");
            return Err(line);
        }
        Ok(
            BufferWrite {
                buffer: BufferId::DynamicSplats,
                offset: 96 * index as u64,
                bytes: splat.to_bytes(),
            },
        )
    }

    /// Poses one bone; an index past the palette poses the last bone, with a
    /// line to log.
    pub fn write_bone(&self, index: u32, dual_quat: DualQuatGpu) -> (r: (
        BufferWrite,
        Option<String>,
    ))
        ensures
            stores_bone(
                r.0,
                if index >= MAX_BONES {
                    (MAX_BONES - 1) as u32
                } else {
                    index
                },
                dual_quat,
            ),
            r.0.fits(self.capacity),
            text::opt_string(r.1) == if index >= MAX_BONES {
                Some(clamped_line(index))
            } else {
                None
            },
    {
        let mut notice: Option<String> = None;
        let mut bone: u32 = index;
        if index >= MAX_BONES {
            let mut line = "[pipeline] write_bone index ".to_string();
            text::push_decimal(&mut line, index as u128);
            line.append(" >= ");
            text::push_decimal(&mut line, MAX_BONES as u128);
            line.append(" — clamped");
            notice = Some(line);
            bone = MAX_BONES - 1;
        }
        let write = BufferWrite {
            buffer: BufferId::BonePalette,
            offset: 32 * bone as u64,
            bytes: dual_quat.to_bytes(),
        };
        (write, notice)
    }

    /// Stores the projection uniforms. Whatever capacity the caller gave, the
    /// one that the buffers were made with is stored.
    pub fn set_projection_uniforms(&self, uniforms: ProjectionUniformsGpu) -> (w: BufferWrite)
        ensures
            stores_projection(
                w,
                ProjectionUniformsGpu { total_capacity: self.capacity, ..uniforms },
            ),
            w.fits(self.capacity),
    {
        let mut uniforms = uniforms;
        uniforms.total_capacity = self.capacity;
        BufferWrite {
            buffer: BufferId::ProjectionUniforms,
            offset: 0,
            bytes: uniforms.to_bytes(),
        }
    }

    /// What a tick stores before it is submitted: the eviction uniforms of this
    /// frame, and a zero over the count that the shader only ever adds to.
    pub fn tick(&self, current_frame: u32, absolute_max_age: u32) -> (writes: Vec<BufferWrite>)
        ensures
            writes@.len() == 2,
            stores_eviction(
                writes@[0],
                EvictionUniformsGpu {
                    total_capacity: self.capacity,
                    current_frame,
                    absolute_max_age,
                },
            ),
            clears_evictions(writes@[1]),
            writes@[0].fits(self.capacity),
            writes@[1].fits(self.capacity),
    {
        let uniforms = EvictionUniformsGpu::new(self.capacity, current_frame, absolute_max_age);
        let mut writes: Vec<BufferWrite> = Vec::new();
        writes.push(
            BufferWrite {
                buffer: BufferId::EvictionUniforms,
                offset: 0,
                bytes: uniforms.to_bytes(),
            },
        );
        writes.push(self.clear_evictions());
        writes
    }

    fn clear_evictions(&self) -> (w: BufferWrite)
        ensures
            clears_evictions(w),
            w.fits(self.capacity),
    {
        let zero: [u32; 1] = [0];
        assert(zero@ =~= seq![0u32]);
        BufferWrite {
            buffer: BufferId::EvictedTextures,
            offset: 0,
            bytes: le::encode_words(zero.as_slice()),
        }
    }

    /// Every slot of the projected output, given the bytes of that buffer.
    pub fn read_projected(&self, bytes: &[u8]) -> (projected: Vec<ProjectedSplatGpu>)
        requires
            bytes.len() >= buffer_bytes(BufferId::ProjectedOutput, self.capacity),
        ensures
            projected@.len() == self.capacity,
            forall|i: int|
                0 <= i < self.capacity ==> gpu_layout::is_projected_at(
                    #[trigger] projected@[i],
                    bytes@,
                    48 * i,
                ),
    {
        let mut projected: Vec<ProjectedSplatGpu> = Vec::new();
        let mut i: u32 = 0;
        while i < self.capacity
            invariant
                bytes.len() >= 48 * self.capacity,
                i <= self.capacity,
                projected@.len() == i,
                forall|j: int|
                    0 <= j < i ==> gpu_layout::is_projected_at(
                        #[trigger] projected@[j],
                        bytes@,
                        48 * j,
                    ),
            decreases self.capacity - i,
        {
            projected.push(ProjectedSplatGpu::from_bytes(bytes, 48 * i as usize));
            i += 1;
        }
        projected
    }

    /// How many layers the eviction list holds, given the bytes of that buffer.
    /// The shader counts evictions that found no room too, so the count is cut
    /// at the length of the list.
    pub fn evicted_texture_count(&self, bytes: &[u8]) -> (count: u32)
        requires
            bytes.len() >= 4,
        ensures
            count == if le::word_at(bytes@, 0) <= MAX_EVICTIONS_PER_FRAME {
                le::word_at(bytes@, 0)
            } else {
                MAX_EVICTIONS_PER_FRAME
            },
    {
        let count: u32 = le::read_word(bytes, 0);
        if count <= MAX_EVICTIONS_PER_FRAME {
            count
        } else {
            MAX_EVICTIONS_PER_FRAME
        }
    }
}

// ---------------------------------------------------------------------------
// the start-up check
// ---------------------------------------------------------------------------

/// The camera of the start-up check: identity pose, 800-pixel focal length,
/// centre (640, 360) of a 1280 by 720 screen, base scale 0.05.
pub open spec fn is_smoke_camera(uniforms: ProjectionUniformsGpu) -> bool {
    &&& gpu_layout::is_identity(uniforms.world_to_camera_dq)
    &&& uniforms.focal@ == seq![0x4448_0000u32, 0x4448_0000u32]
    &&& uniforms.principal@ == seq![0x4420_0000u32, 0x43b4_0000u32]
    &&& uniforms.screen_size@ == seq![0x44a0_0000u32, 0x4434_0000u32]
    &&& uniforms.base_splat_scale == 0x3d4c_cccd
    &&& uniforms.current_frame == 1
}

/// The splat of the start-up check: red, solid, two units in front of the
/// camera.
pub open spec fn is_smoke_splat(splat: AnimatedSplatGpu) -> bool {
    &&& splat.position_and_confidence@ == seq![ZERO, ZERO, 0x4000_0000u32, ONE]
    &&& splat.rotation@ == seq![ONE, ZERO, ZERO, ZERO]
    &&& splat.color@ == seq![ONE, ZERO, ZERO, ONE]
    &&& splat.joint_ids@ == seq![0u32, 0u32, 0u32, 0u32]
    &&& splat.weights@ == seq![ONE, ZERO, ZERO, ZERO]
    &&& splat.owner_id == 1
    &&& splat.last_visible_frame == 1
    &&& splat.flags == FLAG_ACTIVE
    &&& splat.padding == 255
}

/// Frame number of the start-up tick.
pub const SMOKE_FRAME: u32 = 1;

/// Frames after which an unseen splat is evicted.
pub const MAX_AGE: u32 = 600;

impl SplatPipeline {
    /// What the start-up check stores before it ticks: its camera, then its one
    /// splat in slot 0.
    pub fn smoke_writes(&self) -> (writes: Vec<BufferWrite>)
        ensures
            writes@.len() == if self.capacity == 0 {
                1int
            } else {
                2
            },
            exists|uniforms: ProjectionUniformsGpu|
                is_smoke_camera(uniforms) && uniforms.total_capacity == self.capacity
                    && stores_projection(writes@[0], uniforms),
            self.capacity > 0 ==> exists|splat: AnimatedSplatGpu|
                is_smoke_splat(splat) && stores_splat(writes@[1], 0, splat),
            forall|i: int|
                0 <= i < writes@.len() ==> (#[trigger] writes@[i]).fits(self.capacity),
    {
        let uniforms = ProjectionUniformsGpu::new(
            gpu_layout::identity_dual_quat(),
            [0x4448_0000, 0x4448_0000],
            [0x4420_0000, 0x43b4_0000],
            [0x44a0_0000, 0x4434_0000],
            0x3d4c_cccd,
            self.capacity,
            SMOKE_FRAME,
        );
        let splat = AnimatedSplatGpu {
            position_and_confidence: [ZERO, ZERO, 0x4000_0000, ONE],
            rotation: [ONE, ZERO, ZERO, ZERO],
            color: [ONE, ZERO, ZERO, ONE],
            joint_ids: [0, 0, 0, 0],
            weights: [ONE, ZERO, ZERO, ZERO],
            owner_id: 1,
            last_visible_frame: 1,
            flags: FLAG_ACTIVE,
            padding: 255,
        };
        let mut writes: Vec<BufferWrite> = Vec::new();
        writes.push(self.set_projection_uniforms(uniforms));
        assert(is_smoke_camera(uniforms));
        assert(is_smoke_splat(splat));
        match self.write_splat(0, &splat) {
            Ok(w) => {
                writes.push(w);
            },
            Err(_) => {},
        }
        writes
    }

    /// Judges the start-up tick by what was projected from slot 0. A depth
    /// under one means that the shader skipped the splat: the check fails. Else
    /// slot 0 is freed again.
    pub fn smoke_verdict(&self, projected: &[ProjectedSplatGpu]) -> (r: Result<
        BufferWrite,
        ProjectedSplatGpu,
    >)
        requires
            self.capacity > 0,
            projected.len() == self.capacity,
        ensures
            match r {
                Ok(w) => {
                    &&& !single::below_one(projected@[0].depth)
                    &&& exists|splat: AnimatedSplatGpu|
                        is_inactive(splat) && stores_splat(w, 0, splat)
                    &&& w.fits(self.capacity)
                },
                Err(p) => single::below_one(projected@[0].depth) && p == projected@[0],
            },
    {
        let p = projected[0];
        if single::is_below_one(p.depth) {
            return Err(p);
        }
        let free = inactive_splat();
        Ok(BufferWrite { buffer: BufferId::DynamicSplats, offset: 0, bytes: free.to_bytes() })
    }
}

// ---------------------------------------------------------------------------
// what is made, in which order
// ---------------------------------------------------------------------------

/// The two compute shaders, run in this order.
#[derive(Debug, Clone, Copy, PartialEq, Eq, Structural)]
pub enum Stage {
    Projection,
    Eviction,
}

/// The buffer bound at `binding` of a stage's descriptor set.
pub open spec fn bound_buffer(stage: Stage, binding: int) -> Option<BufferId> {
    match stage {
        Stage::Projection => if binding == 0 {
            Some(BufferId::ProjectionUniforms)
        } else if binding == 1 {
            Some(BufferId::BonePalette)
        } else if binding == 2 {
            Some(BufferId::DynamicSplats)
        } else if binding == 3 {
            Some(BufferId::ProjectedOutput)
        } else {
            None
        },
        Stage::Eviction => if binding == 0 {
            Some(BufferId::EvictionUniforms)
        } else if binding == 1 {
            Some(BufferId::DynamicSplats)
        } else if binding == 2 {
            Some(BufferId::EvictedTextures)
        } else {
            None
        },
    }
}

/// How many bindings a stage's set has.
pub open spec fn binding_count(stage: Stage) -> nat {
    match stage {
        Stage::Projection => 4,
        Stage::Eviction => 3,
    }
}

/// The buffers of a stage's descriptor set, by binding.
pub fn stage_bindings(stage: Stage) -> (buffers: Vec<BufferId>)
    ensures
        buffers@.len() == binding_count(stage),
        forall|i: int|
            0 <= i < buffers@.len() ==> bound_buffer(stage, i) == Some(#[trigger] buffers@[i]),
{
    let mut buffers: Vec<BufferId> = Vec::new();
    match stage {
        Stage::Projection => {
            buffers.push(BufferId::ProjectionUniforms);
            buffers.push(BufferId::BonePalette);
            buffers.push(BufferId::DynamicSplats);
            buffers.push(BufferId::ProjectedOutput);
        },
        Stage::Eviction => {
            buffers.push(BufferId::EvictionUniforms);
            buffers.push(BufferId::DynamicSplats);
            buffers.push(BufferId::EvictedTextures);
        },
    }
    buffers
}

pub fn buffer_usage(buffer: BufferId) -> (usage: BufferUsage)
    ensures
        usage == usage_of(buffer),
{
    match buffer {
        BufferId::ProjectionUniforms | BufferId::EvictionUniforms => BufferUsage::Uniform,
        _ => BufferUsage::Storage,
    }
}

/// What a new buffer holds before anything else is stored in it: every splat
/// slot is zero and so inactive, every bone is the identity, and the eviction
/// list is empty. The other three are left as they come.
pub open spec fn initial_bytes(buffer: BufferId, capacity: u32) -> Option<Seq<u8>> {
    match buffer {
        BufferId::DynamicSplats => Some(Seq::new(96 * capacity as nat, |i: int| 0u8)),
        BufferId::BonePalette => Some(
            le::words_bytes(
                Seq::new(
                    8 * MAX_BONES as nat,
                    |i: int|
                        if i % 8 == 0 {
                            ONE
                        } else {
                            ZERO
                        },
                ),
            ),
        ),
        BufferId::EvictedTextures => Some(le::words_bytes(seq![0u32])),
        _ => None,
    }
}

fn identity_palette() -> (bytes: Vec<u8>)
    ensures
        Some(bytes@) == initial_bytes(BufferId::BonePalette, 0),
{
    let mut words: Vec<u32> = Vec::new();
    let mut i: u32 = 0;
    while i < 8 * MAX_BONES
        invariant
            i <= 8 * MAX_BONES,
            words@ == Seq::new(
                i as nat,
                |j: int|
                    if j % 8 == 0 {
                        ONE
                    } else {
                        ZERO
                    },
            ),
        decreases 8 * MAX_BONES - i,
    {
        if i % 8 == 0 {
            words.push(ONE);
        } else {
            words.push(ZERO);
        }
        i += 1;
        assert(words@ =~= Seq::new(
            i as nat,
            |j: int|
                if j % 8 == 0 {
                    ONE
                } else {
                    ZERO
                },
        ));
    }
    le::encode_words(words.as_slice())
}

fn zeros(n: usize) -> (bytes: Vec<u8>)
    ensures
        bytes@ == Seq::new(n as nat, |i: int| 0u8),
{
    let mut bytes: Vec<u8> = Vec::new();
    while bytes.len() < n
        invariant
            bytes@.len() <= n,
            bytes@ == Seq::new(bytes@.len(), |i: int| 0u8),
        decreases n - bytes@.len(),
    {
        bytes.push(0);
        assert(bytes@ =~= Seq::new(bytes@.len(), |i: int| 0u8));
    }
    bytes
}

impl SplatPipeline {
    /// The write that prepares a new buffer, where it needs one.
    pub fn initial_write(&self, buffer: BufferId) -> (r: Option<BufferWrite>)
        requires
            96 * self.capacity <= usize::MAX,
        ensures
            match r {
                Some(w) => {
                    &&& initial_bytes(buffer, self.capacity) == Some(w.bytes@)
                    &&& w.buffer == buffer
                    &&& w.offset == 0
                    &&& w.fits(self.capacity)
                },
                None => initial_bytes(buffer, self.capacity) is None,
            },
    {
        match buffer {
            BufferId::DynamicSplats => {
                let bytes = zeros(96 * self.capacity as usize);
                Some(BufferWrite { buffer, offset: 0, bytes })
            },
            BufferId::BonePalette => {
                let bytes = identity_palette();
                Some(BufferWrite { buffer, offset: 0, bytes })
            },
            BufferId::EvictedTextures => Some(self.clear_evictions()),
            _ => None,
        }
    }
}

/// One device call of the set-up.
#[derive(Debug, Clone, Copy, PartialEq, Eq, Structural)]
pub enum PipelineCall {
    CreateBuffer { buffer: BufferId, size: u64, usage: BufferUsage },
    FillBuffer { buffer: BufferId },
    CreateSetLayout { stage: Stage },
    CreateShaderModule { stage: Stage },
    CreatePipelineLayout { stage: Stage },
    CreateComputePipeline { stage: Stage },
    DestroyShaderModule { stage: Stage },
    CreateDescriptorPool { uniform_buffers: u32, storage_buffers: u32, max_sets: u32 },
    AllocateDescriptorSets,
    BindBuffer { stage: Stage, binding: u32, buffer: BufferId, range: u64 },
    CreateCommandPool,
    AllocateCommandBuffer,
    RecordDispatch { workgroups: u32 },
    CreateFence,
}

/// Lanes of one work group in both shaders.
pub const GROUP_SIZE: u32 = 256;

pub open spec fn create_call(buffer: BufferId, capacity: u32) -> PipelineCall {
    PipelineCall::CreateBuffer {
        buffer,
        size: buffer_bytes(buffer, capacity) as u64,
        usage: usage_of(buffer),
    }
}

pub open spec fn bind_call(stage: Stage, binding: u32, capacity: u32) -> PipelineCall {
    PipelineCall::BindBuffer {
        stage,
        binding,
        buffer: bound_buffer(stage, binding as int)->0,
        range: buffer_bytes(bound_buffer(stage, binding as int)->0, capacity) as u64,
    }
}

/// The buffers, each filled right after it is made where it needs filling.
pub open spec fn buffer_calls(capacity: u32) -> Seq<PipelineCall> {
    seq![
        create_call(BufferId::DynamicSplats, capacity),
        PipelineCall::FillBuffer { buffer: BufferId::DynamicSplats },
        create_call(BufferId::BonePalette, capacity),
        PipelineCall::FillBuffer { buffer: BufferId::BonePalette },
        create_call(BufferId::ProjectedOutput, capacity),
        create_call(BufferId::ProjectionUniforms, capacity),
        create_call(BufferId::EvictionUniforms, capacity),
        create_call(BufferId::EvictedTextures, capacity),
        PipelineCall::FillBuffer { buffer: BufferId::EvictedTextures },
    ]
}

/// The pipeline of one stage; its shader module is not needed once it stands.
pub open spec fn stage_calls(stage: Stage) -> Seq<PipelineCall> {
    seq![
        PipelineCall::CreateSetLayout { stage },
        PipelineCall::CreateShaderModule { stage },
        PipelineCall::CreatePipelineLayout { stage },
        PipelineCall::CreateComputePipeline { stage },
        PipelineCall::DestroyShaderModule { stage },
    ]
}

/// The descriptor sets and what is bound in them.
pub open spec fn binding_calls(capacity: u32) -> Seq<PipelineCall> {
    seq![
        PipelineCall::CreateDescriptorPool { uniform_buffers: 2, storage_buffers: 5, max_sets: 2 },
        PipelineCall::AllocateDescriptorSets,
        bind_call(Stage::Projection, 0, capacity),
        bind_call(Stage::Projection, 1, capacity),
        bind_call(Stage::Projection, 2, capacity),
        bind_call(Stage::Projection, 3, capacity),
        bind_call(Stage::Eviction, 0, capacity),
        bind_call(Stage::Eviction, 1, capacity),
        bind_call(Stage::Eviction, 2, capacity),
    ]
}

/// The command buffer, recorded once, and the fence that a tick waits on.
pub open spec fn command_calls(workgroups: u32) -> Seq<PipelineCall> {
    seq![
        PipelineCall::CreateCommandPool,
        PipelineCall::AllocateCommandBuffer,
        PipelineCall::RecordDispatch { workgroups },
        PipelineCall::CreateFence,
    ]
}

/// Every call of the set-up, in order.
pub open spec fn setup_calls(capacity: u32, workgroups: u32) -> Seq<PipelineCall> {
    buffer_calls(capacity) + stage_calls(Stage::Projection) + stage_calls(Stage::Eviction)
        + binding_calls(capacity) + command_calls(workgroups)
}

fn push_create(calls: &mut Vec<PipelineCall>, buffer: BufferId, capacity: u32)
    ensures
        final(calls)@ == old(calls)@.push(create_call(buffer, capacity)),
{
    calls.push(
        PipelineCall::CreateBuffer {
            buffer,
            size: buffer_size(buffer, capacity),
            usage: buffer_usage(buffer),
        },
    );
}

fn push_stage(calls: &mut Vec<PipelineCall>, stage: Stage)
    ensures
        final(calls)@ == old(calls)@ + stage_calls(stage),
{
    calls.push(PipelineCall::CreateSetLayout { stage });
    calls.push(PipelineCall::CreateShaderModule { stage });
    calls.push(PipelineCall::CreatePipelineLayout { stage });
    calls.push(PipelineCall::CreateComputePipeline { stage });
    calls.push(PipelineCall::DestroyShaderModule { stage });
    assert(calls@ =~= old(calls)@ + stage_calls(stage));
}

fn push_bindings(calls: &mut Vec<PipelineCall>, stage: Stage, capacity: u32)
    ensures
        final(calls)@ == old(calls)@ + Seq::new(
            binding_count(stage),
            |i: int| bind_call(stage, i as u32, capacity),
        ),
{
    let buffers = stage_bindings(stage);
    let mut binding: u32 = 0;
    while (binding as usize) < buffers.len()
        invariant
            binding <= buffers@.len(),
            buffers@.len() == binding_count(stage),
            forall|i: int|
                0 <= i < buffers@.len() ==> bound_buffer(stage, i) == Some(#[trigger] buffers@[i]),
            calls@ == old(calls)@ + Seq::new(
                binding as nat,
                |i: int| bind_call(stage, i as u32, capacity),
            ),
        decreases buffers@.len() - binding,
    {
        let buffer = buffers[binding as usize];
        calls.push(
            PipelineCall::BindBuffer {
                stage,
                binding,
                buffer,
                range: buffer_size(buffer, capacity),
            },
        );
        binding += 1;
        assert(calls@ =~= old(calls)@ + Seq::new(
            binding as nat,
            |i: int| bind_call(stage, i as u32, capacity),
        ));
    }
}

impl SplatPipeline {
    /// A pipeline with room for `capacity` splats, and the device calls that
    /// set it up. The number of work groups recorded covers every slot.
    pub fn new(capacity: u32) -> (r: (SplatPipeline, Vec<PipelineCall>))
        ensures
            r.0.capacity == capacity,
            exists|workgroups: u32|
                {
                    &&& r.1@ == #[trigger] setup_calls(capacity, workgroups)
                    &&& workgroups * GROUP_SIZE >= capacity
                    &&& workgroups > 0 ==> (workgroups - 1) * GROUP_SIZE < capacity
                },
    {
        let mut calls: Vec<PipelineCall> = Vec::new();
        push_create(&mut calls, BufferId::DynamicSplats, capacity);
        calls.push(PipelineCall::FillBuffer { buffer: BufferId::DynamicSplats });
        push_create(&mut calls, BufferId::BonePalette, capacity);
        calls.push(PipelineCall::FillBuffer { buffer: BufferId::BonePalette });
        push_create(&mut calls, BufferId::ProjectedOutput, capacity);
        push_create(&mut calls, BufferId::ProjectionUniforms, capacity);
        push_create(&mut calls, BufferId::EvictionUniforms, capacity);
        push_create(&mut calls, BufferId::EvictedTextures, capacity);
        calls.push(PipelineCall::FillBuffer { buffer: BufferId::EvictedTextures });
        assert(calls@ =~= buffer_calls(capacity));
        push_stage(&mut calls, Stage::Projection);
        push_stage(&mut calls, Stage::Eviction);
        let ghost stages = calls@;
        calls.push(
            PipelineCall::CreateDescriptorPool {
                uniform_buffers: 2,
                storage_buffers: 5,
                max_sets: 2,
            },
        );
        calls.push(PipelineCall::AllocateDescriptorSets);
        push_bindings(&mut calls, Stage::Projection, capacity);
        push_bindings(&mut calls, Stage::Eviction, capacity);
        assert(calls@ =~= stages + binding_calls(capacity));
        let workgroups: u32 = workgroup_count(capacity, GROUP_SIZE);
        let ghost bound = calls@;
        calls.push(PipelineCall::CreateCommandPool);
        calls.push(PipelineCall::AllocateCommandBuffer);
        calls.push(PipelineCall::RecordDispatch { workgroups });
        calls.push(PipelineCall::CreateFence);
        assert(calls@ =~= bound + command_calls(workgroups));
        assert(calls@ =~= setup_calls(capacity, workgroups));
        (SplatPipeline { capacity }, calls)
    }
}

/// A device call that can fail, in the set-up or in a tick.
#[derive(Debug, Clone, Copy, PartialEq, Eq, Structural)]
pub enum PipelineFault {
    CreateBuffer,
    BindBufferMemory,
    MapMemory,
    CreateShaderModule,
    CreatePipelineLayout,
    CreateComputePipelines,
    CreateDescriptorPool,
    AllocateDescriptorSets,
    CreateCommandPool,
    AllocateCommandBuffers,
    BeginCommandBuffer,
    EndCommandBuffer,
    CreateFence,
    ResetFences,
    QueueSubmit,
    WaitForFences,
    AllocateMemory { bytes: u64 },
    CreateSetLayout { stage: Stage },
}

impl PipelineFault {
    /// The message for a failed call, given what the device reported.
    pub open spec fn message(self, detail: Seq<char>) -> Seq<char> {
        match self {
            PipelineFault::CreateBuffer => "vkCreateBuffer failed: "@ + detail,
            PipelineFault::BindBufferMemory => "vkBindBufferMemory failed: "@ + detail,
            PipelineFault::MapMemory => "vkMapMemory failed: "@ + detail,
            PipelineFault::CreateShaderModule => "vkCreateShaderModule failed: "@ + detail,
            PipelineFault::CreatePipelineLayout => "vkCreatePipelineLayout failed: "@ + detail,
            PipelineFault::CreateComputePipelines => "vkCreateComputePipelines failed: "@ + detail,
            PipelineFault::CreateDescriptorPool => "vkCreateDescriptorPool failed: "@ + detail,
            PipelineFault::AllocateDescriptorSets => "vkAllocateDescriptorSets failed: "@ + detail,
            PipelineFault::CreateCommandPool => "vkCreateCommandPool failed: "@ + detail,
            PipelineFault::AllocateCommandBuffers => "vkAllocateCommandBuffers failed: "@ + detail,
            PipelineFault::BeginCommandBuffer => "vkBeginCommandBuffer failed: "@ + detail,
            PipelineFault::EndCommandBuffer => "vkEndCommandBuffer failed: "@ + detail,
            PipelineFault::CreateFence => "vkCreateFence failed: "@ + detail,
            PipelineFault::ResetFences => "vkResetFences failed: "@ + detail,
            PipelineFault::QueueSubmit => "vkQueueSubmit failed: "@ + detail,
            PipelineFault::WaitForFences => "vkWaitForFences failed: "@ + detail,
            PipelineFault::AllocateMemory { bytes } => "vkAllocateMemory failed ("@
                + crate::text::decimal(bytes as nat) + " bytes): "@ + detail,
            PipelineFault::CreateSetLayout { stage: Stage::Projection } =>
                "vkCreateDescriptorSetLayout (projection) failed: "@ + detail,
            PipelineFault::CreateSetLayout { stage: Stage::Eviction } =>
                "vkCreateDescriptorSetLayout (eviction) failed: "@ + detail,
        }
    }

    pub fn failure(self, detail: &str) -> (r: String)
        ensures
            r@ == self.message(detail@),
    {
        let mut r = match self {
            PipelineFault::CreateBuffer => "vkCreateBuffer failed: ".to_string(),
            PipelineFault::BindBufferMemory => "vkBindBufferMemory failed: ".to_string(),
            PipelineFault::MapMemory => "vkMapMemory failed: ".to_string(),
            PipelineFault::CreateShaderModule => "vkCreateShaderModule failed: ".to_string(),
            PipelineFault::CreatePipelineLayout => "vkCreatePipelineLayout failed: ".to_string(),
            PipelineFault::CreateComputePipelines => "vkCreateComputePipelines failed: ".to_string(),
            PipelineFault::CreateDescriptorPool => "vkCreateDescriptorPool failed: ".to_string(),
            PipelineFault::AllocateDescriptorSets => "vkAllocateDescriptorSets failed: ".to_string(),
            PipelineFault::CreateCommandPool => "vkCreateCommandPool failed: ".to_string(),
            PipelineFault::AllocateCommandBuffers => "vkAllocateCommandBuffers failed: ".to_string(),
            PipelineFault::BeginCommandBuffer => "vkBeginCommandBuffer failed: ".to_string(),
            PipelineFault::EndCommandBuffer => "vkEndCommandBuffer failed: ".to_string(),
            PipelineFault::CreateFence => "vkCreateFence failed: ".to_string(),
            PipelineFault::ResetFences => "vkResetFences failed: ".to_string(),
            PipelineFault::QueueSubmit => "vkQueueSubmit failed: ".to_string(),
            PipelineFault::WaitForFences => "vkWaitForFences failed: ".to_string(),
            PipelineFault::AllocateMemory { bytes } => {
                let mut r = "vkAllocateMemory failed (".to_string();
                crate::text::push_decimal(&mut r, bytes as u128);
                r.append(" bytes): ");
                r
            },
            PipelineFault::CreateSetLayout { stage: Stage::Projection } =>
                "vkCreateDescriptorSetLayout (projection) failed: ".to_string(),
            PipelineFault::CreateSetLayout { stage: Stage::Eviction } =>
                "vkCreateDescriptorSetLayout (eviction) failed: ".to_string(),
        };
        r.append(detail);
        r
    }
}

/// The device calls of a tick, in order, once its writes are made. A tick that
/// fails stops at the call that failed.
pub fn tick_calls() -> (calls: Vec<PipelineFault>)
    ensures
        calls@ == seq![
            PipelineFault::ResetFences,
            PipelineFault::QueueSubmit,
            PipelineFault::WaitForFences,
        ],
{
    let mut calls: Vec<PipelineFault> = Vec::new();
    calls.push(PipelineFault::ResetFences);
    calls.push(PipelineFault::QueueSubmit);
    calls.push(PipelineFault::WaitForFences);
    calls
}

// ---------------------------------------------------------------------------
// the recorded commands
// ---------------------------------------------------------------------------

/// One command of the recorded tick.
#[derive(Debug, Clone, Copy, PartialEq, Eq, Structural)]
pub enum TickCommand {
    BindStage { stage: Stage },
    Dispatch { workgroups: u32 },
    Barrier,
}

/// Projection, then eviction. The eviction shader reads the frame numbers that
/// the projection shader has just written, so a barrier stands between them.
pub fn dispatch_commands(workgroups: u32) -> (commands: Vec<TickCommand>)
    ensures
        commands@ == seq![
            TickCommand::BindStage { stage: Stage::Projection },
            TickCommand::Dispatch { workgroups },
            TickCommand::Barrier,
            TickCommand::BindStage { stage: Stage::Eviction },
            TickCommand::Dispatch { workgroups },
        ],
{
    let mut commands: Vec<TickCommand> = Vec::new();
    commands.push(TickCommand::BindStage { stage: Stage::Projection });
    commands.push(TickCommand::Dispatch { workgroups });
    commands.push(TickCommand::Barrier);
    commands.push(TickCommand::BindStage { stage: Stage::Eviction });
    commands.push(TickCommand::Dispatch { workgroups });
    commands
}

// ---------------------------------------------------------------------------
// teardown
// ---------------------------------------------------------------------------

/// A device object that the pipeline owns.
#[derive(Debug, Clone, Copy, PartialEq, Eq, Structural)]
pub enum PipelineObject {
    Fence,
    CommandPool,
    DescriptorPool,
    Pipeline { stage: Stage },
    PipelineLayout { stage: Stage },
    SetLayout { stage: Stage },
    ShaderModule { stage: Stage },
    Buffer { buffer: BufferId },
}

/// What a call of the set-up makes.
pub open spec fn made_by(call: PipelineCall) -> Option<PipelineObject> {
    match call {
        PipelineCall::CreateBuffer { buffer, .. } => Some(PipelineObject::Buffer { buffer }),
        PipelineCall::CreateSetLayout { stage } => Some(PipelineObject::SetLayout { stage }),
        PipelineCall::CreateShaderModule { stage } => Some(
            PipelineObject::ShaderModule { stage },
        ),
        PipelineCall::CreatePipelineLayout { stage } => Some(
            PipelineObject::PipelineLayout { stage },
        ),
        PipelineCall::CreateComputePipeline { stage } => Some(
            PipelineObject::Pipeline { stage },
        ),
        PipelineCall::CreateDescriptorPool { .. } => Some(PipelineObject::DescriptorPool),
        PipelineCall::CreateCommandPool => Some(PipelineObject::CommandPool),
        PipelineCall::CreateFence => Some(PipelineObject::Fence),
        _ => None,
    }
}

/// The order in which the pipeline's objects are destroyed: what uses an object
/// goes before it.
pub open spec fn teardown_order() -> Seq<PipelineObject> {
    seq![
        PipelineObject::Fence,
        PipelineObject::CommandPool,
        PipelineObject::DescriptorPool,
        PipelineObject::Pipeline { stage: Stage::Projection },
        PipelineObject::PipelineLayout { stage: Stage::Projection },
        PipelineObject::SetLayout { stage: Stage::Projection },
        PipelineObject::Pipeline { stage: Stage::Eviction },
        PipelineObject::PipelineLayout { stage: Stage::Eviction },
        PipelineObject::SetLayout { stage: Stage::Eviction },
        PipelineObject::Buffer { buffer: BufferId::DynamicSplats },
        PipelineObject::Buffer { buffer: BufferId::BonePalette },
        PipelineObject::Buffer { buffer: BufferId::ProjectedOutput },
        PipelineObject::Buffer { buffer: BufferId::ProjectionUniforms },
        PipelineObject::Buffer { buffer: BufferId::EvictionUniforms },
        PipelineObject::Buffer { buffer: BufferId::EvictedTextures },
    ]
}

/// The objects to destroy, in order.
pub fn teardown() -> (objects: Vec<PipelineObject>)
    ensures
        objects@ == teardown_order(),
{
    let mut objects: Vec<PipelineObject> = Vec::new();
    objects.push(PipelineObject::Fence);
    objects.push(PipelineObject::CommandPool);
    objects.push(PipelineObject::DescriptorPool);
    objects.push(PipelineObject::Pipeline { stage: Stage::Projection });
    objects.push(PipelineObject::PipelineLayout { stage: Stage::Projection });
    objects.push(PipelineObject::SetLayout { stage: Stage::Projection });
    objects.push(PipelineObject::Pipeline { stage: Stage::Eviction });
    objects.push(PipelineObject::PipelineLayout { stage: Stage::Eviction });
    objects.push(PipelineObject::SetLayout { stage: Stage::Eviction });
    objects.push(PipelineObject::Buffer { buffer: BufferId::DynamicSplats });
    objects.push(PipelineObject::Buffer { buffer: BufferId::BonePalette });
    objects.push(PipelineObject::Buffer { buffer: BufferId::ProjectedOutput });
    objects.push(PipelineObject::Buffer { buffer: BufferId::ProjectionUniforms });
    objects.push(PipelineObject::Buffer { buffer: BufferId::EvictionUniforms });
    objects.push(PipelineObject::Buffer { buffer: BufferId::EvictedTextures });
    objects
}

// ---------------------------------------------------------------------------
// laws
// ---------------------------------------------------------------------------

/// Two slots share no byte of the buffer.
pub proof fn law_slots_are_apart(
    a: BufferWrite,
    i: u32,
    splat: AnimatedSplatGpu,
    b: BufferWrite,
    j: u32,
    other: AnimatedSplatGpu,
)
    requires
        stores_splat(a, i, splat),
        stores_splat(b, j, other),
        i < j,
    ensures
        a.buffer == b.buffer,
        a.offset + a.bytes@.len() <= b.offset,
{
    assert(splat.words().len() == 24);
}

/// What is bound was made before, at the size that is bound.
pub proof fn law_bound_buffers_were_made(capacity: u32, workgroups: u32, i: int)
    requires
        0 <= i < setup_calls(capacity, workgroups).len(),
    ensures
        setup_calls(capacity, workgroups)[i] matches PipelineCall::BindBuffer {
            stage,
            binding,
            buffer,
            range,
        } ==> {
            &&& bound_buffer(stage, binding as int) == Some(buffer)
            &&& exists|j: int|
                0 <= j < i && #[trigger] setup_calls(capacity, workgroups)[j]
                    == (PipelineCall::CreateBuffer { buffer, size: range, usage: usage_of(buffer) })
        },
{
    let calls = setup_calls(capacity, workgroups);
    if let PipelineCall::BindBuffer { stage, binding, buffer, range } = calls[i] {
        assert(calls[0] == create_call(BufferId::DynamicSplats, capacity));
        assert(calls[2] == create_call(BufferId::BonePalette, capacity));
        assert(calls[4] == create_call(BufferId::ProjectedOutput, capacity));
        assert(calls[5] == create_call(BufferId::ProjectionUniforms, capacity));
        assert(calls[6] == create_call(BufferId::EvictionUniforms, capacity));
        assert(calls[7] == create_call(BufferId::EvictedTextures, capacity));
    }
}

/// The descriptor pool has room for exactly the bindings of the two stages.
pub proof fn law_pool_matches_bindings(capacity: u32, workgroups: u32)
    ensures
        setup_calls(capacity, workgroups).contains(
            PipelineCall::CreateDescriptorPool {
                uniform_buffers: 2,
                storage_buffers: 5,
                max_sets: 2,
            },
        ),
        bindings_with(BufferUsage::Uniform) == 2,
        bindings_with(BufferUsage::Storage) == 5,
{
    let calls = setup_calls(capacity, workgroups);
    assert(calls[19] == (PipelineCall::CreateDescriptorPool {
        uniform_buffers: 2,
        storage_buffers: 5,
        max_sets: 2,
    }));
    reveal_with_fuel(bindings_from, 5);
}

/// How many bindings from `k` on of a stage hold a buffer of this usage.
pub open spec fn bindings_from(stage: Stage, usage: BufferUsage, k: int) -> nat
    decreases binding_count(stage) - k,
{
    if k >= binding_count(stage) {
        0
    } else {
        (if usage_of(bound_buffer(stage, k)->0) == usage {
            1nat
        } else {
            0nat
        }) + bindings_from(stage, usage, k + 1)
    }
}

/// How many bindings of both stages hold a buffer of this usage.
pub open spec fn bindings_with(usage: BufferUsage) -> nat {
    bindings_from(Stage::Projection, usage, 0) + bindings_from(Stage::Eviction, usage, 0)
}

/// Teardown destroys exactly what the set-up made and had not destroyed
/// itself, each object once.
pub proof fn law_teardown_is_complete(capacity: u32, workgroups: u32, object: PipelineObject)
    ensures
        teardown_order().contains(object) <==> (object !is ShaderModule && exists|i: int|
            0 <= i < setup_calls(capacity, workgroups).len() && made_by(
                #[trigger] setup_calls(capacity, workgroups)[i],
            ) == Some(object)),
        teardown_order().no_duplicates(),
        forall|stage: Stage| #[trigger]
            setup_calls(capacity, workgroups).contains(
                PipelineCall::DestroyShaderModule { stage },
            ),
{
    let calls = setup_calls(capacity, workgroups);
    let order = teardown_order();
    assert(made_by(calls[0]) == Some(order[9]));
    assert(made_by(calls[2]) == Some(order[10]));
    assert(made_by(calls[4]) == Some(order[11]));
    assert(made_by(calls[5]) == Some(order[12]));
    assert(made_by(calls[6]) == Some(order[13]));
    assert(made_by(calls[7]) == Some(order[14]));
    assert(made_by(calls[9]) == Some(order[5]));
    assert(made_by(calls[11]) == Some(order[4]));
    assert(made_by(calls[12]) == Some(order[3]));
    assert(made_by(calls[14]) == Some(order[8]));
    assert(made_by(calls[16]) == Some(order[7]));
    assert(made_by(calls[17]) == Some(order[6]));
    assert(made_by(calls[19]) == Some(order[2]));
    assert(made_by(calls[28]) == Some(order[1]));
    assert(made_by(calls[31]) == Some(order[0]));
    assert(calls[13] == (PipelineCall::DestroyShaderModule { stage: Stage::Projection }));
    assert(calls[18] == (PipelineCall::DestroyShaderModule { stage: Stage::Eviction }));
}

/// The set-up, call by call. The projection shader gets its uniforms, the bone
/// palette, the live splats and its output at bindings 0 to 3, the eviction
/// shader its uniforms, the live splats and the eviction list at bindings 0 to
/// 2, each buffer whole; the work groups are the fewest that cover every slot.
pub proof fn law_setup_is_laid_out(capacity: u32, r: (SplatPipeline, Vec<PipelineCall>))
    requires
        call_ensures(SplatPipeline::new, (capacity,), r),
    ensures
        r.0.capacity == capacity,
        r.1@ == seq![
            PipelineCall::CreateBuffer {
                buffer: BufferId::DynamicSplats,
                size: (96 * capacity) as u64,
                usage: BufferUsage::Storage,
            },
            PipelineCall::FillBuffer { buffer: BufferId::DynamicSplats },
            PipelineCall::CreateBuffer {
                buffer: BufferId::BonePalette,
                size: 2048,
                usage: BufferUsage::Storage,
            },
            PipelineCall::FillBuffer { buffer: BufferId::BonePalette },
            PipelineCall::CreateBuffer {
                buffer: BufferId::ProjectedOutput,
                size: (48 * capacity) as u64,
                usage: BufferUsage::Storage,
            },
            PipelineCall::CreateBuffer {
                buffer: BufferId::ProjectionUniforms,
                size: 80,
                usage: BufferUsage::Uniform,
            },
            PipelineCall::CreateBuffer {
                buffer: BufferId::EvictionUniforms,
                size: 16,
                usage: BufferUsage::Uniform,
            },
            PipelineCall::CreateBuffer {
                buffer: BufferId::EvictedTextures,
                size: 1028,
                usage: BufferUsage::Storage,
            },
            PipelineCall::FillBuffer { buffer: BufferId::EvictedTextures },
            PipelineCall::CreateSetLayout { stage: Stage::Projection },
            PipelineCall::CreateShaderModule { stage: Stage::Projection },
            PipelineCall::CreatePipelineLayout { stage: Stage::Projection },
            PipelineCall::CreateComputePipeline { stage: Stage::Projection },
            PipelineCall::DestroyShaderModule { stage: Stage::Projection },
            PipelineCall::CreateSetLayout { stage: Stage::Eviction },
            PipelineCall::CreateShaderModule { stage: Stage::Eviction },
            PipelineCall::CreatePipelineLayout { stage: Stage::Eviction },
            PipelineCall::CreateComputePipeline { stage: Stage::Eviction },
            PipelineCall::DestroyShaderModule { stage: Stage::Eviction },
            PipelineCall::CreateDescriptorPool {
                uniform_buffers: 2,
                storage_buffers: 5,
                max_sets: 2,
            },
            PipelineCall::AllocateDescriptorSets,
            PipelineCall::BindBuffer {
                stage: Stage::Projection,
                binding: 0,
                buffer: BufferId::ProjectionUniforms,
                range: 80,
            },
            PipelineCall::BindBuffer {
                stage: Stage::Projection,
                binding: 1,
                buffer: BufferId::BonePalette,
                range: 2048,
            },
            PipelineCall::BindBuffer {
                stage: Stage::Projection,
                binding: 2,
                buffer: BufferId::DynamicSplats,
                range: (96 * capacity) as u64,
            },
            PipelineCall::BindBuffer {
                stage: Stage::Projection,
                binding: 3,
                buffer: BufferId::ProjectedOutput,
                range: (48 * capacity) as u64,
            },
            PipelineCall::BindBuffer {
                stage: Stage::Eviction,
                binding: 0,
                buffer: BufferId::EvictionUniforms,
                range: 16,
            },
            PipelineCall::BindBuffer {
                stage: Stage::Eviction,
                binding: 1,
                buffer: BufferId::DynamicSplats,
                range: (96 * capacity) as u64,
            },
            PipelineCall::BindBuffer {
                stage: Stage::Eviction,
                binding: 2,
                buffer: BufferId::EvictedTextures,
                range: 1028,
            },
            PipelineCall::CreateCommandPool,
            PipelineCall::AllocateCommandBuffer,
            PipelineCall::RecordDispatch { workgroups: ((capacity + 255) / 256) as u32 },
            PipelineCall::CreateFence,
        ],
{
    let workgroups = choose|workgroups: u32|
        {
            &&& r.1@ == #[trigger] setup_calls(capacity, workgroups)
            &&& workgroups * GROUP_SIZE >= capacity
            &&& workgroups > 0 ==> (workgroups - 1) * GROUP_SIZE < capacity
        };
    assert(workgroups == (capacity + 255) / 256);
    assert(r.1@ == setup_calls(capacity, workgroups));
}

/// The buffers that the two shaders are given, by binding.
pub proof fn law_shaders_get_their_buffers(stage: Stage, buffers: Vec<BufferId>)
    requires
        call_ensures(stage_bindings, (stage,), buffers),
    ensures
        stage is Projection ==> buffers@ == seq![
            BufferId::ProjectionUniforms,
            BufferId::BonePalette,
            BufferId::DynamicSplats,
            BufferId::ProjectedOutput,
        ],
        stage is Eviction ==> buffers@ == seq![
            BufferId::EvictionUniforms,
            BufferId::DynamicSplats,
            BufferId::EvictedTextures,
        ],
{
    assert(bound_buffer(stage, 0) == Some(buffers@[0]));
    assert(bound_buffer(stage, 1) == Some(buffers@[1]));
    assert(bound_buffer(stage, 2) == Some(buffers@[2]));
    if stage is Projection {
        assert(bound_buffer(stage, 3) == Some(buffers@[3]));
    }
}

/// The fewest work groups that cover the lanes.
pub proof fn law_workgroups_cover(total: u32, group_size: u32, groups: u32)
    requires
        group_size > 0,
        call_ensures(workgroup_count, (total, group_size), groups),
    ensures
        groups == (total + group_size - 1) / (group_size as int),
{
    let g = group_size as int;
    let k = groups as int;
    if k == 0 {
        assert(total == 0);
        assert((g - 1) / g == 0) by (nonlinear_arith)
            requires
                g > 0,
        ;
    } else {
        let low = (k - 1) * g;
        assert((total + g - 1) / g == k) by (nonlinear_arith)
            requires
                g > 0,
                k * g >= total,
                (k - 1) * g < total,
        ;
    }
}

/// What the new buffers hold: splat slots of zeros, sixty-four bones that move
/// nothing, an eviction list without entries. The other three are not touched.
pub proof fn law_new_buffers_are_prepared(
    pipeline: &SplatPipeline,
    buffer: BufferId,
    r: Option<BufferWrite>,
    i: int,
    bone: int,
    k: int,
)
    requires
        call_ensures(SplatPipeline::initial_write, (pipeline, buffer), r),
    ensures
        r is Some <==> buffer is DynamicSplats || buffer is BonePalette
            || buffer is EvictedTextures,
        r matches Some(w) ==> w.buffer == buffer && w.offset == 0,
        buffer is DynamicSplats ==> r->0.bytes@.len() == 96 * pipeline.capacity,
        buffer is DynamicSplats && 0 <= i < 96 * pipeline.capacity ==> r->0.bytes@[i] == 0,
        buffer is BonePalette ==> r->0.bytes@.len() == 2048,
        buffer is BonePalette && 0 <= bone < 64 && 0 <= k < 8 ==> le::spelled_at(
            r->0.bytes@,
            32 * bone + 4 * k,
        ) == if k == 0 {
            0x3f80_0000int
        } else {
            0
        },
        buffer is EvictedTextures ==> r->0.bytes@ == seq![0u8, 0u8, 0u8, 0u8],
{
    if buffer is BonePalette {
        let words = Seq::new(
            8 * MAX_BONES as nat,
            |j: int|
                if j % 8 == 0 {
                    ONE
                } else {
                    ZERO
                },
        );
        assert(r->0.bytes@ == le::words_bytes(words));
        if 0 <= bone < 64 && 0 <= k < 8 {
            le::law_words_are_laid_out(words, 8 * bone + k);
            assert(4 * (8 * bone + k) == 32 * bone + 4 * k);
            assert((8 * bone + k) % 8 == k);
        }
    }
    if buffer is EvictedTextures {
        assert(r->0.bytes@ =~= seq![0u8, 0u8, 0u8, 0u8]);
    }
}

/// A splat goes to its own slot of the splat buffer when it has one, and is
/// skipped otherwise.
pub proof fn law_splats_go_to_their_slot(
    pipeline: &SplatPipeline,
    index: u32,
    splat: &AnimatedSplatGpu,
    r: Result<BufferWrite, String>,
    bytes: Vec<u8>,
)
    requires
        call_ensures(SplatPipeline::write_splat, (pipeline, index, splat), r),
        call_ensures(AnimatedSplatGpu::to_bytes, (splat,), bytes),
    ensures
        r is Ok <==> index < pipeline.capacity,
        r matches Ok(w) ==> w.buffer is DynamicSplats && w.offset == 96 * index && w.bytes@
            == bytes@,
{
}

/// A bone goes to its own place of the palette, and one past the palette to the
/// last place, with a line to log.
pub proof fn law_bones_go_to_their_place(
    pipeline: &SplatPipeline,
    index: u32,
    dual_quat: DualQuatGpu,
    r: (BufferWrite, Option<String>),
    bytes: Vec<u8>,
)
    requires
        call_ensures(SplatPipeline::write_bone, (pipeline, index, dual_quat), r),
        call_ensures(DualQuatGpu::to_bytes, (&dual_quat,), bytes),
    ensures
        r.0.buffer is BonePalette,
        index < 64 ==> r.0.offset == 32 * index && r.1 is None,
        index >= 64 ==> r.0.offset == 32 * 63 && r.1 is Some,
        r.0.bytes@ == bytes@,
{
}

/// The projection uniforms are stored as given, but for the capacity: that is
/// the pipeline's own.
pub proof fn law_projection_uniforms_are_stored(
    pipeline: &SplatPipeline,
    uniforms: ProjectionUniformsGpu,
    w: BufferWrite,
    c: int,
    k: int,
)
    requires
        call_ensures(SplatPipeline::set_projection_uniforms, (pipeline, uniforms), w),
        0 <= c < 4,
        0 <= k < 2,
    ensures
        w.buffer is ProjectionUniforms,
        w.offset == 0,
        w.bytes@.len() == 80,
        le::spelled_at(w.bytes@, 4 * c) == uniforms.world_to_camera_dq.real[c],
        le::spelled_at(w.bytes@, 16 + 4 * c) == uniforms.world_to_camera_dq.dual[c],
        le::spelled_at(w.bytes@, 32 + 4 * k) == uniforms.focal[k],
        le::spelled_at(w.bytes@, 40 + 4 * k) == uniforms.principal[k],
        le::spelled_at(w.bytes@, 48 + 4 * k) == uniforms.screen_size[k],
        le::spelled_at(w.bytes@, 56) == uniforms.base_splat_scale,
        le::spelled_at(w.bytes@, 60) == pipeline.capacity,
        le::spelled_at(w.bytes@, 64) == uniforms.current_frame,
{
    gpu_layout::law_projection_uniforms_layout(
        ProjectionUniformsGpu { total_capacity: pipeline.capacity, ..uniforms },
        c,
        k,
    );
}

/// A tick tells the eviction shader the capacity, this frame and the greatest
/// age, and empties the eviction list.
pub proof fn law_ticks_store_the_frame(
    pipeline: &SplatPipeline,
    current_frame: u32,
    absolute_max_age: u32,
    writes: Vec<BufferWrite>,
)
    requires
        call_ensures(SplatPipeline::tick, (pipeline, current_frame, absolute_max_age), writes),
    ensures
        writes@.len() == 2,
        writes@[0].buffer is EvictionUniforms,
        writes@[0].offset == 0,
        writes@[0].bytes@.len() == 16,
        le::spelled_at(writes@[0].bytes@, 0) == pipeline.capacity,
        le::spelled_at(writes@[0].bytes@, 4) == current_frame,
        le::spelled_at(writes@[0].bytes@, 8) == absolute_max_age,
        le::spelled_at(writes@[0].bytes@, 12) == 0,
        writes@[1].buffer is EvictedTextures,
        writes@[1].offset == 0,
        writes@[1].bytes@ == seq![0u8, 0u8, 0u8, 0u8],
{
    gpu_layout::law_eviction_uniforms_layout(
        EvictionUniformsGpu { total_capacity: pipeline.capacity, current_frame, absolute_max_age },
    );
    assert(writes@[1].bytes@ =~= seq![0u8, 0u8, 0u8, 0u8]);
}

/// Slot `i` of the projected output is read from its own forty-eight bytes.
pub proof fn law_projected_slots_are_read_in_place(
    pipeline: &SplatPipeline,
    bytes: &[u8],
    projected: Vec<ProjectedSplatGpu>,
    i: int,
    k: int,
    c: int,
)
    requires
        call_ensures(SplatPipeline::read_projected, (pipeline, bytes), projected),
        0 <= i < pipeline.capacity,
        0 <= k < 2,
        0 <= c < 4,
    ensures
        projected@.len() == pipeline.capacity,
        projected@[i].screen_center[k] == le::spelled_at(bytes@, 48 * i + 4 * k),
        projected@[i].radius_pixels == le::spelled_at(bytes@, 48 * i + 8),
        projected@[i].depth == le::spelled_at(bytes@, 48 * i + 12),
        projected@[i].splat_id == le::spelled_at(bytes@, 48 * i + 16),
        projected@[i].color[c] == le::spelled_at(bytes@, 48 * i + 32 + 4 * c),
{
    let p = projected@[i];
    assert(gpu_layout::is_projected_at(p, bytes@, 48 * i));
    assert(p.screen_center@[k] == le::word_at(bytes@, 48 * i + 4 * k));
    assert(p.color@[c] == le::word_at(bytes@, 48 * i + 32 + 4 * c));
}

/// The number of evictions is the first word of the list, but no more than the
/// list has room for.
pub proof fn law_eviction_count_is_cut(pipeline: &SplatPipeline, bytes: &[u8], count: u32)
    requires
        call_ensures(SplatPipeline::evicted_texture_count, (pipeline, bytes), count),
    ensures
        count <= 256,
        le::spelled_at(bytes@, 0) <= 256 ==> count == le::spelled_at(bytes@, 0),
        le::spelled_at(bytes@, 0) > 256 ==> count == 256,
{
}

/// The start-up check stores its camera and, where there is a slot, a red solid
/// splat two units in front of it.
pub proof fn law_smoke_check_stores(pipeline: &SplatPipeline, writes: Vec<BufferWrite>, c: int)
    requires
        call_ensures(SplatPipeline::smoke_writes, (pipeline,), writes),
        0 <= c < 4,
    ensures
        writes@.len() == if pipeline.capacity == 0 {
            1int
        } else {
            2
        },
        ({
            let bytes = writes@[0].bytes@;
            &&& writes@[0].buffer is ProjectionUniforms
            &&& writes@[0].offset == 0
            &&& bytes.len() == 80
            &&& le::spelled_at(bytes, 4 * c) == if c == 0 {
                0x3f80_0000int
            } else {
                0
            }
            &&& le::spelled_at(bytes, 16 + 4 * c) == 0
            &&& le::spelled_at(bytes, 32) == 0x4448_0000
            &&& le::spelled_at(bytes, 36) == 0x4448_0000
            &&& le::spelled_at(bytes, 40) == 0x4420_0000
            &&& le::spelled_at(bytes, 44) == 0x43b4_0000
            &&& le::spelled_at(bytes, 48) == 0x44a0_0000
            &&& le::spelled_at(bytes, 52) == 0x4434_0000
            &&& le::spelled_at(bytes, 56) == 0x3d4c_cccd
            &&& le::spelled_at(bytes, 60) == pipeline.capacity
            &&& le::spelled_at(bytes, 64) == 1
        }),
        pipeline.capacity > 0 ==> ({
            let bytes = writes@[1].bytes@;
            &&& writes@[1].buffer is DynamicSplats
            &&& writes@[1].offset == 0
            &&& bytes.len() == 96
            &&& le::spelled_at(bytes, 4 * c) == if c < 2 {
                0int
            } else if c == 2 {
                0x4000_0000
            } else {
                0x3f80_0000
            }
            &&& le::spelled_at(bytes, 16 + 4 * c) == if c == 0 {
                0x3f80_0000int
            } else {
                0
            }
            &&& le::spelled_at(bytes, 32 + 4 * c) == if c == 0 || c == 3 {
                0x3f80_0000int
            } else {
                0
            }
            &&& le::spelled_at(bytes, 48 + 4 * c) == 0
            &&& le::spelled_at(bytes, 64 + 4 * c) == if c == 0 {
                0x3f80_0000int
            } else {
                0
            }
            &&& le::spelled_at(bytes, 80) == 1
            &&& le::spelled_at(bytes, 84) == 1
            &&& le::spelled_at(bytes, 88) == 1
            &&& le::spelled_at(bytes, 92) == 255
        }),
{
    let uniforms = choose|uniforms: ProjectionUniformsGpu|
        is_smoke_camera(uniforms) && uniforms.total_capacity == pipeline.capacity
            && stores_projection(writes@[0], uniforms);
    gpu_layout::law_projection_uniforms_layout(uniforms, c, 0);
    gpu_layout::law_projection_uniforms_layout(uniforms, c, 1);
    let dq = uniforms.world_to_camera_dq;
    assert(dq.real@[c] == if c == 0 {
        ONE
    } else {
        ZERO
    });
    assert(dq.dual@[c] == ZERO);
    assert(uniforms.focal@[0] == 0x4448_0000 && uniforms.focal@[1] == 0x4448_0000);
    assert(uniforms.principal@[0] == 0x4420_0000 && uniforms.principal@[1] == 0x43b4_0000);
    assert(uniforms.screen_size@[0] == 0x44a0_0000 && uniforms.screen_size@[1] == 0x4434_0000);
    if pipeline.capacity > 0 {
        let splat = choose|splat: AnimatedSplatGpu|
            is_smoke_splat(splat) && stores_splat(writes@[1], 0, splat);
        gpu_layout::law_animated_splat_layout(splat, c);
        assert(splat.position_and_confidence@[c] == seq![ZERO, ZERO, 0x4000_0000u32, ONE][c]);
        assert(splat.rotation@[c] == seq![ONE, ZERO, ZERO, ZERO][c]);
        assert(splat.color@[c] == seq![ONE, ZERO, ZERO, ONE][c]);
        assert(splat.joint_ids@[c] == 0);
        assert(splat.weights@[c] == seq![ONE, ZERO, ZERO, ZERO][c]);
    }
}

/// The start-up check fails with the projected splat when its depth is under
/// one: any negative number and the positive ones up to one, but not
/// not-a-number. Otherwise slot 0 is overwritten with a slot that is not active.
pub proof fn law_smoke_check_judges_the_depth(
    pipeline: &SplatPipeline,
    projected: &[ProjectedSplatGpu],
    r: Result<BufferWrite, ProjectedSplatGpu>,
)
    requires
        call_ensures(SplatPipeline::smoke_verdict, (pipeline, projected), r),
    ensures
        r is Err <==> projected@[0].depth < 0x3f80_0000 || 0x8000_0000 <= projected@[0].depth
            <= 0xff80_0000,
        r matches Err(p) ==> p == projected@[0],
        r matches Ok(w) ==> w.buffer is DynamicSplats && w.offset == 0 && w.bytes@.len() == 96
            && le::spelled_at(w.bytes@, 88) == 0,
{
    if let Ok(w) = r {
        let splat = choose|splat: AnimatedSplatGpu|
            is_inactive(splat) && stores_splat(w, 0, splat);
        gpu_layout::law_animated_splat_layout(splat, 0);
    }
}

/// Every word of a module is spelled by its own four bytes, and either all
/// words are read least significant byte first or all most significant first;
/// the first one shows which.
pub proof fn law_shader_words_are_spelled(bytes: &[u8], r: Result<Vec<u32>, String>, i: int)
    requires
        call_ensures(shader_code, (bytes,), r),
    ensures
        r matches Ok(words) ==> {
            &&& 4 * words@.len() == bytes@.len()
            &&& words@.len() > 0
            &&& words@[0] == 0x0723_0203
            &&& 0 <= i < words@.len() && bytes@[0] == 0x03 ==> words@[i] == le::spelled_at(
                bytes@,
                4 * i,
            )
            &&& 0 <= i < words@.len() && bytes@[0] != 0x03 ==> words@[i] == 0x100_0000
                * bytes@[4 * i] + 0x1_0000 * bytes@[4 * i + 1] + 0x100 * bytes@[4 * i + 2]
                + bytes@[4 * i + 3]
        },
        r is Err ==> bytes@.len() % 4 != 0 || bytes@.len() == 0 || bytes@.take(4) != seq![
            0x03u8,
            0x02u8,
            0x23u8,
            0x07u8,
        ],
{
    if bytes@.len() >= 4 && bytes@.take(4) == seq![0x03u8, 0x02u8, 0x23u8, 0x07u8] {
        assert(bytes@.take(4)[0] == 3 && bytes@.take(4)[1] == 2);
        assert(bytes@.take(4)[2] == 0x23 && bytes@.take(4)[3] == 7);
    }
}

/// A tick resets the fence, submits and waits, in this order; what it submits
/// runs projection and eviction over the same lanes with a barrier between.
pub proof fn law_ticks_run_in_order(
    calls: Vec<PipelineFault>,
    workgroups: u32,
    commands: Vec<TickCommand>,
)
    requires
        call_ensures(tick_calls, (), calls),
        call_ensures(dispatch_commands, (workgroups,), commands),
    ensures
        calls@.len() == 3,
        calls@[0] is ResetFences,
        calls@[1] is QueueSubmit,
        calls@[2] is WaitForFences,
        commands@.len() == 5,
        commands@[0] == (TickCommand::BindStage { stage: Stage::Projection }),
        commands@[2] is Barrier,
        commands@[3] == (TickCommand::BindStage { stage: Stage::Eviction }),
        commands@[1] == commands@[4],
        commands@[1] == (TickCommand::Dispatch { workgroups }),
{
}

/// Teardown destroys an object only after everything that uses it: a pipeline
/// before its layout, that before its set layout, the descriptor pool before
/// the set layouts, and the buffers last.
pub proof fn law_teardown_goes_by_use(objects: Vec<PipelineObject>, a: int, b: int)
    requires
        call_ensures(teardown, (), objects),
        0 <= a < objects@.len(),
        0 <= b < objects@.len(),
        match (objects@[a], objects@[b]) {
            (PipelineObject::Pipeline { stage: s }, PipelineObject::PipelineLayout { stage: t }) => s
                == t,
            (PipelineObject::PipelineLayout { stage: s }, PipelineObject::SetLayout { stage: t }) => s
                == t,
            (PipelineObject::DescriptorPool, PipelineObject::SetLayout { .. }) => true,
            (PipelineObject::Buffer { .. }, PipelineObject::Buffer { .. }) => false,
            (_, PipelineObject::Buffer { .. }) => true,
            _ => false,
        },
    ensures
        a < b,
{
}

/// The memory of a buffer is of an allowed type that the host sees, without
/// having to flush what it writes, and of the first such type.
pub proof fn law_buffers_are_host_memory(
    types: &[u32],
    type_bits: u32,
    r: Result<u32, String>,
    j: int,
)
    requires
        call_ensures(buffer_memory_type, (types, type_bits), r),
    ensures
        r matches Ok(i) ==> i < types@.len() && type_bits & (1u32 << i) != 0 && types@[i as int] & 6
            == 6,
        0 <= j < types@.len() && (r is Err || j < r->Ok_0) ==> type_bits & (1u32 << (j as u32)) == 0
            || types@[j] & 6 != 6,
{
    match r {
        Ok(i) => {
            if 0 <= j < i {
                assert(!vulkan::memory_type_fits(types@, type_bits, 6, j));
            }
        },
        Err(_) => {
            assert(!vulkan::memory_type_fits(types@, type_bits, 6, j));
        },
    }
}

/// The message for a failed call names the call and ends with what the device
/// reported.
pub proof fn law_failures_name_their_call(fault: PipelineFault, detail: &str, r: String)
    requires
        call_ensures(PipelineFault::failure, (fault, detail), r),
    ensures
        r@ == match fault {
            PipelineFault::CreateBuffer => "vkCreateBuffer failed: "@ + detail@,
            PipelineFault::BindBufferMemory => "vkBindBufferMemory failed: "@ + detail@,
            PipelineFault::MapMemory => "vkMapMemory failed: "@ + detail@,
            PipelineFault::CreateShaderModule => "vkCreateShaderModule failed: "@ + detail@,
            PipelineFault::CreatePipelineLayout => "vkCreatePipelineLayout failed: "@ + detail@,
            PipelineFault::CreateComputePipelines => "vkCreateComputePipelines failed: "@ + detail@,
            PipelineFault::CreateDescriptorPool => "vkCreateDescriptorPool failed: "@ + detail@,
            PipelineFault::AllocateDescriptorSets => "vkAllocateDescriptorSets failed: "@ + detail@,
            PipelineFault::CreateCommandPool => "vkCreateCommandPool failed: "@ + detail@,
            PipelineFault::AllocateCommandBuffers => "vkAllocateCommandBuffers failed: "@ + detail@,
            PipelineFault::BeginCommandBuffer => "vkBeginCommandBuffer failed: "@ + detail@,
            PipelineFault::EndCommandBuffer => "vkEndCommandBuffer failed: "@ + detail@,
            PipelineFault::CreateFence => "vkCreateFence failed: "@ + detail@,
            PipelineFault::ResetFences => "vkResetFences failed: "@ + detail@,
            PipelineFault::QueueSubmit => "vkQueueSubmit failed: "@ + detail@,
            PipelineFault::WaitForFences => "vkWaitForFences failed: "@ + detail@,
            PipelineFault::AllocateMemory { bytes } => "vkAllocateMemory failed ("@
                + crate::text::decimal(bytes as nat) + " bytes): "@ + detail@,
            PipelineFault::CreateSetLayout { stage: Stage::Projection } =>
                "vkCreateDescriptorSetLayout (projection) failed: "@ + detail@,
            PipelineFault::CreateSetLayout { stage: Stage::Eviction } =>
                "vkCreateDescriptorSetLayout (eviction) failed: "@ + detail@,
        },
{
}

/// A splat without a slot and a bone past the palette are logged by their
/// number and the limit.
pub proof fn law_out_of_range_is_logged(
    pipeline: &SplatPipeline,
    index: u32,
    splat: &AnimatedSplatGpu,
    r: Result<BufferWrite, String>,
    dual_quat: DualQuatGpu,
    posed: (BufferWrite, Option<String>),
)
    requires
        call_ensures(SplatPipeline::write_splat, (pipeline, index, splat), r),
        call_ensures(SplatPipeline::write_bone, (pipeline, index, dual_quat), posed),
    ensures
        r matches Err(line) ==> line@ == "[pipeline] write_splat index "@ + text::decimal(
            index as nat,
        ) + " out of range (capacity "@ + text::decimal(pipeline.capacity as nat) + ") — skipped"@,
        posed.1 matches Some(line) ==> line@ == "[pipeline] write_bone index "@ + text::decimal(
            index as nat,
        ) + " >= "@ + text::decimal(64) + " — clamped"@,
{
}

} // verus!
