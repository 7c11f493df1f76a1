//! Wires proposals to the Control and Presence actors, and hands out slots of
//! the live splat buffer.
//!
//! Slots are handed out by bumping a cursor and never handed out again: the
//! slots of a retired artifact are marked inactive, not reused.

use crate::actors::control;
use crate::actors::gpu_layout;
use crate::actors::presence;
use crate::actors::presence::{LivePresence, SpawnSource};
use crate::actors::scene_memory::{CanonicalCloud, GaussianSplat, SkinningWeights};
use crate::actors::{ControlActor, PresenceActor, SceneMemory};
use crate::bytes as le;
use crate::named_map::NamedMap;
use crate::pipeline;
use crate::pipeline::{BufferWrite, SplatPipeline};
use crate::single;
use crate::text;
use vstd::prelude::*;
use vstd::string::*;

verus! {

/// The slots `start .. start + count`.
#[derive(Debug, Clone, Copy, PartialEq, Eq, Structural)]
pub struct GpuRange {
    pub start: u32,
    pub count: u32,
}

/// What the device has to do: store these, then tick if a frame is given.
/// `skipped` holds a line to log for each slot that it does not have.
#[derive(Debug)]
pub struct GpuWork {
    pub writes: Vec<BufferWrite>,
    pub tick: Option<u32>,
    pub skipped: Vec<String>,
}

impl GpuWork {
    /// Nothing to store, no tick and nothing to log.
    pub open spec fn is_empty(&self) -> bool {
        self.writes@.len() == 0 && self.tick is None && self.skipped@.len() == 0
    }

    pub fn nothing() -> (work: Self)
        ensures
            work.is_empty(),
    {
        GpuWork { writes: Vec::new(), tick: None, skipped: Vec::new() }
    }
}

/// What became of an ingested cloud on the device.
#[derive(Debug, Clone, Copy, PartialEq, Eq, Structural)]
pub enum Upload {
    /// The cloud is empty.
    Empty,
    /// No slot was free: the artifact is held in Scene Memory only.
    BufferFull,
    /// This many splats were stored from slot `start` on.
    Stored { start: u32, count: u32 },
}

/// What is logged when a cloud finds no slot free.
pub open spec fn full_line(artifact_id: Seq<char>) -> Seq<char> {
    "[registry] GPU buffer full — "@ + artifact_id + " held in Scene Memory only"@
}

/// What is logged when only the first `count` of `len` splats are stored.
pub open spec fn truncated_line(
    artifact_id: Seq<char>,
    len: usize,
    count: u32,
    capacity: u32,
) -> Seq<char> {
    "[registry] "@ + artifact_id + ": truncated "@ + text::decimal(len as nat) + " -> "@
        + text::decimal(count as nat) + " splats (capacity "@ + text::decimal(capacity as nat)
        + ")"@
}

/// What is logged once a cloud is on the device.
pub open spec fn uploaded_line(artifact_id: Seq<char>, count: u32, start: u32) -> Seq<char> {
    "[registry] uploaded "@ + text::decimal(count as nat) + " splats for "@ + artifact_id
        + " at slot "@ + text::decimal(start as nat)
}

/// How the line starts that is logged when the device fails after an ingest.
pub open spec fn ingest_failure(artifact_id: Seq<char>) -> Seq<char> {
    "[registry] tick after ingest "@ + artifact_id + ": "@
}

/// How the line starts that is logged when the device fails after a retirement.
pub open spec fn retire_failure(artifact_id: Seq<char>) -> Seq<char> {
    "[registry] tick after retire "@ + artifact_id + ": "@
}

/// What is warned of when a cloud of `len` splats is uploaded.
pub open spec fn upload_warning(
    artifact_id: Seq<char>,
    len: usize,
    capacity: u32,
    next_slot: u32,
) -> Option<Seq<char>> {
    let count = stored_count(len, capacity, next_slot);
    if len == 0 {
        None
    } else if next_slot >= capacity {
        Some(full_line(artifact_id))
    } else if count < len as u32 {
        Some(truncated_line(artifact_id, len, count, capacity))
    } else {
        None
    }
}

/// What is logged of such an upload once the device has done its work.
pub open spec fn upload_done(
    artifact_id: Seq<char>,
    len: usize,
    capacity: u32,
    next_slot: u32,
) -> Option<Seq<char>> {
    if len == 0 || next_slot >= capacity {
        None
    } else {
        Some(uploaded_line(artifact_id, stored_count(len, capacity, next_slot), next_slot))
    }
}

/// The lines to log of an upload of `len` splats that came to this: the
/// warning, and what follows once the device has done its work.
pub fn upload_notices(artifact_id: &str, len: usize, capacity: u32, upload: Upload) -> (lines: (
    Option<String>,
    Option<String>,
))
    ensures
        forall|next_slot: u32|
            upload == #[trigger] upload_outcome(len, capacity, next_slot) ==> {
                &&& text::opt_string(lines.0) == upload_warning(
                    artifact_id@,
                    len,
                    capacity,
                    next_slot,
                )
                &&& text::opt_string(lines.1) == upload_done(
                    artifact_id@,
                    len,
                    capacity,
                    next_slot,
                )
            },
{
    match upload {
        Upload::Empty => (None, None),
        Upload::BufferFull => {
            let mut line = "[registry] GPU buffer full — ".to_string();
            line.append(artifact_id);
            line.append(" held in Scene Memory only");
            (Some(line), None)
        },
        Upload::Stored { start, count } => {
            let warning = if count < len as u32 {
                let mut line = "[registry] ".to_string();
                line.append(artifact_id);
                line.append(": truncated ");
                text::push_decimal(&mut line, len as u128);
                line.append(" -> ");
                text::push_decimal(&mut line, count as u128);
                line.append(" splats (capacity ");
                text::push_decimal(&mut line, capacity as u128);
                line.append(")");
                Some(line)
            } else {
                None
            };
            let mut line = "[registry] uploaded ".to_string();
            text::push_decimal(&mut line, count as u128);
            line.append(" splats for ");
            line.append(artifact_id);
            line.append(" at slot ");
            text::push_decimal(&mut line, start as u128);
            (warning, Some(line))
        },
    }
}

/// What an upload of `len` splats comes to.
pub open spec fn upload_outcome(len: usize, capacity: u32, next_slot: u32) -> Upload {
    if len == 0 {
        Upload::Empty
    } else if next_slot >= capacity {
        Upload::BufferFull
    } else {
        Upload::Stored { start: next_slot, count: stored_count(len, capacity, next_slot) }
    }
}

/// Whether two ranges share no slot.
pub open spec fn apart(a: GpuRange, b: GpuRange) -> bool {
    a.start + a.count <= b.start || b.start + b.count <= a.start
}

pub struct RegistryModel {
    pub memory: Map<Seq<char>, CanonicalCloud>,
    pub live: Map<Seq<char>, LivePresence>,
    pub next_slot: u32,
    pub next_owner: u32,
    pub frame: u32,
    pub ranges: Map<Seq<char>, GpuRange>,
}

impl RegistryModel {
    /// Every range lies below the cursor, and no two share a slot.
    pub open spec fn wf(&self) -> bool {
        &&& forall|id: Seq<char>| #[trigger]
            self.ranges.dom().contains(id) ==> self.ranges[id].start + self.ranges[id].count
                <= self.next_slot
        &&& forall|a: Seq<char>, b: Seq<char>| #[trigger]
            self.ranges.dom().contains(a) && #[trigger] self.ranges.dom().contains(b) && a != b
                ==> apart(self.ranges[a], self.ranges[b])
    }
}

/// How many of `len` splats go into a buffer of this capacity, with the cursor
/// at `next_slot`. The length is counted in 32 bits.
pub open spec fn stored_count(len: usize, capacity: u32, next_slot: u32) -> u32 {
    let room = if capacity > next_slot {
        (capacity - next_slot) as u32
    } else {
        0u32
    };
    if len as u32 <= room {
        len as u32
    } else {
        room
    }
}

/// Whether `work` stores the first `count` splats of a cloud from `start` on.
pub open spec fn stores_cloud(
    work: GpuWork,
    cloud: CanonicalCloud,
    start: u32,
    count: u32,
    owner: u32,
    frame: u32,
) -> bool {
    &&& work.writes@.len() == count
    &&& forall|i: int|
        0 <= i < count ==> stored_at(
            #[trigger] work.writes@[i],
            cloud,
            i,
            (start + i) as u32,
            owner,
            frame,
        )
    &&& work.tick == Some(frame)
    &&& work.skipped@.len() == 0
}

/// The skinning of splat `i`, where the cloud has any.
pub open spec fn skin_of(cloud: CanonicalCloud, i: int) -> Option<SkinningWeights> {
    match cloud.skinning {
        Some(all) => if i < all@.len() {
            Some(all@[i])
        } else {
            None
        },
        None => None,
    }
}

/// Whether `w` stores splat `i` of the cloud in `slot`, at full density.
pub open spec fn stored_at(
    w: BufferWrite,
    cloud: CanonicalCloud,
    i: int,
    slot: u32,
    owner: u32,
    frame: u32,
) -> bool {
    exists|gpu: gpu_layout::AnimatedSplatGpu|
        gpu_layout::is_gpu_splat(gpu, cloud.splats@[i], skin_of(cloud, i), owner, frame, 255)
            && #[trigger] pipeline::stores_splat(w, slot, gpu)
}

/// Whether `w` frees `slot`.
pub open spec fn frees_slot(w: BufferWrite, slot: u32) -> bool {
    exists|gpu: gpu_layout::AnimatedSplatGpu|
        pipeline::is_inactive(gpu) && #[trigger] pipeline::stores_splat(w, slot, gpu)
}

/// Whether an upload of `cloud` takes `before` to `after`, with this outcome
/// and this work.
pub open spec fn uploaded(
    before: RegistryModel,
    after: RegistryModel,
    id: Seq<char>,
    cloud: CanonicalCloud,
    capacity: u32,
    outcome: Upload,
    work: GpuWork,
) -> bool {
    let count = stored_count(cloud.splats.len(), capacity, before.next_slot);
    if cloud.splats@.len() == 0 {
        &&& outcome == Upload::Empty
        &&& work.is_empty()
        &&& after.next_slot == before.next_slot
        &&& after.next_owner == before.next_owner
        &&& after.frame == before.frame
        &&& after.ranges == before.ranges
    } else if before.next_slot >= capacity {
        &&& outcome == Upload::BufferFull
        &&& work.is_empty()
        &&& after.next_slot == before.next_slot
        &&& after.next_owner == before.next_owner
        &&& after.frame == before.frame
        &&& after.ranges == before.ranges
    } else {
        &&& outcome == (Upload::Stored { start: before.next_slot, count })
        &&& stores_cloud(work, cloud, before.next_slot, count, before.next_owner, after.frame)
        &&& after.next_slot == before.next_slot + count
        &&& after.next_owner == if before.next_owner == u32::MAX {
            0
        } else {
            before.next_owner + 1
        }
        &&& after.frame == if before.frame == u32::MAX {
            u32::MAX as int
        } else {
            before.frame + 1
        }
        &&& after.ranges == before.ranges.insert(id, GpuRange { start: before.next_slot, count })
    }
}

/// Whether freeing the slots of `id` takes `before` to `after` with this work.
/// Slots past the capacity are skipped, each with its line.
pub open spec fn deactivated(
    before: RegistryModel,
    after: RegistryModel,
    id: Seq<char>,
    capacity: u32,
    work: GpuWork,
) -> bool {
    &&& after.next_slot == before.next_slot
    &&& after.next_owner == before.next_owner
    &&& after.ranges == before.ranges.remove(id)
    &&& if before.ranges.contains_key(id) {
        let range = before.ranges[id];
        let stored = if range.start + range.count <= capacity {
            range.count as int
        } else if range.start < capacity {
            capacity - range.start
        } else {
            0
        };
        &&& work.writes@.len() == stored
        &&& forall|i: int|
            0 <= i < stored ==> frees_slot(#[trigger] work.writes@[i], (range.start + i) as u32)
        &&& work.skipped@.len() == range.count - stored
        &&& forall|i: int|
            0 <= i < range.count - stored ==> (#[trigger] work.skipped@[i])@
                == pipeline::skipped_line((range.start + stored + i) as u32, capacity)
        &&& after.frame == if before.frame == u32::MAX {
            u32::MAX as int
        } else {
            before.frame + 1
        }
        &&& work.tick == Some(after.frame)
    } else {
        work.is_empty() && after.frame == before.frame
    }
}

/// What is logged of a highlight.
pub open spec fn highlight_line(
    device_name: Seq<char>,
    description: Seq<char>,
    duration_secs: u32,
) -> Seq<char> {
    "[registry] highlightRegion on "@ + device_name + ": \""@ + description + "\" for "@
        + text::decimal(duration_secs as nat) + "s"@
}

pub struct Registry {
    memory: SceneMemory,
    control: ControlActor,
    presence: PresenceActor,
    next_slot: u32,
    next_owner: u32,
    frame: u32,
    gpu_ranges: NamedMap<GpuRange>,
}

impl View for Registry {
    type V = RegistryModel;

    closed spec fn view(&self) -> RegistryModel {
        RegistryModel {
            memory: self.memory@,
            live: self.presence@,
            next_slot: self.next_slot,
            next_owner: self.next_owner,
            frame: self.frame,
            ranges: self.gpu_ranges@,
        }
    }
}

impl Registry {
    pub fn new() -> (registry: Self)
        ensures
            registry@.wf(),
            registry@.memory == Map::<Seq<char>, CanonicalCloud>::empty(),
            registry@.live == Map::<Seq<char>, LivePresence>::empty(),
            registry@.next_slot == 0,
            registry@.next_owner == 1,
            registry@.frame == 1,
            registry@.ranges == Map::<Seq<char>, GpuRange>::empty(),
    {
        Registry {
            memory: SceneMemory::new(),
            control: ControlActor::new(),
            presence: PresenceActor::new(),
            next_slot: 0,
            next_owner: 1,
            frame: 1,
            gpu_ranges: NamedMap::new(),
        }
    }

    /// Acknowledges a highlight: the line to log. Nothing is drawn.
    pub fn highlight_region(
        &self,
        device_name: &str,
        description: &str,
        duration_secs: u32,
    ) -> (line: String)
        ensures
            line@ == highlight_line(device_name@, description@, duration_secs),
    {
        let mut line = "[registry] highlightRegion on ".to_string();
        line.append(device_name);
        line.append(": \"");
        line.append(description);
        line.append("\" for ");
        text::push_decimal(&mut line, duration_secs as u128);
        line.append("s");
        line
    }

    pub fn spawn_presence(
        &mut self,
        presence_id: &str,
        source_context: &str,
        style_hint: Option<&str>,
        artifact_id: Option<&str>,
    ) -> (source: SpawnSource)
        requires
            old(self)@.wf(),
        ensures
            final(self)@.wf(),
            final(self)@ == (RegistryModel { live: final(self)@.live, ..old(self)@ }),
            final(self)@.live == old(self)@.live.insert(
                presence_id@,
                final(self)@.live[presence_id@],
            ),
            final(self)@.live[presence_id@].is_spawned(
                source_context@,
                text::opt_str(style_hint),
                text::opt_str(artifact_id),
            ),
            source == match artifact_id {
                None => SpawnSource::ContextOnly,
                Some(id) => if old(self)@.memory.contains_key(id@) {
                    SpawnSource::Artifact { splats: old(self)@.memory[id@].splats.len() }
                } else {
                    SpawnSource::UnknownArtifact
                },
            },
    {
        self.presence.spawn(&self.memory, presence_id, source_context, style_hint, artifact_id)
    }

    pub fn animate_presence(&mut self, presence_id: &str, text: &str) -> (r: Result<(), String>)
        requires
            old(self)@.wf(),
        ensures
            final(self)@.wf(),
            final(self)@ == (RegistryModel { live: final(self)@.live, ..old(self)@ }),
            match r {
                Ok(_) => {
                    &&& old(self)@.live.contains_key(presence_id@)
                    &&& final(self)@.live == old(self)@.live.insert(
                        presence_id@,
                        final(self)@.live[presence_id@],
                    )
                    &&& final(self)@.live[presence_id@].is_posed(
                        old(self)@.live[presence_id@],
                        presence::rest_pose(
                            presence::pose_dim(
                                old(self)@.live[presence_id@].current_pose.params@.len(),
                            ),
                        ),
                    )
                },
                Err(message) => {
                    &&& !old(self)@.live.contains_key(presence_id@)
                    &&& final(self)@.live == old(self)@.live
                    &&& message@ == presence::unknown_presence(presence_id@)
                },
            },
    {
        let r = self.presence.animate(presence_id, text);
        assert(self@.ranges == old(self)@.ranges && self@.next_slot == old(self)@.next_slot);
        r
    }

    /// The line to log of a live presence that is about to be posed by a text.
    pub fn pose_notice(&self, presence_id: &str, text: &str) -> (line: Option<String>)
        ensures
            text::opt_string(line) == if self@.live.contains_key(presence_id@) {
                Some(
                    presence::pose_line(
                        presence_id@,
                        text@,
                        presence::pose_dim(
                            self@.live[presence_id@].current_pose.params@.len(),
                        ),
                    ),
                )
            } else {
                None
            },
    {
        self.presence.pose_notice(presence_id, text)
    }

    pub fn retire_presence(&mut self, presence_id: &str) -> (r: Result<(), String>)
        requires
            old(self)@.wf(),
        ensures
            final(self)@.wf(),
            final(self)@ == (RegistryModel {
                live: old(self)@.live.remove(presence_id@),
                ..old(self)@
            }),
            match r {
                Ok(_) => old(self)@.live.contains_key(presence_id@),
                Err(message) => !old(self)@.live.contains_key(presence_id@) && message@
                    == presence::unknown_presence(presence_id@),
            },
    {
        let r = self.presence.retire(presence_id);
        assert(self@.live =~= old(self)@.live.remove(presence_id@));
        r
    }

    /// The line to log of an artifact that is about to be added, and whether it
    /// is a warning.
    pub fn ingest_notice(
        &self,
        artifact_id: &str,
        description: &str,
        source_uri: Option<&str>,
        loaded: &Result<Vec<GaussianSplat>, String>,
    ) -> (notice: (bool, String))
        ensures
            (notice.0, notice.1@) == control::ingest_line(
                artifact_id@,
                description@,
                text::opt_str(source_uri),
                *loaded,
            ),
    {
        self.control.ingest_notice(artifact_id, description, source_uri, loaded)
    }

    /// Holds an artifact and stores as much of its cloud as there is room for.
    /// `loaded` is what reading `source_uri` gave.
    pub fn add_artifact(
        &mut self,
        artifact_id: &str,
        description: &str,
        source_uri: Option<&str>,
        loaded: Result<Vec<GaussianSplat>, String>,
        pipeline: &SplatPipeline,
    ) -> (r: (Upload, GpuWork))
        requires
            old(self)@.wf(),
        ensures
            final(self)@.wf(),
            final(self)@.live == old(self)@.live,
            final(self)@.memory == old(self)@.memory.insert(
                artifact_id@,
                final(self)@.memory[artifact_id@],
            ),
            control::is_ingested(
                final(self)@.memory[artifact_id@],
                description@,
                text::opt_str(source_uri),
                loaded,
            ),
            uploaded(
                old(self)@,
                final(self)@,
                artifact_id@,
                final(self)@.memory[artifact_id@],
                pipeline.capacity,
                r.0,
                r.1,
            ),
    {
        self.control.ingest_artifact(
            &mut self.memory,
            artifact_id,
            description,
            source_uri,
            loaded,
        );
        self.upload_artifact(artifact_id, pipeline)
    }

    /// Frees the slots of an artifact and lets go of it. The slots are freed
    /// even when Scene Memory no longer holds it.
    pub fn retire_artifact(&mut self, artifact_id: &str, pipeline: &SplatPipeline) -> (r: (
        Result<(), String>,
        GpuWork,
    ))
        requires
            old(self)@.wf(),
        ensures
            final(self)@.wf(),
            final(self)@.live == old(self)@.live,
            final(self)@.memory == old(self)@.memory.remove(artifact_id@),
            deactivated(old(self)@, final(self)@, artifact_id@, pipeline.capacity, r.1),
            match r.0 {
                Ok(_) => old(self)@.memory.contains_key(artifact_id@),
                Err(message) => !old(self)@.memory.contains_key(artifact_id@) && message@
                    == control::unknown_artifact(artifact_id@),
            },
    {
        let work = self.deactivate_artifact(artifact_id, pipeline);
        let result = self.control.retire_artifact(&mut self.memory, artifact_id);
        (result, work)
    }

    fn upload_artifact(&mut self, artifact_id: &str, pipeline: &SplatPipeline) -> (r: (
        Upload,
        GpuWork,
    ))
        requires
            old(self)@.wf(),
            old(self)@.memory.contains_key(artifact_id@),
        ensures
            final(self)@.wf(),
            final(self)@.live == old(self)@.live,
            final(self)@.memory == old(self)@.memory,
            uploaded(
                old(self)@,
                final(self)@,
                artifact_id@,
                old(self)@.memory[artifact_id@],
                pipeline.capacity,
                r.0,
                r.1,
            ),
    {
        let start: u32 = self.next_slot;
        let owner: u32 = self.next_owner;
        let frame: u32 = self.frame.saturating_add(1);
        let capacity: u32 = pipeline.capacity();
        let ghost held = self@.memory[artifact_id@];
        let mut writes: Vec<BufferWrite> = Vec::new();
        let mut count: u32 = 0;
        if let Some(cloud) = self.memory.get(artifact_id) {
            if cloud.splats.len() == 0 {
                return (Upload::Empty, GpuWork::nothing());
            }
            if capacity <= start {
                return (Upload::BufferFull, GpuWork::nothing());
            }
            let room: u32 = capacity - start;
            let len: u32 = cloud.splats.len() as u32;
            count = if len <= room {
                len
            } else {
                room
            };
            assert(count <= cloud.splats.len()) by {
                lemma_truncation(cloud.splats.len());
            }
            let mut i: u32 = 0;
            while i < count
                invariant
                    i <= count,
                    count <= cloud.splats.len(),
                    start + count <= capacity,
                    capacity == pipeline.capacity,
                    writes@.len() == i,
                    forall|j: int|
                        0 <= j < i ==> stored_at(
                            #[trigger] writes@[j],
                            *cloud,
                            j,
                            (start + j) as u32,
                            owner,
                            frame,
                        ),
                decreases count - i,
            {
                let skin = match &cloud.skinning {
                    Some(all) => if (i as usize) < all.len() {
                        Some(&all[i as usize])
                    } else {
                        None
                    },
                    None => None,
                };
                let gpu = gpu_layout::to_gpu_splat(
                    &cloud.splats[i as usize],
                    skin,
                    owner,
                    frame,
                    255,
                );
                match pipeline.write_splat(start + i, &gpu) {
                    Ok(w) => {
                        assert(stored_at(w, *cloud, i as int, (start + i) as u32, owner, frame));
                        writes.push(w);
                    },
                    Err(_) => {},
                }
                i += 1;
            }
        }
        self.next_owner = self.next_owner.wrapping_add(1);
        self.frame = frame;
        self.next_slot = start + count;
        self.gpu_ranges.insert(artifact_id, GpuRange { start, count });
        proof {
            lemma_bump_keeps_wf(old(self)@, self@, artifact_id@, GpuRange { start, count });
        }
        (
            Upload::Stored { start, count },
            GpuWork { writes, tick: Some(frame), skipped: Vec::new() },
        )
    }

    fn deactivate_artifact(&mut self, artifact_id: &str, pipeline: &SplatPipeline) -> (work:
        GpuWork)
        requires
            old(self)@.wf(),
        ensures
            final(self)@.wf(),
            final(self)@.live == old(self)@.live,
            final(self)@.memory == old(self)@.memory,
            deactivated(old(self)@, final(self)@, artifact_id@, pipeline.capacity, work),
    {
        let removed = self.gpu_ranges.remove(artifact_id);
        proof {
            lemma_remove_keeps_wf(old(self)@, self@, artifact_id@);
        }
        let range = match removed {
            Some(range) => {
                assert(old(self)@.ranges.dom().contains(artifact_id@));
                range
            },
            None => {
                return GpuWork::nothing();
            },
        };
        let free = pipeline::inactive_splat();
        let mut writes: Vec<BufferWrite> = Vec::new();
        let mut skipped: Vec<String> = Vec::new();
        let mut i: u32 = 0;
        while i < range.count
            invariant
                i <= range.count,
                range.start + range.count <= u32::MAX,
                pipeline::is_inactive(free),
                writes@.len() == if range.start + i <= pipeline.capacity {
                    i as int
                } else if range.start < pipeline.capacity {
                    pipeline.capacity - range.start
                } else {
                    0
                },
                forall|j: int|
                    0 <= j < writes@.len() ==> frees_slot(
                        #[trigger] writes@[j],
                        (range.start + j) as u32,
                    ),
                skipped@.len() == i - writes@.len(),
                forall|j: int|
                    0 <= j < skipped@.len() ==> (#[trigger] skipped@[j])@
                        == pipeline::skipped_line(
                        (range.start + writes@.len() + j) as u32,
                        pipeline.capacity,
                    ),
            decreases range.count - i,
        {
            match pipeline.write_splat(range.start + i, &free) {
                Ok(w) => {
                    assert(frees_slot(w, (range.start + i) as u32));
                    writes.push(w);
                },
                Err(line) => {
                    skipped.push(line);
                },
            }
            i += 1;
        }
        self.frame = self.frame.saturating_add(1);
        GpuWork { writes, tick: Some(self.frame), skipped }
    }
}

proof fn lemma_bump_keeps_wf(
    before: RegistryModel,
    after: RegistryModel,
    id: Seq<char>,
    range: GpuRange,
)
    requires
        before.wf(),
        range.start == before.next_slot,
        after.next_slot == range.start + range.count,
        after.ranges == before.ranges.insert(id, range),
    ensures
        after.wf(),
{
    assert forall|k: Seq<char>| #[trigger] after.ranges.dom().contains(k) implies after.ranges[k].start
        + after.ranges[k].count <= after.next_slot by {
        if k != id {
            assert(before.ranges.dom().contains(k));
        }
    }
    assert forall|a: Seq<char>, b: Seq<char>| #[trigger]
        after.ranges.dom().contains(a) && #[trigger] after.ranges.dom().contains(b) && a
            != b implies apart(after.ranges[a], after.ranges[b]) by {
        if a != id {
            assert(before.ranges.dom().contains(a));
        }
        if b != id {
            assert(before.ranges.dom().contains(b));
        }
    }
}

proof fn lemma_remove_keeps_wf(before: RegistryModel, after: RegistryModel, id: Seq<char>)
    requires
        before.wf(),
        after.next_slot == before.next_slot,
        after.ranges == before.ranges.remove(id),
    ensures
        after.wf(),
{
    assert forall|k: Seq<char>| #[trigger] after.ranges.dom().contains(k) implies after.ranges[k].start
        + after.ranges[k].count <= after.next_slot by {
        assert(before.ranges.dom().contains(k));
    }
    assert forall|a: Seq<char>, b: Seq<char>| #[trigger]
        after.ranges.dom().contains(a) && #[trigger] after.ranges.dom().contains(b) && a
            != b implies apart(after.ranges[a], after.ranges[b]) by {
        assert(before.ranges.dom().contains(a));
        assert(before.ranges.dom().contains(b));
    }
}

/// A length counted in 32 bits is no more than the length.
proof fn lemma_truncation(len: usize)
    ensures
        len as u32 <= len,
{
    assert(len as u32 <= len) by (bit_vector);
}

// ---------------------------------------------------------------------------
// laws
// ---------------------------------------------------------------------------

/// Retiring an artifact right after it was added leaves Scene Memory and the
/// ranges as they were before, and frees exactly the slots that were stored.
pub proof fn law_retire_undoes_add(
    before: RegistryModel,
    added: RegistryModel,
    retired: RegistryModel,
    id: Seq<char>,
    cloud: CanonicalCloud,
    capacity: u32,
    outcome: Upload,
    stored: GpuWork,
    freed: GpuWork,
)
    requires
        before.wf(),
        !before.memory.contains_key(id),
        !before.ranges.contains_key(id),
        added.memory == before.memory.insert(id, cloud),
        uploaded(before, added, id, cloud, capacity, outcome, stored),
        retired.memory == added.memory.remove(id),
        deactivated(added, retired, id, capacity, freed),
    ensures
        retired.memory == before.memory,
        retired.ranges == before.ranges,
        freed.writes@.len() == stored.writes@.len(),
        forall|i: int|
            0 <= i < freed.writes@.len() ==> {
                &&& (#[trigger] freed.writes@[i]).offset == stored.writes@[i].offset
                &&& frees_slot(freed.writes@[i], (before.next_slot + i) as u32)
            },
{
    assert(retired.memory =~= before.memory);
    assert(retired.ranges =~= before.ranges);
    if outcome is Stored {
        let count = stored_count(cloud.splats.len(), capacity, before.next_slot);
        assert(added.ranges[id] == (GpuRange { start: before.next_slot, count }));
        assert forall|i: int| 0 <= i < freed.writes@.len() implies (#[trigger] freed.writes@[i]).offset
            == stored.writes@[i].offset && frees_slot(
            freed.writes@[i],
            (before.next_slot + i) as u32,
        ) by {
            assert(stored_at(
                stored.writes@[i],
                cloud,
                i,
                (before.next_slot + i) as u32,
                before.next_owner,
                added.frame,
            ));
        }
    }
}

/// The cursor never passes the capacity it is used with, and never goes back:
/// a slot that was handed out is not handed out again.
pub proof fn law_slots_are_handed_out_once(
    before: RegistryModel,
    after: RegistryModel,
    id: Seq<char>,
    cloud: CanonicalCloud,
    capacity: u32,
    outcome: Upload,
    work: GpuWork,
)
    requires
        before.wf(),
        uploaded(before, after, id, cloud, capacity, outcome, work),
    ensures
        before.next_slot <= after.next_slot,
        before.next_slot <= capacity ==> after.next_slot <= capacity,
        outcome matches Upload::Stored { start, count } ==> start + count <= capacity && forall|
            other: Seq<char>,
        | #[trigger]
            before.ranges.dom().contains(other) ==> apart(
                before.ranges[other],
                GpuRange { start, count },
            ),
{
}

/// An artifact whose source did not load is held all the same, and takes no
/// slot.
pub proof fn law_failed_load_is_held_empty(
    before: RegistryModel,
    after: RegistryModel,
    id: Seq<char>,
    description: Seq<char>,
    source_uri: Option<Seq<char>>,
    reason: String,
    capacity: u32,
    outcome: Upload,
    work: GpuWork,
)
    requires
        after.memory == before.memory.insert(id, after.memory[id]),
        control::is_ingested(after.memory[id], description, source_uri, Err(reason)),
        uploaded(before, after, id, after.memory[id], capacity, outcome, work),
    ensures
        after.memory.contains_key(id),
        after.memory[id].splats@.len() == 0,
        outcome == Upload::Empty,
        work.is_empty(),
        after.ranges == before.ranges,
{
    assert(before.memory.insert(id, after.memory[id]).contains_key(id));
}

/// An upload stores splat `i` of the cloud in slot `next_slot + i` and keeps
/// it: position, rotation and color word for word, its own skinning (or bone 0
/// alone), the owner and frame of this upload, active and at full density.
pub proof fn law_uploads_keep_the_splats(
    before: RegistryModel,
    after: RegistryModel,
    id: Seq<char>,
    cloud: CanonicalCloud,
    capacity: u32,
    outcome: Upload,
    work: GpuWork,
    i: int,
    c: int,
)
    requires
        uploaded(before, after, id, cloud, capacity, outcome, work),
        0 <= i < work.writes@.len(),
        0 <= c < 4,
    ensures
        i < cloud.splats@.len(),
        work.writes@[i].buffer is DynamicSplats,
        work.writes@[i].offset == 96 * (before.next_slot + i),
        work.writes@[i].bytes@.len() == 96,
        c < 3 ==> le::spelled_at(work.writes@[i].bytes@, 4 * c) == cloud.splats@[i].position[c],
        c == 3 ==> le::spelled_at(work.writes@[i].bytes@, 4 * c) == 0x3f80_0000,
        le::spelled_at(work.writes@[i].bytes@, 16 + 4 * c) == cloud.splats@[i].rotation[c],
        le::spelled_at(work.writes@[i].bytes@, 32 + 4 * c) == cloud.splats@[i].color[c],
        cloud.skinning is Some && i < cloud.skinning->0@.len() ==> le::spelled_at(
            work.writes@[i].bytes@,
            48 + 4 * c,
        ) == cloud.skinning->0@[i].bone_indices[c] && le::spelled_at(
            work.writes@[i].bytes@,
            64 + 4 * c,
        ) == cloud.skinning->0@[i].bone_weights[c],
        cloud.skinning is None ==> le::spelled_at(work.writes@[i].bytes@, 48 + 4 * c) == 0
            && le::spelled_at(work.writes@[i].bytes@, 64 + 4 * c) == if c == 0 {
            0x3f80_0000int
        } else {
            0
        },
        le::spelled_at(work.writes@[i].bytes@, 80) == before.next_owner,
        le::spelled_at(work.writes@[i].bytes@, 84) == after.frame,
        le::spelled_at(work.writes@[i].bytes@, 88) == 1,
        le::spelled_at(work.writes@[i].bytes@, 92) == 255,
        work.tick == Some(after.frame),
{
    let w = work.writes@[i];
    let start = before.next_slot;
    let slot = (start + i) as u32;
    lemma_truncation(cloud.splats.len());
    assert(stored_at(w, cloud, i, slot, before.next_owner, after.frame));
    let gpu = choose|gpu: gpu_layout::AnimatedSplatGpu|
        gpu_layout::is_gpu_splat(
            gpu,
            cloud.splats@[i],
            skin_of(cloud, i),
            before.next_owner,
            after.frame,
            255,
        ) && #[trigger] pipeline::stores_splat(w, slot, gpu);
    gpu_layout::law_animated_splat_layout(gpu, c);
    let splat = cloud.splats@[i];
    if c < 3 {
        assert(gpu.position_and_confidence@[c] == splat.position@[c]);
    } else {
        assert(gpu.position_and_confidence@[3] == splat.position@.push(single::ONE)[3]);
    }
    if let Some(all) = cloud.skinning {
        if i < all@.len() {
            assert(gpu.joint_ids@[c] == all@[i].bone_indices@[c]);
            assert(gpu.weights@[c] == all@[i].bone_weights@[c]);
        }
    } else {
        assert(gpu.joint_ids@[c] == 0);
        assert(gpu.weights@[c] == seq![
            single::ONE,
            single::ZERO,
            single::ZERO,
            single::ZERO,
        ][c]);
    }
}

/// Adding an artifact whose source loaded holds its splats as they were loaded,
/// and stores as many as there are free slots, the first ones, each in the next
/// slot and word for word.
pub proof fn law_added_artifacts_are_stored(
    registry: &mut Registry,
    artifact_id: &str,
    description: &str,
    source_uri: &str,
    splats: Vec<GaussianSplat>,
    pipeline: &SplatPipeline,
    r: (Upload, GpuWork),
    i: int,
    c: int,
)
    requires
        call_ensures(
            Registry::add_artifact,
            (registry, artifact_id, description, Some(source_uri), Ok(splats), pipeline),
            r,
        ),
        splats@.len() <= u32::MAX,
        0 <= c < 4,
    ensures
        final(registry)@.live == old(registry)@.live,
        final(registry)@.memory.contains_key(artifact_id@),
        final(registry)@.memory[artifact_id@].description@ == description@,
        final(registry)@.memory[artifact_id@].source_uri is Some,
        final(registry)@.memory[artifact_id@].source_uri->0@ == source_uri@,
        final(registry)@.memory[artifact_id@].splats@ == splats@,
        final(registry)@.memory[artifact_id@].skinning is None,
        forall|other: Seq<char>| #[trigger]
            final(registry)@.memory.contains_key(other) && other != artifact_id@
                ==> old(registry)@.memory.contains_key(other) && final(registry)@.memory[other]
                == old(registry)@.memory[other],
        forall|other: Seq<char>| #[trigger]
            old(registry)@.memory.contains_key(other) ==> final(registry)@.memory.contains_key(
                other,
            ),
        old(registry)@.next_slot < pipeline.capacity ==> r.1.writes@.len() == if splats@.len()
            <= pipeline.capacity - old(registry)@.next_slot {
            splats@.len() as int
        } else {
            pipeline.capacity - old(registry)@.next_slot
        },
        old(registry)@.next_slot >= pipeline.capacity ==> r.1.writes@.len() == 0,
        final(registry)@.next_slot == old(registry)@.next_slot + r.1.writes@.len(),
        r.1.tick is Some <==> r.1.writes@.len() > 0,
        r.1.writes@.len() > 0 ==> r.1.tick == Some(final(registry)@.frame) && r.0 == (
        Upload::Stored {
            start: old(registry)@.next_slot,
            count: r.1.writes@.len() as u32,
        }),
        r.1.writes@.len() == 0 ==> r.0 == if splats@.len() == 0 {
            Upload::Empty
        } else {
            Upload::BufferFull
        },
        0 <= i < r.1.writes@.len() ==> {
            let w = r.1.writes@[i];
            &&& w.buffer is DynamicSplats
            &&& w.offset == 96 * (old(registry)@.next_slot + i)
            &&& w.bytes@.len() == 96
            &&& c < 3 ==> le::spelled_at(w.bytes@, 4 * c) == splats@[i].position[c]
            &&& le::spelled_at(w.bytes@, 16 + 4 * c) == splats@[i].rotation[c]
            &&& le::spelled_at(w.bytes@, 32 + 4 * c) == splats@[i].color[c]
            &&& le::spelled_at(w.bytes@, 80) == old(registry)@.next_owner
            &&& le::spelled_at(w.bytes@, 84) == final(registry)@.frame
            &&& le::spelled_at(w.bytes@, 88) == 1
            &&& le::spelled_at(w.bytes@, 92) == 255
        },
{
    let before = old(registry)@;
    let after = final(registry)@;
    let cloud = after.memory[artifact_id@];
    assert(before.memory.insert(artifact_id@, cloud).contains_key(artifact_id@));
    assert(cloud.splats@.len() == splats@.len());
    if 0 <= i < r.1.writes@.len() {
        law_uploads_keep_the_splats(
            before,
            after,
            artifact_id@,
            cloud,
            pipeline.capacity,
            r.0,
            r.1,
            i,
            c,
        );
    }
}

/// Retiring an artifact lets go of it and of nothing else, and makes every one
/// of its slots inactive: its record is zero but for the rotation, which is
/// the identity.
pub proof fn law_retired_slots_are_freed(
    registry: &mut Registry,
    artifact_id: &str,
    pipeline: &SplatPipeline,
    r: (Result<(), String>, GpuWork),
    range: GpuRange,
    i: int,
    k: int,
)
    requires
        call_ensures(Registry::retire_artifact, (registry, artifact_id, pipeline), r),
        old(registry)@.ranges.contains_key(artifact_id@),
        old(registry)@.ranges[artifact_id@] == range,
        range.start + range.count <= u32::MAX,
        0 <= i < r.1.writes@.len(),
        0 <= k < 24,
    ensures
        r.0 is Ok <==> old(registry)@.memory.contains_key(artifact_id@),
        !final(registry)@.memory.contains_key(artifact_id@),
        !final(registry)@.ranges.contains_key(artifact_id@),
        final(registry)@.live == old(registry)@.live,
        forall|other: Seq<char>| #[trigger]
            old(registry)@.memory.contains_key(other) && other != artifact_id@
                ==> final(registry)@.memory.contains_key(other) && final(registry)@.memory[other]
                == old(registry)@.memory[other],
        final(registry)@.next_slot == old(registry)@.next_slot,
        r.1.tick == Some(final(registry)@.frame),
        range.start + range.count <= pipeline.capacity ==> r.1.writes@.len() == range.count
            && r.1.skipped@.len() == 0,
        r.1.writes@[i].buffer is DynamicSplats,
        r.1.writes@[i].offset == 96 * (range.start + i),
        r.1.writes@[i].bytes@.len() == 96,
        le::spelled_at(r.1.writes@[i].bytes@, 4 * k) == if k == 4 {
            0x3f80_0000int
        } else {
            0
        },
{
    let w = r.1.writes@[i];
    let slot = (range.start + i) as u32;
    assert(frees_slot(w, slot));
    let gpu = choose|gpu: gpu_layout::AnimatedSplatGpu|
        pipeline::is_inactive(gpu) && #[trigger] pipeline::stores_splat(w, slot, gpu);
    assert(gpu.words() =~= Seq::new(
        24,
        |j: int|
            if j == 4 {
                single::ONE
            } else {
                0u32
            },
    ));
    le::law_words_are_laid_out(gpu.words(), k);
}

/// Frames and owners are counted up: an upload that stores something takes the
/// next owner for the artifact and the next frame for the tick. The last frame
/// stays the last, and after the last owner comes 0.
pub proof fn law_owners_and_frames_count_up(
    registry: &mut Registry,
    artifact_id: &str,
    description: &str,
    source_uri: Option<&str>,
    loaded: Result<Vec<GaussianSplat>, String>,
    pipeline: &SplatPipeline,
    r: (Upload, GpuWork),
)
    requires
        call_ensures(
            Registry::add_artifact,
            (registry, artifact_id, description, source_uri, loaded, pipeline),
            r,
        ),
    ensures
        r.0 is Stored && old(registry)@.frame < u32::MAX ==> final(registry)@.frame
            == old(registry)@.frame + 1,
        r.0 is Stored && old(registry)@.frame == u32::MAX ==> final(registry)@.frame == u32::MAX,
        r.0 is Stored && old(registry)@.next_owner < u32::MAX ==> final(registry)@.next_owner
            == old(registry)@.next_owner + 1,
        r.0 is Stored && old(registry)@.next_owner == u32::MAX ==> final(registry)@.next_owner == 0,
        r.0 !is Stored ==> final(registry)@.frame == old(registry)@.frame
            && final(registry)@.next_owner == old(registry)@.next_owner,
        r.0 matches Upload::Stored { start, count } ==> final(registry)@.ranges.contains_key(
            artifact_id@,
        ) && final(registry)@.ranges[artifact_id@] == (GpuRange { start, count }),
{
}

/// Slots of a retired artifact that the device does not have are skipped, each
/// with a line that names it; the others are freed.
pub proof fn law_slots_past_the_capacity_are_skipped(
    registry: &mut Registry,
    artifact_id: &str,
    pipeline: &SplatPipeline,
    r: (Result<(), String>, GpuWork),
    range: GpuRange,
    i: int,
)
    requires
        call_ensures(Registry::retire_artifact, (registry, artifact_id, pipeline), r),
        old(registry)@.ranges.contains_key(artifact_id@),
        old(registry)@.ranges[artifact_id@] == range,
        0 <= i < range.count,
        range.start + range.count <= u32::MAX,
    ensures
        r.1.writes@.len() + r.1.skipped@.len() == range.count,
        range.start + i < pipeline.capacity <==> i < r.1.writes@.len(),
        i < r.1.writes@.len() ==> r.1.writes@[i].offset == 96 * (range.start + i),
        i >= r.1.writes@.len() ==> r.1.skipped@[i - r.1.writes@.len()]@
            == "[pipeline] write_splat index "@ + text::decimal((range.start + i) as nat)
            + " out of range (capacity "@ + text::decimal(pipeline.capacity as nat)
            + ") — skipped"@,
{
    if i < r.1.writes@.len() {
        assert(frees_slot(r.1.writes@[i], (range.start + i) as u32));
    }
}

/// An artifact that has no slots gives the device nothing to do.
pub proof fn law_artifacts_without_slots_cost_nothing(
    registry: &mut Registry,
    artifact_id: &str,
    pipeline: &SplatPipeline,
    r: (Result<(), String>, GpuWork),
)
    requires
        call_ensures(Registry::retire_artifact, (registry, artifact_id, pipeline), r),
        !old(registry)@.ranges.contains_key(artifact_id@),
    ensures
        r.1.writes@.len() == 0,
        r.1.skipped@.len() == 0,
        r.1.tick is None,
        final(registry)@.frame == old(registry)@.frame,
        final(registry)@.next_slot == old(registry)@.next_slot,
        final(registry)@.ranges == old(registry)@.ranges,
{
    assert(final(registry)@.ranges =~= old(registry)@.ranges);
}

/// A new registry holds nothing; its first slot is 0, its first owner 1.
pub proof fn law_registries_start_empty(registry: Registry, id: Seq<char>)
    requires
        call_ensures(Registry::new, (), registry),
    ensures
        !registry@.memory.contains_key(id),
        !registry@.live.contains_key(id),
        !registry@.ranges.contains_key(id),
        registry@.next_slot == 0,
        registry@.next_owner == 1,
        registry@.frame == 1,
{
}

} // verus!
