//! The Presence actor: the live presences and their poses.

use crate::actors::scene_memory::SceneMemory;
use crate::named_map::NamedMap;
use crate::single::ZERO;
use crate::text;
use vstd::prelude::*;
use vstd::string::*;

verus! {

/// A compact control signal: pose, expression and global transform, as many
/// numbers as the rig has (single-precision patterns, see `single`).
#[derive(Debug)]
pub struct PoseCode {
    pub params: Vec<u32>,
}

/// The rest pose in `dim` dimensions.
pub open spec fn rest_pose(dim: nat) -> Seq<u32> {
    Seq::new(dim, |i: int| ZERO)
}

impl PoseCode {
    /// The rest pose: all zeros.
    pub fn neutral(dim: usize) -> (pose: Self)
        ensures
            pose.params@ == rest_pose(dim as nat),
    {
        let mut params: Vec<u32> = Vec::new();
        while params.len() < dim
            invariant
                params@.len() <= dim,
                params@ == rest_pose(params@.len()),
            decreases dim - params@.len(),
        {
            params.push(ZERO);
            assert(params@ =~= rest_pose(params@.len()));
        }
        PoseCode { params }
    }
}

/// One presence that was spawned and not yet retired.
#[derive(Debug)]
pub struct LivePresence {
    pub source_context: String,
    pub style_hint: Option<String>,
    pub artifact_id: Option<String>,
    pub current_pose: PoseCode,
}

impl LivePresence {
    /// Whether this is a presence fresh from these arguments, at rest.
    pub open spec fn is_spawned(
        &self,
        source_context: Seq<char>,
        style_hint: Option<Seq<char>>,
        artifact_id: Option<Seq<char>>,
    ) -> bool {
        &&& self.source_context@ == source_context
        &&& text::opt_string(self.style_hint) == style_hint
        &&& text::opt_string(self.artifact_id) == artifact_id
        &&& self.current_pose.params@ == rest_pose(0)
    }

    /// Whether this is `before` with another pose.
    pub open spec fn is_posed(&self, before: LivePresence, pose: Seq<u32>) -> bool {
        &&& self.source_context == before.source_context
        &&& self.style_hint == before.style_hint
        &&& self.artifact_id == before.artifact_id
        &&& self.current_pose.params@ == pose
    }
}

/// The dimension that a text is posed in: that of the current pose, but never
/// none.
pub open spec fn pose_dim(current: nat) -> nat {
    if current == 0 {
        1
    } else {
        current
    }
}

pub open spec fn unknown_presence(presence_id: Seq<char>) -> Seq<char> {
    "no live presence with id "@ + presence_id
}

fn unknown_presence_text(presence_id: &str) -> (message: String)
    ensures
        message@ == unknown_presence(presence_id@),
{
    let mut message = "no live presence with id ".to_string();
    message.append(presence_id);
    message
}

/// What a spawned presence is built from.
#[derive(Debug, Clone, Copy, PartialEq, Eq, Structural)]
pub enum SpawnSource {
    /// No artifact was named.
    ContextOnly,
    /// The named artifact is held, with this many splats.
    Artifact { splats: usize },
    /// The named artifact is not held: the context alone is used.
    UnknownArtifact,
}

/// What is logged of a presence that is posed by a text.
pub open spec fn pose_line(presence_id: Seq<char>, text: Seq<char>, dim: nat) -> Seq<char> {
    "[presence] "@ + presence_id + ": \""@ + text + "\" -> pose code (dim "@ + text::decimal(dim)
        + ") -> TODO: apply via LBS/DQS to the canonical cloud (both the mapping and the skinning apply step are unbuilt)"@
}

/// What is logged of a presence that is spawned with an artifact.
pub open spec fn spawn_line(
    presence_id: Seq<char>,
    artifact_id: Seq<char>,
    splats: Option<usize>,
) -> Seq<char> {
    match splats {
        Some(n) => "[presence] "@ + presence_id + " built from artifact "@ + artifact_id + " ("@
            + text::decimal(n as nat) + " splats held)"@,
        None => "[presence] "@ + presence_id + " referenced unknown artifact "@ + artifact_id
            + " — spawning from source_context alone"@,
    }
}

/// The line to log of a presence that is spawned with an artifact, which is
/// held with so many splats, or not held.
pub fn spawn_notice(presence_id: &str, artifact_id: &str, splats: Option<usize>) -> (line: String)
    ensures
        line@ == spawn_line(presence_id@, artifact_id@, splats),
{
    let mut line = "[presence] ".to_string();
    line.append(presence_id);
    match splats {
        Some(n) => {
            line.append(" built from artifact ");
            line.append(artifact_id);
            line.append(" (");
            text::push_decimal(&mut line, n as u128);
            line.append(" splats held)");
        },
        None => {
            line.append(" referenced unknown artifact ");
            line.append(artifact_id);
            line.append(" — spawning from source_context alone");
        },
    }
    line
}

pub struct PresenceActor {
    live: NamedMap<LivePresence>,
}

impl View for PresenceActor {
    type V = Map<Seq<char>, LivePresence>;

    closed spec fn view(&self) -> Map<Seq<char>, LivePresence> {
        self.live@
    }
}

impl PresenceActor {
    pub fn new() -> (actor: Self)
        ensures
            actor@ == Map::<Seq<char>, LivePresence>::empty(),
    {
        PresenceActor { live: NamedMap::new() }
    }

    /// Makes a presence live under `presence_id`, in place of one that was. An
    /// artifact that is not held is no obstacle.
    pub fn spawn(
        &mut self,
        memory: &SceneMemory,
        presence_id: &str,
        source_context: &str,
        style_hint: Option<&str>,
        artifact_id: Option<&str>,
    ) -> (source: SpawnSource)
        ensures
            final(self)@ == old(self)@.insert(presence_id@, final(self)@[presence_id@]),
            final(self)@[presence_id@].is_spawned(
                source_context@,
                text::opt_str(style_hint),
                text::opt_str(artifact_id),
            ),
            source == match artifact_id {
                None => SpawnSource::ContextOnly,
                Some(id) => if memory@.contains_key(id@) {
                    SpawnSource::Artifact { splats: memory@[id@].splats.len() }
                } else {
                    SpawnSource::UnknownArtifact
                },
            },
    {
        let source = match artifact_id {
            Some(id) => match memory.get(id) {
                Some(cloud) => SpawnSource::Artifact { splats: cloud.splats.len() },
                None => SpawnSource::UnknownArtifact,
            },
            None => SpawnSource::ContextOnly,
        };
        self.live.insert(
            presence_id,
            LivePresence {
                source_context: source_context.to_string(),
                style_hint: text::owned(style_hint),
                artifact_id: text::owned(artifact_id),
                current_pose: PoseCode::neutral(0),
            },
        );
        source
    }

    /// The line to log of a live presence that is about to be posed by a text.
    pub fn pose_notice(&self, presence_id: &str, text: &str) -> (line: Option<String>)
        ensures
            text::opt_string(line) == if self@.contains_key(presence_id@) {
                Some(
                    pose_line(
                        presence_id@,
                        text@,
                        pose_dim(self@[presence_id@].current_pose.params@.len()),
                    ),
                )
            } else {
                None
            },
    {
        match self.live.get(presence_id) {
            Some(presence) => {
                let current: usize = presence.current_pose.params.len();
                let mut line = "[presence] ".to_string();
                line.append(presence_id);
                line.append(": \"");
                line.append(text);
                line.append("\" -> pose code (dim ");
                text::push_decimal(
                    &mut line,
                    if current == 0 {
                        1
                    } else {
                        current as u128
                    },
                );
                line.append(
                    ") -> TODO: apply via LBS/DQS to the canonical cloud (both the mapping and the skinning apply step are unbuilt)",
                );
                Some(line)
            },
            None => None,
        }
    }

    /// Poses a live presence by a text.
    pub fn animate(&mut self, presence_id: &str, text: &str) -> (r: Result<(), String>)
        ensures
            match r {
                Ok(_) => {
                    &&& old(self)@.contains_key(presence_id@)
                    &&& final(self)@ == old(self)@.insert(presence_id@, final(self)@[presence_id@])
                    &&& final(self)@[presence_id@].is_posed(
                        old(self)@[presence_id@],
                        rest_pose(
                            pose_dim(old(self)@[presence_id@].current_pose.params@.len()),
                        ),
                    )
                },
                Err(message) => {
                    &&& !old(self)@.contains_key(presence_id@)
                    &&& final(self)@ == old(self)@
                    &&& message@ == unknown_presence(presence_id@)
                },
            },
    {
        match self.live.remove(presence_id) {
            Some(presence) => {
                let current: usize = presence.current_pose.params.len();
                let dim: usize = if current == 0 {
                    1
                } else {
                    current
                };
                let mut presence = presence;
                presence.current_pose = Self::text_to_pose_code(text, dim);
                self.live.insert(presence_id, presence);
                proof {
                    assert(self@ =~= old(self)@.insert(presence_id@, presence));
                }
                Ok(())
            },
            None => {
                assert(old(self)@.remove(presence_id@) =~= old(self)@);
                Err(unknown_presence_text(presence_id))
            },
        }
    }

    /// Ends a presence.
    pub fn retire(&mut self, presence_id: &str) -> (r: Result<(), String>)
        ensures
            final(self)@ == old(self)@.remove(presence_id@),
            match r {
                Ok(_) => old(self)@.contains_key(presence_id@),
                Err(message) => !old(self)@.contains_key(presence_id@) && message@
                    == unknown_presence(presence_id@),
            },
    {
        match self.live.remove(presence_id) {
            Some(_presence) => Ok(()),
            None => Err(unknown_presence_text(presence_id)),
        }
    }

    /// Every text maps to the rest pose of the asked dimension.
    fn text_to_pose_code(_text: &str, dim: usize) -> (pose: PoseCode)
        ensures
            pose.params@ == rest_pose(dim as nat),
    {
        PoseCode::neutral(dim)
    }
}

} // verus!
