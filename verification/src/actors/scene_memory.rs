//! Scene Memory: sparse, per-artifact storage that the Control actor writes
//! and the Presence actor reads.

use crate::named_map::NamedMap;
use vstd::prelude::*;

verus! {

/// One Gaussian of a splat cloud. Every number is a single-precision pattern
/// (see `single`). Scale is linear per axis, rotation a quaternion in
/// (w, x, y, z) order, color RGBA.
#[derive(Debug, Clone, Copy, PartialEq, Eq)]
pub struct GaussianSplat {
    pub position: [u32; 3],
    pub scale: [u32; 3],
    pub rotation: [u32; 4],
    pub color: [u32; 4],
}

/// Skinning weights of one splat against up to four bones.
#[derive(Debug, Clone, Copy, PartialEq, Eq)]
pub struct SkinningWeights {
    pub bone_indices: [u16; 4],
    pub bone_weights: [u32; 4],
}

/// What is held for one artifact: its rest-pose cloud, optional skinning, and
/// where it came from.
#[derive(Debug, Clone)]
pub struct CanonicalCloud {
    pub description: String,
    pub source_uri: Option<String>,
    pub splats: Vec<GaussianSplat>,
    pub skinning: Option<Vec<SkinningWeights>>,
}

/// The held artifacts by id.
pub struct SceneMemory {
    artifacts: NamedMap<CanonicalCloud>,
}

impl View for SceneMemory {
    type V = Map<Seq<char>, CanonicalCloud>;

    closed spec fn view(&self) -> Map<Seq<char>, CanonicalCloud> {
        self.artifacts@
    }
}

impl SceneMemory {
    pub fn new() -> (memory: Self)
        ensures
            memory@ == Map::<Seq<char>, CanonicalCloud>::empty(),
    {
        SceneMemory { artifacts: NamedMap::new() }
    }

    /// Holds `cloud` under `artifact_id`, in place of what was held there.
    pub fn insert(&mut self, artifact_id: &str, cloud: CanonicalCloud)
        ensures
            final(self)@ == old(self)@.insert(artifact_id@, cloud),
    {
        self.artifacts.insert(artifact_id, cloud);
    }

    pub fn get(&self, artifact_id: &str) -> (r: Option<&CanonicalCloud>)
        ensures
            match r {
                Some(cloud) => self@.contains_key(artifact_id@) && *cloud == self@[artifact_id@],
                None => !self@.contains_key(artifact_id@),
            },
    {
        self.artifacts.get(artifact_id)
    }

    pub fn remove(&mut self, artifact_id: &str) -> (r: Option<CanonicalCloud>)
        ensures
            final(self)@ == old(self)@.remove(artifact_id@),
            match r {
                Some(cloud) => old(self)@.contains_key(artifact_id@) && cloud
                    == old(self)@[artifact_id@],
                None => !old(self)@.contains_key(artifact_id@),
            },
    {
        self.artifacts.remove(artifact_id)
    }
}

} // verus!
