//! The Control actor: turns artifact proposals into entries of Scene Memory.

use crate::actors::scene_memory::{CanonicalCloud, GaussianSplat, SceneMemory};
use crate::text;
use vstd::prelude::*;
use vstd::string::*;

verus! {

pub struct ControlActor;

/// The splats that are held for an artifact, given what loading its source
/// gave. Without a source, or with one that does not load, the cloud is empty.
pub open spec fn held_splats(
    source_uri: Option<Seq<char>>,
    loaded: Result<Vec<GaussianSplat>, String>,
) -> Seq<GaussianSplat> {
    match (source_uri, loaded) {
        (Some(_), Ok(splats)) => splats@,
        _ => Seq::empty(),
    }
}

/// How many splats are held for an artifact.
pub open spec fn held_count(
    source_uri: Option<Seq<char>>,
    loaded: Result<Vec<GaussianSplat>, String>,
) -> usize {
    match (source_uri, loaded) {
        (Some(_), Ok(splats)) => splats.len(),
        _ => 0,
    }
}

/// What is logged of an ingest, and whether it is a warning.
pub open spec fn ingest_line(
    artifact_id: Seq<char>,
    description: Seq<char>,
    source_uri: Option<Seq<char>>,
    loaded: Result<Vec<GaussianSplat>, String>,
) -> (bool, Seq<char>) {
    match (source_uri, loaded) {
        (Some(uri), Ok(splats)) => (
            false,
            "[control] ingest "@ + artifact_id + ": loaded "@ + text::decimal(splats@.len())
                + " splats from "@ + uri,
        ),
        (Some(uri), Err(reason)) => (
            true,
            "[control] ingest "@ + artifact_id + ": couldn't load '"@ + uri + "' ("@ + reason@
                + ") — holding an empty cloud instead"@,
        ),
        (None, _) => (
            false,
            "[control] ingest "@ + artifact_id + ": \""@ + description
                + "\" with no source_uri — holding an empty cloud"@,
        ),
    }
}

/// Whether `cloud` is what is held for an artifact fresh from these arguments.
pub open spec fn is_ingested(
    cloud: CanonicalCloud,
    description: Seq<char>,
    source_uri: Option<Seq<char>>,
    loaded: Result<Vec<GaussianSplat>, String>,
) -> bool {
    &&& cloud.description@ == description
    &&& text::opt_string(cloud.source_uri) == source_uri
    &&& cloud.splats@ == held_splats(source_uri, loaded)
    &&& cloud.skinning is None
}

pub open spec fn unknown_artifact(artifact_id: Seq<char>) -> Seq<char> {
    "no held artifact with id "@ + artifact_id
}

impl ControlActor {
    pub fn new() -> (actor: Self)
        ensures
            actor == ControlActor,
    {
        ControlActor
    }

    /// The line to log of an ingest, and whether it is a warning.
    pub fn ingest_notice(
        &self,
        artifact_id: &str,
        description: &str,
        source_uri: Option<&str>,
        loaded: &Result<Vec<GaussianSplat>, String>,
    ) -> (notice: (bool, String))
        ensures
            (notice.0, notice.1@) == ingest_line(
                artifact_id@,
                description@,
                text::opt_str(source_uri),
                *loaded,
            ),
    {
        let mut line = "[control] ingest ".to_string();
        line.append(artifact_id);
        match source_uri {
            Some(uri) => match loaded {
                Ok(splats) => {
                    line.append(": loaded ");
                    text::push_decimal(&mut line, splats.len() as u128);
                    line.append(" splats from ");
                    line.append(uri);
                    (false, line)
                },
                Err(reason) => {
                    line.append(": couldn't load '");
                    line.append(uri);
                    line.append("' (");
                    line.append(reason.as_str());
                    line.append(") — holding an empty cloud instead");
                    (true, line)
                },
            },
            None => {
                line.append(": \"");
                line.append(description);
                line.append("\" with no source_uri — holding an empty cloud");
                (false, line)
            },
        }
    }

    /// Holds an artifact, unrigged. `loaded` is what reading `source_uri` gave;
    /// a failure there leaves an empty cloud and does not refuse the artifact.
    pub fn ingest_artifact(
        &self,
        memory: &mut SceneMemory,
        artifact_id: &str,
        description: &str,
        source_uri: Option<&str>,
        loaded: Result<Vec<GaussianSplat>, String>,
    )
        ensures
            final(memory)@ == old(memory)@.insert(artifact_id@, final(memory)@[artifact_id@]),
            is_ingested(
                final(memory)@[artifact_id@],
                description@,
                text::opt_str(source_uri),
                loaded,
            ),
    {
        let splats: Vec<GaussianSplat> = match source_uri {
            Some(_uri) => match loaded {
                Ok(splats) => splats,
                Err(_reason) => Vec::new(),
            },
            None => Vec::new(),
        };
        memory.insert(
            artifact_id,
            CanonicalCloud {
                description: description.to_string(),
                source_uri: text::owned(source_uri),
                splats,
                skinning: None,
            },
        );
    }

    /// Lets go of an artifact.
    pub fn retire_artifact(&self, memory: &mut SceneMemory, artifact_id: &str) -> (r: Result<
        (),
        String,
    >)
        ensures
            final(memory)@ == old(memory)@.remove(artifact_id@),
            match r {
                Ok(_) => old(memory)@.contains_key(artifact_id@),
                Err(message) => !old(memory)@.contains_key(artifact_id@) && message@
                    == unknown_artifact(artifact_id@),
            },
    {
        match memory.remove(artifact_id) {
            Some(_cloud) => Ok(()),
            None => {
                let mut message = "no held artifact with id ".to_string();
                message.append(artifact_id);
                Err(message)
            },
        }
    }
}

} // verus!
