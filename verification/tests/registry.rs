use presence_daemon::actors::control::ControlActor;
use presence_daemon::actors::presence::{PoseCode, PresenceActor, SpawnSource};
use presence_daemon::actors::scene_memory::{CanonicalCloud, GaussianSplat, SceneMemory};
use presence_daemon::pipeline::{inactive_splat, SplatPipeline};
use presence_daemon::registry::{Registry, Upload};

fn splats(n: u32) -> Vec<GaussianSplat> {
    (0..n)
        .map(|k| GaussianSplat {
            position: [k, k + 1, k + 2],
            scale: [9; 3],
            rotation: [k; 4],
            color: [7, 8, 9, k],
        })
        .collect()
}

fn pipeline(capacity: u32) -> SplatPipeline {
    SplatPipeline { capacity }
}

fn word(bytes: &[u8], at: usize) -> u32 {
    u32::from_le_bytes([bytes[at], bytes[at + 1], bytes[at + 2], bytes[at + 3]])
}

#[test]
fn a_cloud_is_stored_from_the_cursor_on() {
    let mut registry = Registry::new();
    let (upload, work) =
        registry.add_artifact("a", "first", Some("a.splat"), Ok(splats(3)), &pipeline(8));
    assert_eq!(upload, Upload::Stored { start: 0, count: 3 });
    assert_eq!(work.tick, Some(2));
    assert_eq!(work.writes.len(), 3);
    for (i, w) in work.writes.iter().enumerate() {
        assert_eq!(w.offset, 96 * i as u64);
        assert_eq!(word(&w.bytes, 0), i as u32);
        assert_eq!(word(&w.bytes, 80), 1, "owner");
        assert_eq!(word(&w.bytes, 84), 2, "frame");
        assert_eq!(word(&w.bytes, 88), 1, "active");
        assert_eq!(word(&w.bytes, 92), 255, "density");
    }
    let (upload, work) =
        registry.add_artifact("b", "second", Some("b.splat"), Ok(splats(2)), &pipeline(8));
    assert_eq!(upload, Upload::Stored { start: 3, count: 2 });
    assert_eq!(work.writes[0].offset, 288);
    assert_eq!(word(&work.writes[0].bytes, 80), 2, "owner");
    assert_eq!(work.tick, Some(3));
}

#[test]
fn a_cloud_is_cut_at_the_capacity() {
    let mut registry = Registry::new();
    let (upload, work) = registry.add_artifact("a", "", Some("a"), Ok(splats(5)), &pipeline(3));
    assert_eq!(upload, Upload::Stored { start: 0, count: 3 });
    assert_eq!(work.writes.len(), 3);
    let (upload, work) = registry.add_artifact("b", "", Some("b"), Ok(splats(1)), &pipeline(3));
    assert_eq!(upload, Upload::BufferFull);
    assert!(work.writes.is_empty() && work.tick.is_none());
    assert!(registry.retire_artifact("b", &pipeline(3)).0.is_ok(), "held all the same");
}

#[test]
fn sources_that_do_not_load_are_held_empty() {
    let mut registry = Registry::new();
    let failed = Err("failed to read".to_string());
    let (upload, work) = registry.add_artifact("a", "d", Some("gone.ply"), failed, &pipeline(4));
    assert_eq!(upload, Upload::Empty);
    assert!(work.writes.is_empty() && work.tick.is_none());
    let (upload, _) = registry.add_artifact("b", "d", None, Ok(splats(2)), &pipeline(4));
    assert_eq!(upload, Upload::Empty);
    let source = registry.spawn_presence("p", "ctx", None, Some("a"));
    assert_eq!(source, SpawnSource::Artifact { splats: 0 });
}

#[test]
fn retiring_frees_the_slots_that_were_stored() {
    let mut registry = Registry::new();
    registry.add_artifact("a", "", Some("a"), Ok(splats(2)), &pipeline(8));
    let (_, stored) = registry.add_artifact("b", "", Some("b"), Ok(splats(3)), &pipeline(8));
    let (result, freed) = registry.retire_artifact("b", &pipeline(8));
    assert_eq!(result, Ok(()));
    assert_eq!(freed.tick, Some(4));
    assert_eq!(freed.writes.len(), stored.writes.len());
    for (f, s) in freed.writes.iter().zip(&stored.writes) {
        assert_eq!(f.offset, s.offset);
        assert_eq!(f.bytes, inactive_splat().to_bytes());
    }
    let (result, again) = registry.retire_artifact("b", &pipeline(8));
    assert_eq!(result, Err("no held artifact with id b".to_string()));
    assert!(again.writes.is_empty() && again.tick.is_none());
    let (upload, _) = registry.add_artifact("c", "", Some("c"), Ok(splats(1)), &pipeline(8));
    assert_eq!(upload, Upload::Stored { start: 5, count: 1 }, "slots are not handed out again");
}

#[test]
fn slots_past_the_capacity_are_skipped_when_freed() {
    let mut registry = Registry::new();
    registry.add_artifact("a", "", Some("a"), Ok(splats(5)), &pipeline(8));
    let (_, work) = registry.retire_artifact("a", &pipeline(3));
    assert_eq!(work.writes.len(), 3);
    assert_eq!(
        work.skipped,
        vec![
            "[pipeline] write_splat index 3 out of range (capacity 3) — skipped",
            "[pipeline] write_splat index 4 out of range (capacity 3) — skipped",
        ]
    );
}

#[test]
fn presences_live_from_spawn_to_retire() {
    let mut registry = Registry::new();
    assert_eq!(
        registry.animate_presence("p", "wave").unwrap_err(),
        "no live presence with id p"
    );
    assert_eq!(registry.spawn_presence("p", "ctx", Some("soft"), None), SpawnSource::ContextOnly);
    assert_eq!(
        registry.spawn_presence("q", "ctx", None, Some("nope")),
        SpawnSource::UnknownArtifact
    );
    assert_eq!(registry.animate_presence("p", "wave"), Ok(()));
    assert_eq!(registry.retire_presence("p"), Ok(()));
    assert_eq!(registry.retire_presence("p").unwrap_err(), "no live presence with id p");
    assert_eq!(registry.retire_presence("q"), Ok(()));
}

#[test]
fn highlights_are_acknowledged() {
    assert_eq!(
        Registry::new().highlight_region("llvmpipe", "the red error banner", 6),
        "[registry] highlightRegion on llvmpipe: \"the red error banner\" for 6s"
    );
}

#[test]
fn the_rest_pose_is_all_zeros() {
    assert_eq!(PoseCode::neutral(3).params, vec![0.0f32.to_bits(); 3]);
    assert!(PoseCode::neutral(0).params.is_empty());
    let mut actor = PresenceActor::new();
    actor.spawn(&SceneMemory::new(), "p", "c", None, None);
    assert!(actor.animate("p", "nod").is_ok());
    assert!(actor.retire("p").is_ok());
}

#[test]
fn scene_memory_holds_what_control_ingests() {
    let control = ControlActor::new();
    let mut memory = SceneMemory::new();
    control.ingest_artifact(&mut memory, "a", "a chair", Some("chair.splat"), Ok(splats(2)));
    let cloud = memory.get("a").unwrap();
    assert_eq!(cloud.description, "a chair");
    assert_eq!(cloud.source_uri.as_deref(), Some("chair.splat"));
    assert_eq!(cloud.splats, splats(2));
    assert!(cloud.skinning.is_none());
    assert!(memory.get("b").is_none());
    assert_eq!(control.retire_artifact(&mut memory, "a"), Ok(()));
    assert_eq!(
        control.retire_artifact(&mut memory, "a").unwrap_err(),
        "no held artifact with id a"
    );
}

#[test]
fn scene_memory_replaces_and_removes() {
    let cloud = |description: &str| CanonicalCloud {
        description: description.to_string(),
        source_uri: None,
        splats: Vec::new(),
        skinning: None,
    };
    let mut memory = SceneMemory::new();
    memory.insert("x", cloud("one"));
    memory.insert("y", cloud("two"));
    memory.insert("x", cloud("three"));
    assert_eq!(memory.get("x").unwrap().description, "three");
    assert_eq!(memory.remove("x").unwrap().description, "three");
    assert!(memory.remove("x").is_none());
    assert_eq!(memory.get("y").unwrap().description, "two");
}
