use presence_daemon::actors::scene_memory::GaussianSplat;
use presence_daemon::pipeline::SplatPipeline;
use presence_daemon::protocol::{Detail, Proposal, ProposalResult};
use presence_daemon::socket::{
    request_of, socket_path, take_request, ClientStep, ReadOutcome, Reply, SocketServer,
};

fn pipeline() -> SplatPipeline {
    SplatPipeline { capacity: 256 }
}

fn splats(n: usize) -> Vec<GaussianSplat> {
    vec![GaussianSplat { position: [0; 3], scale: [0; 3], rotation: [0; 4], color: [0; 4] }; n]
}

fn s(text: &str) -> String {
    text.to_string()
}

fn ask(server: &mut SocketServer, proposal: Proposal) -> Reply {
    server.answer(Ok(proposal), Err(s("nothing to load")), "llvmpipe", &pipeline())
}

fn requests(buf: &mut Vec<u8>) -> Vec<String> {
    let mut out = Vec::new();
    while let Some(request) = take_request(buf) {
        out.push(request);
    }
    out
}

#[test]
fn the_socket_lies_below_the_runtime_directory() {
    assert_eq!(socket_path(Some("/run/user/1000")), "/run/user/1000/pachakutech/presence.sock");
    assert_eq!(socket_path(Some("/run/")), "/run/pachakutech/presence.sock");
    assert_eq!(socket_path(Some("")), "pachakutech/presence.sock");
    assert_eq!(socket_path(None), "/tmp/pachakutech/presence.sock");
    let joined = std::path::PathBuf::from("/run/user/1").join("pachakutech").join("presence.sock");
    assert_eq!(std::path::PathBuf::from(socket_path(Some("/run/user/1"))), joined);
}

#[test]
fn requests_are_trimmed_lines() {
    let mut buf = b"  {\"a\":1}\r\n\n \t\n{\"b\":2}\n{\"c".to_vec();
    assert_eq!(requests(&mut buf), vec!["{\"a\":1}", "{\"b\":2}"]);
    assert_eq!(buf, b"{\"c");
    assert_eq!(request_of("  x y \u{2003}"), Some(s("x y")));
    assert_eq!(request_of(" \r\n"), None);
}

#[test]
fn bytes_that_are_no_text_are_replaced() {
    let mut buf = b"a\xffb\n".to_vec();
    assert_eq!(requests(&mut buf), vec!["a\u{fffd}b"]);
    let mut buf = "grüße €\n".as_bytes().to_vec();
    assert_eq!(requests(&mut buf), vec!["grüße €"]);
}

#[test]
fn reads_may_be_cut_anywhere() {
    let stream = "one\n\n two €\nthr".as_bytes();
    let mut whole = stream.to_vec();
    let expected = requests(&mut whole);
    for cut in 0..=stream.len() {
        let mut server = SocketServer::new();
        server.accept();
        let mut got = Vec::new();
        for part in [&stream[..cut], &stream[cut..]] {
            if !part.is_empty() {
                let step = server.receive(0, ReadOutcome::Bytes(part.to_vec()));
                assert_eq!(step, ClientStep::ReadMore);
            }
            assert_eq!(server.receive(0, ReadOutcome::WouldBlock), ClientStep::Answer);
            while let Some(request) = server.next_request(0) {
                got.push(request);
            }
        }
        assert_eq!(got, expected, "cut at {cut}");
    }
}

#[test]
fn clients_keep_their_own_bytes() {
    let mut server = SocketServer::new();
    server.accept();
    server.accept();
    assert_eq!(server.client_count(), 2);
    server.receive(0, ReadOutcome::Bytes(b"zero".to_vec()));
    server.receive(1, ReadOutcome::Bytes(b"one\n".to_vec()));
    assert_eq!(server.next_request(0), None);
    assert_eq!(server.next_request(1), Some(s("one")));
    server.receive(0, ReadOutcome::Bytes(b"\n".to_vec()));
    server.remove(1);
    assert_eq!(server.client_count(), 1);
    assert_eq!(server.next_request(0), Some(s("zero")));
    assert_eq!(server.receive(0, ReadOutcome::Bytes(Vec::new())), ClientStep::Drop);
    assert_eq!(server.receive(0, ReadOutcome::Failed), ClientStep::Drop);
}

fn logged(reply: &Reply) -> Vec<(bool, &str)> {
    reply.notices.iter().map(|n| (n.warning, n.line.as_str())).collect()
}

#[test]
fn what_became_of_an_artifact_is_logged() {
    let small = SplatPipeline { capacity: 3 };
    let mut server = SocketServer::new();
    let mut put = |artifact: &str, n: usize| {
        server.answer(Ok(add("1", artifact, Some("c.ply"))), Ok(splats(n)), "gpu", &small)
    };
    let reply = put("a", 2);
    assert_eq!(logged(&reply), [(false, "[control] ingest a: loaded 2 splats from c.ply")]);
    assert_eq!(reply.done.as_deref(), Some("[registry] uploaded 2 splats for a at slot 0"));
    assert_eq!(reply.failed, "[registry] tick after ingest a: ");
    let reply = put("b", 5);
    assert_eq!(
        logged(&reply),
        [
            (false, "[control] ingest b: loaded 5 splats from c.ply"),
            (true, "[registry] b: truncated 5 -> 1 splats (capacity 3)"),
        ]
    );
    assert_eq!(reply.done.as_deref(), Some("[registry] uploaded 1 splats for b at slot 2"));
    let reply = put("c", 1);
    assert_eq!(
        logged(&reply)[1],
        (true, "[registry] GPU buffer full — c held in Scene Memory only")
    );
    assert!(reply.done.is_none());
    let reply = ask(&mut server, add("2", "d", Some("e.ply")));
    assert_eq!(
        logged(&reply),
        [(
            true,
            "[control] ingest d: couldn't load 'e.ply' (nothing to load) — holding an empty cloud instead"
        )]
    );
    let reply = ask(&mut server, add("2", "d", None));
    assert_eq!(
        logged(&reply),
        [(false, "[control] ingest d: \"a chair\" with no source_uri — holding an empty cloud")]
    );
    let gone = Proposal::RetireArtifact { proposal_id: s("2"), artifact_id: s("a") };
    assert_eq!(ask(&mut server, gone).failed, "[registry] tick after retire a: ");
}

#[test]
fn what_a_presence_is_built_from_is_logged() {
    let mut server = SocketServer::new();
    let reply = ask(&mut server, spawn("1", "p"));
    assert_eq!(
        logged(&reply),
        [(
            false,
            "[presence] p referenced unknown artifact art — spawning from source_context alone"
        )]
    );
    server.answer(Ok(add("2", "art", Some("c.ply"))), Ok(splats(4)), "gpu", &pipeline());
    let reply = ask(&mut server, spawn("3", "p"));
    assert_eq!(logged(&reply), [(false, "[presence] p built from artifact art (4 splats held)")]);
    let reply = ask(&mut server, animate("4", "p"));
    assert_eq!(logged(&reply), [(false, "[presence] p: \"wave\" -> pose code (dim 1) -> TODO: apply via LBS/DQS to the canonical cloud (both the mapping and the skinning apply step are unbuilt)")]);
    assert!(logged(&ask(&mut server, animate("5", "q"))).is_empty());
}

fn detail_of(result: &ProposalResult) -> (&str, &str) {
    let detail = result.detail.as_ref().unwrap();
    (detail.key(), detail.value())
}

#[test]
fn highlights_get_a_region() {
    let mut server = SocketServer::new();
    let reply = ask(
        &mut server,
        Proposal::HighlightRegion {
            proposal_id: s("a1b2"),
            description: s("the red error banner"),
            duration_seconds: 6,
        },
    );
    assert_eq!(reply.result.proposal_id, "a1b2");
    assert_eq!(reply.result.status, "ok");
    assert_eq!(detail_of(&reply.result), ("regionId", "r-a1b2"));
    assert!(reply.result.error.is_none());
    assert_eq!(
        logged(&reply),
        [(false, "[registry] highlightRegion on llvmpipe: \"the red error banner\" for 6s")]
    );
    assert!(reply.work.writes.is_empty() && reply.work.tick.is_none());
}

fn spawn(id: &str, presence: &str) -> Proposal {
    Proposal::SpawnPresence {
        proposal_id: s(id),
        presence_id: s(presence),
        source_context: s("ctx"),
        style_hint: None,
        artifact_id: Some(s("art")),
    }
}

fn animate(id: &str, presence: &str) -> Proposal {
    Proposal::AnimatePresence { proposal_id: s(id), presence_id: s(presence), text: s("wave") }
}

fn retire(id: &str, presence: &str) -> Proposal {
    Proposal::RetirePresence { proposal_id: s(id), presence_id: s(presence) }
}

#[test]
fn unknown_presences_are_answered_with_an_error() {
    let mut server = SocketServer::new();
    let reply = ask(&mut server, animate("a1b2", "p-xyz"));
    assert_eq!(reply.result.proposal_id, "a1b2");
    assert_eq!(reply.result.status, "error");
    assert!(reply.result.detail.is_none());
    assert_eq!(reply.result.error.as_deref(), Some("no live presence with id p-xyz"));
}

#[test]
fn presences_are_spawned_animated_and_retired() {
    let mut server = SocketServer::new();
    let reply = ask(&mut server, spawn("1", "p"));
    assert_eq!(detail_of(&reply.result), ("presenceId", "p"));
    let reply = ask(&mut server, animate("2", "p"));
    assert_eq!((reply.result.status, reply.result.detail.is_none()), ("ok", true));
    assert_eq!(ask(&mut server, retire("3", "p")).result.status, "ok");
    let reply = ask(&mut server, retire("4", "p"));
    assert_eq!(reply.result.error.as_deref(), Some("no live presence with id p"));
}

fn add(id: &str, artifact: &str, source: Option<&str>) -> Proposal {
    Proposal::AddArtifact {
        proposal_id: s(id),
        artifact_id: s(artifact),
        description: s("a chair"),
        source_uri: source.map(s),
    }
}

#[test]
fn artifacts_are_added_and_retired() {
    let mut server = SocketServer::new();
    let proposal = add("1", "a", Some("chair.splat"));
    assert_eq!(proposal.source_to_load(), Some("chair.splat"));
    assert_eq!(add("1", "a", None).source_to_load(), None);
    assert_eq!(retire("1", "p").source_to_load(), None);
    let reply = server.answer(Ok(proposal), Ok(splats(2)), "llvmpipe", &pipeline());
    assert_eq!(detail_of(&reply.result), ("artifactId", "a"));
    assert_eq!(reply.work.writes.len(), 2);
    assert_eq!(reply.work.tick, Some(2));
    let gone = Proposal::RetireArtifact { proposal_id: s("2"), artifact_id: s("a") };
    let reply = ask(&mut server, gone);
    assert_eq!((reply.result.status, reply.work.writes.len()), ("ok", 2));
    let gone = Proposal::RetireArtifact { proposal_id: s("3"), artifact_id: s("a") };
    let reply = ask(&mut server, gone);
    assert_eq!(reply.result.error.as_deref(), Some("no held artifact with id a"));
    assert!(reply.work.writes.is_empty());
}

#[test]
fn an_artifact_that_does_not_load_is_granted() {
    let mut server = SocketServer::new();
    let reply = ask(&mut server, add("1", "a", Some("https://example.org/a.splat")));
    assert_eq!(reply.result.status, "ok");
    assert_eq!(detail_of(&reply.result), ("artifactId", "a"));
    assert!(reply.work.tick.is_none());
}

#[test]
fn requests_that_are_no_proposal_are_answered() {
    let mut server = SocketServer::new();
    let reply = server.answer(Err(s("EOF while parsing")), Ok(Vec::new()), "llvmpipe", &pipeline());
    assert_eq!(reply.result.proposal_id, "unknown");
    assert_eq!(reply.result.status, "error");
    assert_eq!(
        reply.result.error.as_deref(),
        Some("malformed proposal: EOF while parsing")
    );
    assert_eq!(logged(&reply), [(true, "[socket] malformed proposal: EOF while parsing")]);
}

#[test]
fn every_proposal_knows_its_id() {
    let ids = [
        spawn("s", "p").proposal_id().to_string(),
        animate("a", "p").proposal_id().to_string(),
        retire("r", "p").proposal_id().to_string(),
        add("d", "x", None).proposal_id().to_string(),
    ];
    assert_eq!(ids, ["s", "a", "r", "d"]);
    let ok = ProposalResult::ok("i", Some(Detail::PresenceId(s("v"))));
    assert_eq!((ok.proposal_id.as_str(), ok.status), ("i", "ok"));
    assert_eq!(detail_of(&ok), ("presenceId", "v"));
    let err = ProposalResult::err("j", s("no"));
    assert_eq!((err.status, err.error.as_deref()), ("error", Some("no")));
}
