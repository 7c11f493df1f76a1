//! The server behind the Unix socket: newline-delimited requests, one answer
//! each.
//!
//! Whoever owns the listener accepts, reads and writes; the server keeps what
//! each client has sent, cuts it into requests and answers them.

use crate::actors::control;
use crate::actors::presence;
use crate::actors::scene_memory::GaussianSplat;
use crate::pipeline::SplatPipeline;
use crate::protocol::{Detail, DetailModel, Proposal, ProposalResult};
use crate::registry;
use crate::registry::{GpuWork, Registry, RegistryModel};
use crate::text;
use vstd::prelude::*;
use vstd::string::*;

verus! {

// ---------------------------------------------------------------------------
// where the socket is
// ---------------------------------------------------------------------------

/// The path of the socket below a runtime directory, which is the one for
/// temporary files where none is set.
pub open spec fn socket_path_in(runtime_dir: Option<Seq<char>>) -> Seq<char> {
    let dir = match runtime_dir {
        Some(dir) => dir,
        None => "/tmp"@,
    };
    if dir.len() == 0 || dir.last() == '/' {
        dir + "pachakutech/presence.sock"@
    } else {
        dir + "/pachakutech/presence.sock"@
    }
}

pub fn socket_path(runtime_dir: Option<&str>) -> (path: String)
    ensures
        path@ == socket_path_in(text::opt_str(runtime_dir)),
{
    let dir = match runtime_dir {
        Some(dir) => dir,
        None => "/tmp",
    };
    let chars = text::chars_of(dir);
    let mut path = dir.to_string();
    if chars.len() == 0 || chars[chars.len() - 1] == '/' {
        path.append("pachakutech/presence.sock");
    } else {
        path.append("/pachakutech/presence.sock");
    }
    path
}

// ---------------------------------------------------------------------------
// requests in a byte stream
// ---------------------------------------------------------------------------

/// The text of bytes that need not be valid UTF-8.
pub uninterp spec fn utf8_lossy(bytes: Seq<u8>) -> Seq<char>;

/// Calls `String::from_utf8_lossy`. Its result depends on the bytes alone; on
/// valid UTF-8 it is the text that they encode. What stands in for invalid
/// parts is left unsaid.
#[verifier::external_body]
fn from_utf8_lossy(bytes: &[u8]) -> (s: String)
    ensures
        s@ == utf8_lossy(bytes@),
        vstd::utf8::valid_utf8(bytes@) ==> s@ == vstd::utf8::decode_utf8(bytes@),
{
    String::from_utf8_lossy(bytes).into_owned()
}

/// The request that a line of text makes: the line without the white space
/// around it, or none when nothing is left.
pub open spec fn request_in(line: Seq<char>) -> Option<Seq<char>> {
    if text::trim(line).len() == 0 {
        None
    } else {
        Some(text::trim(line))
    }
}

/// The request that a line makes.
pub fn request_of(line: &str) -> (r: Option<String>)
    ensures
        text::opt_string(r) == request_in(line@),
{
    let chars = text::chars_of(line);
    let trimmed = text::trim_chars(chars.as_slice());
    if trimmed.len() == 0 {
        None
    } else {
        Some(text::text_of(trimmed))
    }
}

/// How many bytes stand before the first line feed.
pub open spec fn line_bytes(buf: Seq<u8>) -> nat
    decreases buf.len(),
{
    if buf.len() == 0 || buf[0] == 10 {
        0
    } else {
        1 + line_bytes(buf.skip(1))
    }
}

/// The requests that lie complete in `buf`, in order.
pub open spec fn requests(buf: Seq<u8>) -> Seq<Seq<char>>
    decreases buf.len(),
{
    let n = line_bytes(buf);
    if n < buf.len() {
        let rest = requests(buf.skip((n + 1) as int));
        match request_in(utf8_lossy(buf.take((n + 1) as int))) {
            Some(request) => seq![request] + rest,
            None => rest,
        }
    } else {
        Seq::empty()
    }
}

/// What follows the last line feed of `buf`.
pub open spec fn unfinished(buf: Seq<u8>) -> Seq<u8>
    decreases buf.len(),
{
    let n = line_bytes(buf);
    if n < buf.len() {
        unfinished(buf.skip((n + 1) as int))
    } else {
        buf
    }
}

fn find_line_end(buf: &Vec<u8>) -> (r: Option<usize>)
    ensures
        match r {
            Some(n) => n == line_bytes(buf@) && n < buf.len(),
            None => line_bytes(buf@) == buf@.len(),
        },
{
    let mut n: usize = 0;
    assert(buf@.skip(0) =~= buf@);
    while n < buf.len()
        invariant
            n <= buf@.len(),
            line_bytes(buf@) == n + line_bytes(buf@.skip(n as int)),
        decreases buf@.len() - n,
    {
        if buf[n] == 10 {
            return Some(n);
        }
        assert(buf@.skip(n as int).skip(1) =~= buf@.skip(n + 1));
        n += 1;
    }
    None
}

/// Takes the next request out of `buf`, and all before it.
pub fn take_request(buf: &mut Vec<u8>) -> (r: Option<String>)
    ensures
        match r {
            Some(request) => requests(old(buf)@) == seq![request@] + requests(final(buf)@),
            None => requests(old(buf)@).len() == 0 && requests(final(buf)@).len() == 0
                && final(buf)@ == unfinished(old(buf)@),
        },
        unfinished(final(buf)@) == unfinished(old(buf)@),
        final(buf)@.len() <= old(buf)@.len(),
{
    loop
        invariant
            requests(buf@) == requests(old(buf)@),
            unfinished(buf@) == unfinished(old(buf)@),
            buf@.len() <= old(buf)@.len(),
        decreases buf@.len(),
    {
        let n: usize = match find_line_end(buf) {
            Some(n) => n,
            None => {
                return None;
            },
        };
        let rest = buf.split_off(n + 1);
        let line = from_utf8_lossy(buf.as_slice());
        *buf = rest;
        match request_of(line.as_str()) {
            Some(request) => {
                return Some(request);
            },
            None => {},
        }
    }
}

// ---------------------------------------------------------------------------
// answers
// ---------------------------------------------------------------------------

/// Whether carrying out `proposal` on `before` gives `after`, this answer and
/// this work. `loaded` is what reading the source of an artifact gave.
pub open spec fn answered(
    before: RegistryModel,
    proposal: Proposal,
    loaded: Result<Vec<GaussianSplat>, String>,
    capacity: u32,
    after: RegistryModel,
    result: ProposalResult,
    work: GpuWork,
) -> bool {
    let id = proposal.id();
    match proposal {
        Proposal::HighlightRegion { .. } => {
            &&& after == before
            &&& work.is_empty()
            &&& result.is_ok(id, Some(DetailModel::RegionId("r-"@ + id)))
        },
        Proposal::SpawnPresence { presence_id, source_context, style_hint, artifact_id, .. } => {
            &&& after == (RegistryModel {
                live: before.live.insert(presence_id@, after.live[presence_id@]),
                ..before
            })
            &&& after.live[presence_id@].is_spawned(
                source_context@,
                text::opt_string(style_hint),
                text::opt_string(artifact_id),
            )
            &&& work.is_empty()
            &&& result.is_ok(id, Some(DetailModel::PresenceId(presence_id@)))
        },
        Proposal::AnimatePresence { presence_id, .. } => {
            &&& work.is_empty()
            &&& if before.live.contains_key(presence_id@) {
                &&& after == (RegistryModel {
                    live: before.live.insert(presence_id@, after.live[presence_id@]),
                    ..before
                })
                &&& after.live[presence_id@].is_posed(
                    before.live[presence_id@],
                    presence::rest_pose(
                        presence::pose_dim(
                            before.live[presence_id@].current_pose.params@.len(),
                        ),
                    ),
                )
                &&& result.is_ok(id, None)
            } else {
                &&& after == before
                &&& result.is_err(id, presence::unknown_presence(presence_id@))
            }
        },
        Proposal::RetirePresence { presence_id, .. } => {
            &&& work.is_empty()
            &&& after == (RegistryModel { live: before.live.remove(presence_id@), ..before })
            &&& if before.live.contains_key(presence_id@) {
                result.is_ok(id, None)
            } else {
                result.is_err(id, presence::unknown_presence(presence_id@))
            }
        },
        Proposal::AddArtifact { artifact_id, description, source_uri, .. } => {
            &&& after.live == before.live
            &&& after.memory == before.memory.insert(artifact_id@, after.memory[artifact_id@])
            &&& control::is_ingested(
                after.memory[artifact_id@],
                description@,
                text::opt_string(source_uri),
                loaded,
            )
            &&& exists|upload: registry::Upload|
                #[trigger] registry::uploaded(
                    before,
                    after,
                    artifact_id@,
                    after.memory[artifact_id@],
                    capacity,
                    upload,
                    work,
                )
            &&& result.is_ok(id, Some(DetailModel::ArtifactId(artifact_id@)))
        },
        Proposal::RetireArtifact { artifact_id, .. } => {
            &&& after.live == before.live
            &&& after.memory == before.memory.remove(artifact_id@)
            &&& registry::deactivated(before, after, artifact_id@, capacity, work)
            &&& if before.memory.contains_key(artifact_id@) {
                result.is_ok(id, None)
            } else {
                result.is_err(id, control::unknown_artifact(artifact_id@))
            }
        },
    }
}

/// A line to log.
#[derive(Debug, PartialEq, Eq)]
pub struct Notice {
    pub warning: bool,
    pub line: String,
}

/// Notices by their contents.
pub open spec fn notice_list(notices: Seq<Notice>) -> Seq<(bool, Seq<char>)> {
    notices.map_values(|n: Notice| (n.warning, n.line@))
}

/// What is logged of a proposal before the device works for it: lines, and
/// whether each is a warning.
pub open spec fn noted(
    before: RegistryModel,
    proposal: Proposal,
    loaded: Result<Vec<GaussianSplat>, String>,
    capacity: u32,
    device_name: Seq<char>,
) -> Seq<(bool, Seq<char>)> {
    match proposal {
        Proposal::HighlightRegion { description, duration_seconds, .. } => seq![
            (false, registry::highlight_line(device_name, description@, duration_seconds)),
        ],
        Proposal::SpawnPresence { presence_id, artifact_id: Some(id), .. } => seq![
            (
                false,
                presence::spawn_line(
                    presence_id@,
                    id@,
                    if before.memory.contains_key(id@) {
                        Some(before.memory[id@].splats.len())
                    } else {
                        None
                    },
                ),
            ),
        ],
        Proposal::AnimatePresence { presence_id, text, .. } => if before.live.contains_key(
            presence_id@,
        ) {
            seq![
                (
                    false,
                    presence::pose_line(
                        presence_id@,
                        text@,
                        presence::pose_dim(
                            before.live[presence_id@].current_pose.params@.len(),
                        ),
                    ),
                ),
            ]
        } else {
            Seq::empty()
        },
        Proposal::AddArtifact { artifact_id, description, source_uri, .. } => {
            let source = text::opt_string(source_uri);
            let ingest = seq![
                control::ingest_line(artifact_id@, description@, source, loaded),
            ];
            match registry::upload_warning(
                artifact_id@,
                control::held_count(source, loaded),
                capacity,
                before.next_slot,
            ) {
                Some(warning) => ingest.push((true, warning)),
                None => ingest,
            }
        },
        _ => Seq::empty(),
    }
}

/// What is logged of a proposal once the device has worked for it.
pub open spec fn noted_after(
    before: RegistryModel,
    proposal: Proposal,
    loaded: Result<Vec<GaussianSplat>, String>,
    capacity: u32,
) -> Option<Seq<char>> {
    match proposal {
        Proposal::AddArtifact { artifact_id, source_uri, .. } => registry::upload_done(
            artifact_id@,
            control::held_count(text::opt_string(source_uri), loaded),
            capacity,
            before.next_slot,
        ),
        _ => None,
    }
}

/// How the line starts that is logged when the device fails.
pub open spec fn failure_noted(proposal: Proposal) -> Seq<char> {
    match proposal {
        Proposal::AddArtifact { artifact_id, .. } => registry::ingest_failure(artifact_id@),
        Proposal::RetireArtifact { artifact_id, .. } => registry::retire_failure(artifact_id@),
        _ => ""@,
    }
}

/// An answer, what the device has to do for it, and what to log: `notices`
/// before that work, then `done` where it succeeds and `failed`, followed by
/// the reason, where it does not.
#[derive(Debug)]
pub struct Reply {
    pub result: ProposalResult,
    pub work: GpuWork,
    pub notices: Vec<Notice>,
    pub done: Option<String>,
    pub failed: String,
}

/// An answer that the device has no part in, with these notices.
fn plain_reply(result: ProposalResult, notices: Vec<Notice>) -> (reply: Reply)
    ensures
        reply.result == result,
        reply.work.is_empty(),
        reply.notices == notices,
        reply.done is None,
        reply.failed@ == ""@,
{
    Reply { result, work: GpuWork::nothing(), notices, done: None, failed: "".to_string() }
}

/// The notices that consist of one line.
fn one_notice(warning: bool, line: String) -> (notices: Vec<Notice>)
    ensures
        notice_list(notices@) == seq![(warning, line@)],
{
    let mut notices: Vec<Notice> = Vec::new();
    notices.push(Notice { warning, line });
    assert(notice_list(notices@) =~= seq![(warning, line@)]);
    notices
}

/// No notices.
fn no_notices() -> (notices: Vec<Notice>)
    ensures
        notice_list(notices@) == Seq::<(bool, Seq<char>)>::empty(),
{
    let notices: Vec<Notice> = Vec::new();
    assert(notice_list(notices@) =~= Seq::<(bool, Seq<char>)>::empty());
    notices
}

fn settled(proposal_id: &str, outcome: Result<(), String>) -> (result: ProposalResult)
    ensures
        match outcome {
            Ok(_) => result.is_ok(proposal_id@, None),
            Err(message) => result.is_err(proposal_id@, message@),
        },
{
    match outcome {
        Ok(_) => ProposalResult::ok(proposal_id, None),
        Err(message) => ProposalResult::err(proposal_id, message),
    }
}

/// Carries out a proposal.
pub fn dispatch(
    proposal: Proposal,
    loaded: Result<Vec<GaussianSplat>, String>,
    device_name: &str,
    registry: &mut Registry,
    pipeline: &SplatPipeline,
) -> (reply: Reply)
    requires
        old(registry)@.wf(),
    ensures
        final(registry)@.wf(),
        answered(
            old(registry)@,
            proposal,
            loaded,
            pipeline.capacity,
            final(registry)@,
            reply.result,
            reply.work,
        ),
        notice_list(reply.notices@) == noted(
            old(registry)@,
            proposal,
            loaded,
            pipeline.capacity,
            device_name@,
        ),
        text::opt_string(reply.done) == noted_after(
            old(registry)@,
            proposal,
            loaded,
            pipeline.capacity,
        ),
        reply.failed@ == failure_noted(proposal),
{
    let proposal_id = proposal.proposal_id().to_string();
    match proposal {
        Proposal::HighlightRegion { description, duration_seconds, .. } => {
            let line = registry.highlight_region(
                device_name,
                description.as_str(),
                duration_seconds,
            );
            let mut region = "r-".to_string();
            region.append(proposal_id.as_str());
            plain_reply(
                ProposalResult::ok(proposal_id.as_str(), Some(Detail::RegionId(region))),
                one_notice(false, line),
            )
        },
        Proposal::SpawnPresence { presence_id, source_context, style_hint, artifact_id, .. } => {
            let source = registry.spawn_presence(
                presence_id.as_str(),
                source_context.as_str(),
                text::borrowed(&style_hint),
                text::borrowed(&artifact_id),
            );
            let notices = match &artifact_id {
                Some(id) => {
                    let splats: Option<usize> = match source {
                        presence::SpawnSource::Artifact { splats } => Some(splats),
                        _ => None,
                    };
                    one_notice(
                        false,
                        presence::spawn_notice(presence_id.as_str(), id.as_str(), splats),
                    )
                },
                None => no_notices(),
            };
            plain_reply(
                ProposalResult::ok(proposal_id.as_str(), Some(Detail::PresenceId(presence_id))),
                notices,
            )
        },
        Proposal::AnimatePresence { presence_id, text, .. } => {
            let notices = match registry.pose_notice(presence_id.as_str(), text.as_str()) {
                Some(line) => one_notice(false, line),
                None => no_notices(),
            };
            let outcome = registry.animate_presence(presence_id.as_str(), text.as_str());
            plain_reply(settled(proposal_id.as_str(), outcome), notices)
        },
        Proposal::RetirePresence { presence_id, .. } => {
            let outcome = registry.retire_presence(presence_id.as_str());
            plain_reply(settled(proposal_id.as_str(), outcome), no_notices())
        },
        Proposal::AddArtifact { artifact_id, description, source_uri, .. } => {
            let len: usize = match (&source_uri, &loaded) {
                (Some(_), Ok(splats)) => splats.len(),
                _ => 0,
            };
            let (warning, line) = registry.ingest_notice(
                artifact_id.as_str(),
                description.as_str(),
                text::borrowed(&source_uri),
                &loaded,
            );
            let mut notices = one_notice(warning, line);
            let ghost ingest = notice_list(notices@);
            let (upload, work) = registry.add_artifact(
                artifact_id.as_str(),
                description.as_str(),
                text::borrowed(&source_uri),
                loaded,
                pipeline,
            );
            assert(upload == registry::upload_outcome(
                len,
                pipeline.capacity,
                old(registry)@.next_slot,
            ));
            let (warning, done) = registry::upload_notices(
                artifact_id.as_str(),
                len,
                pipeline.capacity(),
                upload,
            );
            match warning {
                Some(line) => {
                    notices.push(Notice { warning: true, line });
                    assert(notice_list(notices@) =~= ingest.push((true, line@)));
                },
                None => {},
            }
            let mut failed = "[registry] tick after ingest ".to_string();
            failed.append(artifact_id.as_str());
            failed.append(": ");
            Reply {
                result: ProposalResult::ok(
                    proposal_id.as_str(),
                    Some(Detail::ArtifactId(artifact_id)),
                ),
                work,
                notices,
                done,
                failed,
            }
        },
        Proposal::RetireArtifact { artifact_id, .. } => {
            let (outcome, work) = registry.retire_artifact(artifact_id.as_str(), pipeline);
            let mut failed = "[registry] tick after retire ".to_string();
            failed.append(artifact_id.as_str());
            failed.append(": ");
            Reply {
                result: settled(proposal_id.as_str(), outcome),
                work,
                notices: no_notices(),
                done: None,
                failed,
            }
        },
    }
}

// ---------------------------------------------------------------------------
// the server
// ---------------------------------------------------------------------------

/// What one read from a client gave. No bytes means that the client closed.
#[derive(Debug)]
pub enum ReadOutcome {
    Bytes(Vec<u8>),
    WouldBlock,
    Failed,
}

/// What to do with a client next.
#[derive(Debug, Clone, Copy, PartialEq, Eq, Structural)]
pub enum ClientStep {
    /// Read again.
    ReadMore,
    /// Nothing more to read now: answer the requests that are complete.
    Answer,
    /// Let the client go.
    Drop,
}

pub struct ServerModel {
    pub buffers: Seq<Seq<u8>>,
    pub registry: RegistryModel,
}

struct Client {
    buf: Vec<u8>,
}

/// The connected clients, in the order in which they came, and the registry
/// that they share.
pub struct SocketServer {
    clients: Vec<Client>,
    registry: Registry,
}

impl View for SocketServer {
    type V = ServerModel;

    closed spec fn view(&self) -> ServerModel {
        ServerModel {
            buffers: self.clients@.map_values(|c: Client| c.buf@),
            registry: self.registry@,
        }
    }
}

impl SocketServer {
    pub fn new() -> (server: Self)
        ensures
            server@.buffers == Seq::<Seq<u8>>::empty(),
            server@.registry.wf(),
            server@.registry.memory == Map::<
                Seq<char>,
                crate::actors::scene_memory::CanonicalCloud,
            >::empty(),
            server@.registry.live == Map::<Seq<char>, presence::LivePresence>::empty(),
            server@.registry.ranges == Map::<Seq<char>, registry::GpuRange>::empty(),
            server@.registry.next_slot == 0,
            server@.registry.next_owner == 1,
            server@.registry.frame == 1,
    {
        let server = SocketServer { clients: Vec::new(), registry: Registry::new() };
        assert(server@.buffers =~= Seq::<Seq<u8>>::empty());
        server
    }

    pub fn client_count(&self) -> (n: usize)
        ensures
            n == self@.buffers.len(),
    {
        self.clients.len()
    }

    /// Takes in a new client, which has sent nothing yet.
    pub fn accept(&mut self)
        ensures
            final(self)@.buffers == old(self)@.buffers.push(Seq::empty()),
            final(self)@.registry == old(self)@.registry,
    {
        self.clients.push(Client { buf: Vec::new() });
        assert(self@.buffers =~= old(self)@.buffers.push(Seq::empty()));
    }

    /// Lets client `i` go, with whatever it has sent.
    pub fn remove(&mut self, i: usize)
        requires
            i < old(self)@.buffers.len(),
        ensures
            final(self)@.buffers == old(self)@.buffers.remove(i as int),
            final(self)@.registry == old(self)@.registry,
    {
        self.clients.remove(i);
        assert(self@.buffers =~= old(self)@.buffers.remove(i as int));
    }

    /// Takes in what a read from client `i` gave. A client that has closed is
    /// let go with its requests unanswered.
    pub fn receive(&mut self, i: usize, outcome: ReadOutcome) -> (step: ClientStep)
        requires
            i < old(self)@.buffers.len(),
        ensures
            final(self)@.registry == old(self)@.registry,
            match outcome {
                ReadOutcome::Bytes(bytes) => {
                    &&& final(self)@.buffers == old(self)@.buffers.update(
                        i as int,
                        old(self)@.buffers[i as int] + bytes@,
                    )
                    &&& step == if bytes@.len() == 0 {
                        ClientStep::Drop
                    } else {
                        ClientStep::ReadMore
                    }
                },
                ReadOutcome::WouldBlock => final(self)@.buffers == old(self)@.buffers && step
                    == ClientStep::Answer,
                ReadOutcome::Failed => final(self)@.buffers == old(self)@.buffers && step
                    == ClientStep::Drop,
            },
    {
        match outcome {
            ReadOutcome::Bytes(bytes) => {
                let mut bytes = bytes;
                let step = if bytes.len() == 0 {
                    ClientStep::Drop
                } else {
                    ClientStep::ReadMore
                };
                let mut buf: Vec<u8> = Vec::new();
                std::mem::swap(&mut buf, &mut self.clients[i].buf);
                buf.append(&mut bytes);
                self.clients[i].buf = buf;
                assert(self@.buffers =~= old(self)@.buffers.update(
                    i as int,
                    old(self)@.buffers[i as int] + outcome->Bytes_0@,
                ));
                step
            },
            ReadOutcome::WouldBlock => ClientStep::Answer,
            ReadOutcome::Failed => ClientStep::Drop,
        }
    }

    /// The next complete request of client `i`.
    pub fn next_request(&mut self, i: usize) -> (r: Option<String>)
        requires
            i < old(self)@.buffers.len(),
        ensures
            final(self)@.registry == old(self)@.registry,
            final(self)@.buffers == old(self)@.buffers.update(
                i as int,
                final(self)@.buffers[i as int],
            ),
            match r {
                Some(request) => requests(old(self)@.buffers[i as int]) == seq![request@]
                    + requests(final(self)@.buffers[i as int]),
                None => requests(old(self)@.buffers[i as int]).len() == 0
                    && final(self)@.buffers[i as int] == unfinished(
                    old(self)@.buffers[i as int],
                ),
            },
            unfinished(final(self)@.buffers[i as int]) == unfinished(
                old(self)@.buffers[i as int],
            ),
    {
        let mut buf: Vec<u8> = Vec::new();
        std::mem::swap(&mut buf, &mut self.clients[i].buf);
        let r = take_request(&mut buf);
        self.clients[i].buf = buf;
        assert(self@.buffers =~= old(self)@.buffers.update(i as int, buf@));
        r
    }

    /// Answers a request that was read as `parsed`; `loaded` is what reading
    /// the source of an artifact gave. A request that is no proposal is
    /// answered too.
    pub fn answer(
        &mut self,
        parsed: Result<Proposal, String>,
        loaded: Result<Vec<GaussianSplat>, String>,
        device_name: &str,
        pipeline: &SplatPipeline,
    ) -> (reply: Reply)
        requires
            old(self)@.registry.wf(),
        ensures
            final(self)@.registry.wf(),
            final(self)@.buffers == old(self)@.buffers,
            match parsed {
                Ok(proposal) => {
                    &&& answered(
                        old(self)@.registry,
                        proposal,
                        loaded,
                        pipeline.capacity,
                        final(self)@.registry,
                        reply.result,
                        reply.work,
                    )
                    &&& notice_list(reply.notices@) == noted(
                        old(self)@.registry,
                        proposal,
                        loaded,
                        pipeline.capacity,
                        device_name@,
                    )
                    &&& text::opt_string(reply.done) == noted_after(
                        old(self)@.registry,
                        proposal,
                        loaded,
                        pipeline.capacity,
                    )
                    &&& reply.failed@ == failure_noted(proposal)
                },
                Err(reason) => {
                    &&& final(self)@.registry == old(self)@.registry
                    &&& reply.work.is_empty()
                    &&& notice_list(reply.notices@) == seq![
                        (true, "[socket] malformed proposal: "@ + reason@),
                    ]
                    &&& reply.done is None
                    &&& reply.failed@ == ""@
                    &&& reply.result.is_err("unknown"@, "malformed proposal: "@ + reason@)
                },
            },
    {
        match parsed {
            Ok(proposal) => dispatch(
                proposal,
                loaded,
                device_name,
                &mut self.registry,
                pipeline,
            ),
            Err(reason) => {
                let mut message = "malformed proposal: ".to_string();
                message.append(reason.as_str());
                let mut line = "[socket] malformed proposal: ".to_string();
                line.append(reason.as_str());
                plain_reply(ProposalResult::err("unknown", message), one_notice(true, line))
            },
        }
    }
}

// ---------------------------------------------------------------------------
// laws
// ---------------------------------------------------------------------------

/// How the bytes of a client are cut into reads does not matter: reading `a`,
/// taking its requests, then reading `b` gives the same requests, and leaves
/// the same rest, as reading both at once.
pub proof fn law_reads_may_be_cut_anywhere(a: Seq<u8>, b: Seq<u8>)
    ensures
        requests(a + b) == requests(a) + requests(unfinished(a) + b),
        unfinished(a + b) == unfinished(unfinished(a) + b),
    decreases a.len(),
{
    let n = line_bytes(a);
    lemma_line_bytes_bound(a);
    if n < a.len() {
        lemma_line_in_prefix(a, b);
        let rest = a.skip((n + 1) as int);
        assert((a + b).skip((n + 1) as int) =~= rest + b);
        assert((a + b).take((n + 1) as int) =~= a.take((n + 1) as int));
        law_reads_may_be_cut_anywhere(rest, b);
        match request_in(utf8_lossy(a.take((n + 1) as int))) {
            Some(request) => {
                assert(seq![request] + (requests(rest) + requests(unfinished(rest) + b)) =~= (
                seq![request] + requests(rest)) + requests(unfinished(rest) + b));
            },
            None => {},
        }
    } else {
        assert(requests(a) + requests(a + b) =~= requests(a + b));
    }
}

proof fn lemma_line_bytes_bound(buf: Seq<u8>)
    ensures
        line_bytes(buf) <= buf.len(),
    decreases buf.len(),
{
    if buf.len() > 0 && buf[0] != 10 {
        lemma_line_bytes_bound(buf.skip(1));
    }
}

proof fn lemma_line_in_prefix(a: Seq<u8>, b: Seq<u8>)
    requires
        line_bytes(a) < a.len(),
    ensures
        line_bytes(a + b) == line_bytes(a),
    decreases a.len(),
{
    if a.len() > 0 && a[0] != 10 {
        assert((a + b).skip(1) =~= a.skip(1) + b);
        lemma_line_in_prefix(a.skip(1), b);
    }
}

/// Every answer carries the id of the proposal that it answers, and is either
/// a success or an error.
pub proof fn law_answers_keep_the_id(
    before: RegistryModel,
    proposal: Proposal,
    loaded: Result<Vec<GaussianSplat>, String>,
    capacity: u32,
    after: RegistryModel,
    result: ProposalResult,
    work: GpuWork,
)
    requires
        answered(before, proposal, loaded, capacity, after, result, work),
    ensures
        result.proposal_id@ == proposal.id(),
        result.error is None ==> result.status@ == "ok"@,
        result.error is Some ==> result.status@ == "error"@ && result.detail is None,
{
}

/// A proposal that names a presence or an artifact that is not there is
/// answered with an error and changes neither the presences nor Scene Memory.
pub proof fn law_refused_proposals_change_nothing_held(
    before: RegistryModel,
    proposal: Proposal,
    loaded: Result<Vec<GaussianSplat>, String>,
    capacity: u32,
    after: RegistryModel,
    result: ProposalResult,
    work: GpuWork,
)
    requires
        answered(before, proposal, loaded, capacity, after, result, work),
        result.error is Some,
    ensures
        after.memory == before.memory,
        after.live == before.live,
{
    assert(after.memory =~= before.memory);
    assert(after.live =~= before.live);
}

/// A presence that was just spawned can be animated: the next proposal that
/// animates it is granted.
pub proof fn law_spawned_presences_can_be_animated(
    before: RegistryModel,
    spawn: Proposal,
    spawned: RegistryModel,
    spawn_result: ProposalResult,
    animate: Proposal,
    animated: RegistryModel,
    animate_result: ProposalResult,
    spawn_loaded: Result<Vec<GaussianSplat>, String>,
    animate_loaded: Result<Vec<GaussianSplat>, String>,
    capacity: u32,
    spawn_work: GpuWork,
    animate_work: GpuWork,
)
    requires
        spawn is SpawnPresence,
        animate is AnimatePresence,
        spawn->SpawnPresence_presence_id@ == animate->AnimatePresence_presence_id@,
        answered(before, spawn, spawn_loaded, capacity, spawned, spawn_result, spawn_work),
        answered(
            spawned,
            animate,
            animate_loaded,
            capacity,
            animated,
            animate_result,
            animate_work,
        ),
    ensures
        spawn_result.is_ok(
            spawn.id(),
            Some(DetailModel::PresenceId(spawn->SpawnPresence_presence_id@)),
        ),
        animate_result.is_ok(animate.id(), None),
{
    let id = spawn->SpawnPresence_presence_id@;
    assert(before.live.insert(id, spawned.live[id]).contains_key(id));
}

/// Retiring a presence that was not live before it was spawned leaves the
/// registry as it was; retiring it once more is refused.
pub proof fn law_retire_undoes_spawn(
    before: RegistryModel,
    spawn: Proposal,
    spawned: RegistryModel,
    spawn_result: ProposalResult,
    retire: Proposal,
    retired: RegistryModel,
    retire_result: ProposalResult,
    again: RegistryModel,
    again_result: ProposalResult,
    spawn_loaded: Result<Vec<GaussianSplat>, String>,
    retire_loaded: Result<Vec<GaussianSplat>, String>,
    again_loaded: Result<Vec<GaussianSplat>, String>,
    capacity: u32,
    spawn_work: GpuWork,
    retire_work: GpuWork,
    again_work: GpuWork,
)
    requires
        spawn is SpawnPresence,
        retire is RetirePresence,
        spawn->SpawnPresence_presence_id@ == retire->RetirePresence_presence_id@,
        !before.live.contains_key(spawn->SpawnPresence_presence_id@),
        answered(before, spawn, spawn_loaded, capacity, spawned, spawn_result, spawn_work),
        answered(spawned, retire, retire_loaded, capacity, retired, retire_result, retire_work),
        answered(retired, retire, again_loaded, capacity, again, again_result, again_work),
    ensures
        retired == before,
        retire_result.is_ok(retire.id(), None),
        again_result.is_err(
            retire.id(),
            presence::unknown_presence(retire->RetirePresence_presence_id@),
        ),
{
    let id = spawn->SpawnPresence_presence_id@;
    assert(before.live.insert(id, spawned.live[id]).contains_key(id));
    assert(retired.live =~= before.live);
}

/// A highlight is granted under its id, with a region named after it, and changes
/// nothing; what is logged is the device, the description and the duration.
pub proof fn law_highlights_are_acknowledged(
    server: &mut SocketServer,
    proposal: Proposal,
    loaded: Result<Vec<GaussianSplat>, String>,
    device_name: &str,
    pipeline: &SplatPipeline,
    reply: Reply,
    proposal_id: String,
    description: String,
    duration_seconds: u32,
)
    requires
        call_ensures(
            SocketServer::answer,
            (server, Ok(proposal), loaded, device_name, pipeline),
            reply,
        ),
        proposal == (Proposal::HighlightRegion { proposal_id, description, duration_seconds }),
    ensures
        final(server)@ == old(server)@,
        reply.result.proposal_id@ == proposal_id@,
        reply.result.status@ == "ok"@,
        reply.result.error is None,
        reply.result.detail matches Some(Detail::RegionId(region)) && region@ == "r-"@
            + proposal_id@,
        reply.work.writes@.len() == 0,
        reply.work.tick is None,
        reply.notices@.len() == 1,
        !reply.notices@[0].warning,
        reply.notices@[0].line@ == "[registry] highlightRegion on "@ + device_name@ + ": \""@
            + description@ + "\" for "@ + text::decimal(duration_seconds as nat) + "s"@,
{
    assert(notice_list(reply.notices@).len() == 1);
    assert(notice_list(reply.notices@)[0] == (reply.notices@[0].warning, reply.notices@[0].line@));
}

/// A spawned presence is live with the context, the style and the artifact that
/// it was given and an empty pose, whether or not that artifact is held; every
/// other presence, and all of Scene Memory, stays.
pub proof fn law_spawned_presences_are_live(
    server: &mut SocketServer,
    proposal: Proposal,
    loaded: Result<Vec<GaussianSplat>, String>,
    device_name: &str,
    pipeline: &SplatPipeline,
    reply: Reply,
    proposal_id: String,
    presence_id: String,
    source_context: String,
    style_hint: Option<String>,
    artifact_id: Option<String>,
)
    requires
        call_ensures(
            SocketServer::answer,
            (server, Ok(proposal), loaded, device_name, pipeline),
            reply,
        ),
        proposal == (Proposal::SpawnPresence {
            proposal_id,
            presence_id,
            source_context,
            style_hint,
            artifact_id,
        }),
    ensures
        final(server)@.buffers == old(server)@.buffers,
        final(server)@.registry.memory == old(server)@.registry.memory,
        final(server)@.registry.ranges == old(server)@.registry.ranges,
        final(server)@.registry.live.contains_key(presence_id@),
        ({
            let live = final(server)@.registry.live[presence_id@];
            &&& live.source_context@ == source_context@
            &&& live.style_hint is Some <==> style_hint is Some
            &&& style_hint is Some ==> live.style_hint->0@ == style_hint->0@
            &&& live.artifact_id is Some <==> artifact_id is Some
            &&& artifact_id is Some ==> live.artifact_id->0@ == artifact_id->0@
            &&& live.current_pose.params@.len() == 0
        }),
        forall|other: Seq<char>|
            other != presence_id@ ==> (#[trigger] final(server)@.registry.live.contains_key(other)
                <==> old(server)@.registry.live.contains_key(other)),
        forall|other: Seq<char>|
            other != presence_id@ && #[trigger] old(server)@.registry.live.contains_key(other)
                ==> final(server)@.registry.live[other] == old(server)@.registry.live[other],
        reply.result.proposal_id@ == proposal_id@,
        reply.result.status@ == "ok"@,
        reply.result.error is None,
        reply.result.detail matches Some(Detail::PresenceId(id)) && id@ == presence_id@,
        reply.work.writes@.len() == 0,
        reply.work.tick is None,
{
    let before = old(server)@.registry;
    let after = final(server)@.registry;
    assert(after.live == before.live.insert(presence_id@, after.live[presence_id@]));
    assert(before.live.insert(presence_id@, after.live[presence_id@]).contains_key(presence_id@));
}

/// Animating a live presence puts it at rest, in as many numbers as its pose had
/// but at least one, and keeps what it was spawned with; every other presence
/// stays. A presence that is not live is refused by its id.
pub proof fn law_animated_presences_rest(
    server: &mut SocketServer,
    proposal: Proposal,
    loaded: Result<Vec<GaussianSplat>, String>,
    device_name: &str,
    pipeline: &SplatPipeline,
    reply: Reply,
    proposal_id: String,
    presence_id: String,
    text: String,
    k: int,
)
    requires
        call_ensures(
            SocketServer::answer,
            (server, Ok(proposal), loaded, device_name, pipeline),
            reply,
        ),
        proposal == (Proposal::AnimatePresence { proposal_id, presence_id, text }),
    ensures
        final(server)@.registry.memory == old(server)@.registry.memory,
        reply.result.proposal_id@ == proposal_id@,
        reply.result.detail is None,
        reply.work.writes@.len() == 0,
        reply.work.tick is None,
        forall|other: Seq<char>|
            (#[trigger] final(server)@.registry.live.contains_key(other)
                <==> old(server)@.registry.live.contains_key(other)),
        forall|other: Seq<char>|
            other != presence_id@ && #[trigger] old(server)@.registry.live.contains_key(other)
                ==> final(server)@.registry.live[other] == old(server)@.registry.live[other],
        old(server)@.registry.live.contains_key(presence_id@) ==> {
            let was = old(server)@.registry.live[presence_id@];
            let is = final(server)@.registry.live[presence_id@];
            &&& is.source_context == was.source_context
            &&& is.style_hint == was.style_hint
            &&& is.artifact_id == was.artifact_id
            &&& was.current_pose.params@.len() == 0 ==> is.current_pose.params@.len() == 1
            &&& was.current_pose.params@.len() > 0 ==> is.current_pose.params@.len()
                == was.current_pose.params@.len()
            &&& 0 <= k < is.current_pose.params@.len() ==> is.current_pose.params@[k] == 0
            &&& reply.result.status@ == "ok"@
            &&& reply.result.error is None
            &&& reply.notices@.len() == 1
        },
        !old(server)@.registry.live.contains_key(presence_id@) ==> {
            &&& final(server)@.registry == old(server)@.registry
            &&& reply.result.status@ == "error"@
            &&& reply.result.error is Some
            &&& reply.result.error->0@ == "no live presence with id "@ + presence_id@
            &&& reply.notices@.len() == 0
        },
{
    let before = old(server)@.registry;
    let after = final(server)@.registry;
    assert(notice_list(reply.notices@).len() == reply.notices@.len());
    if before.live.contains_key(presence_id@) {
        assert(after.live == before.live.insert(presence_id@, after.live[presence_id@]));
    }
}

/// Retiring a live presence ends that one alone; a presence that is not live is
/// refused by its id.
pub proof fn law_retired_presences_end(
    server: &mut SocketServer,
    proposal: Proposal,
    loaded: Result<Vec<GaussianSplat>, String>,
    device_name: &str,
    pipeline: &SplatPipeline,
    reply: Reply,
    proposal_id: String,
    presence_id: String,
    other: Seq<char>,
)
    requires
        call_ensures(
            SocketServer::answer,
            (server, Ok(proposal), loaded, device_name, pipeline),
            reply,
        ),
        proposal == (Proposal::RetirePresence { proposal_id, presence_id }),
    ensures
        final(server)@.registry.memory == old(server)@.registry.memory,
        !final(server)@.registry.live.contains_key(presence_id@),
        other != presence_id@ ==> (final(server)@.registry.live.contains_key(other)
            <==> old(server)@.registry.live.contains_key(other)),
        other != presence_id@ && old(server)@.registry.live.contains_key(other)
            ==> final(server)@.registry.live[other] == old(server)@.registry.live[other],
        reply.result.proposal_id@ == proposal_id@,
        reply.result.detail is None,
        reply.work.writes@.len() == 0,
        reply.work.tick is None,
        old(server)@.registry.live.contains_key(presence_id@) ==> reply.result.status@ == "ok"@
            && reply.result.error is None,
        !old(server)@.registry.live.contains_key(presence_id@) ==> reply.result.status@
            == "error"@ && reply.result.error is Some && reply.result.error->0@
            == "no live presence with id "@ + presence_id@,
{
    assert(final(server)@.registry.live == old(server)@.registry.live.remove(presence_id@));
}

/// An artifact is granted whatever became of its source. What is held under its
/// id is its description and source, and the splats when there is a source that
/// loaded, none otherwise; everything else that is held stays.
pub proof fn law_added_artifacts_are_held(
    server: &mut SocketServer,
    proposal: Proposal,
    loaded: Result<Vec<GaussianSplat>, String>,
    device_name: &str,
    pipeline: &SplatPipeline,
    reply: Reply,
    proposal_id: String,
    artifact_id: String,
    description: String,
    source_uri: Option<String>,
    other: Seq<char>,
)
    requires
        call_ensures(
            SocketServer::answer,
            (server, Ok(proposal), loaded, device_name, pipeline),
            reply,
        ),
        proposal == (Proposal::AddArtifact { proposal_id, artifact_id, description, source_uri }),
    ensures
        final(server)@.registry.live == old(server)@.registry.live,
        final(server)@.registry.memory.contains_key(artifact_id@),
        ({
            let held = final(server)@.registry.memory[artifact_id@];
            &&& held.description@ == description@
            &&& held.source_uri is Some <==> source_uri is Some
            &&& source_uri is Some ==> held.source_uri->0@ == source_uri->0@
            &&& held.skinning is None
            &&& source_uri is Some && loaded is Ok ==> held.splats@ == loaded->Ok_0@
            &&& source_uri is None || loaded is Err ==> held.splats@.len() == 0
            &&& held.splats@.len() == 0 ==> reply.work.writes@.len() == 0 && reply.work.tick is None
        }),
        other != artifact_id@ ==> (final(server)@.registry.memory.contains_key(other)
            <==> old(server)@.registry.memory.contains_key(other)),
        other != artifact_id@ && old(server)@.registry.memory.contains_key(other)
            ==> final(server)@.registry.memory[other] == old(server)@.registry.memory[other],
        reply.result.proposal_id@ == proposal_id@,
        reply.result.status@ == "ok"@,
        reply.result.error is None,
        reply.result.detail matches Some(Detail::ArtifactId(id)) && id@ == artifact_id@,
        reply.notices@.len() >= 1,
        reply.notices@[0].warning <==> source_uri is Some && loaded is Err,
{
    let before = old(server)@.registry;
    let after = final(server)@.registry;
    assert(before.memory.insert(artifact_id@, after.memory[artifact_id@]).contains_key(
        artifact_id@,
    ));
    assert(notice_list(reply.notices@).len() == reply.notices@.len());
    assert(notice_list(reply.notices@)[0].0 == reply.notices@[0].warning);
}

/// Retiring an artifact lets go of that one alone; an artifact that is not held
/// is refused by its id.
pub proof fn law_retired_artifacts_are_let_go(
    server: &mut SocketServer,
    proposal: Proposal,
    loaded: Result<Vec<GaussianSplat>, String>,
    device_name: &str,
    pipeline: &SplatPipeline,
    reply: Reply,
    proposal_id: String,
    artifact_id: String,
    other: Seq<char>,
)
    requires
        call_ensures(
            SocketServer::answer,
            (server, Ok(proposal), loaded, device_name, pipeline),
            reply,
        ),
        proposal == (Proposal::RetireArtifact { proposal_id, artifact_id }),
    ensures
        final(server)@.registry.live == old(server)@.registry.live,
        !final(server)@.registry.memory.contains_key(artifact_id@),
        other != artifact_id@ ==> (final(server)@.registry.memory.contains_key(other)
            <==> old(server)@.registry.memory.contains_key(other)),
        other != artifact_id@ && old(server)@.registry.memory.contains_key(other)
            ==> final(server)@.registry.memory[other] == old(server)@.registry.memory[other],
        reply.result.proposal_id@ == proposal_id@,
        reply.result.detail is None,
        reply.work.tick is Some <==> old(server)@.registry.ranges.contains_key(artifact_id@),
        old(server)@.registry.memory.contains_key(artifact_id@) ==> reply.result.status@ == "ok"@
            && reply.result.error is None,
        !old(server)@.registry.memory.contains_key(artifact_id@) ==> reply.result.status@
            == "error"@ && reply.result.error is Some && reply.result.error->0@
            == "no held artifact with id "@ + artifact_id@,
{
    assert(final(server)@.registry.memory == old(server)@.registry.memory.remove(artifact_id@));
}

/// A request that is no proposal is answered with why, under an id that stands
/// for none, and changes nothing.
pub proof fn law_malformed_requests_are_answered(
    server: &mut SocketServer,
    reason: String,
    loaded: Result<Vec<GaussianSplat>, String>,
    device_name: &str,
    pipeline: &SplatPipeline,
    reply: Reply,
)
    requires
        call_ensures(
            SocketServer::answer,
            (server, Err(reason), loaded, device_name, pipeline),
            reply,
        ),
    ensures
        final(server)@ == old(server)@,
        reply.result.proposal_id@ == "unknown"@,
        reply.result.status@ == "error"@,
        reply.result.detail is None,
        reply.result.error is Some,
        reply.result.error->0@ == "malformed proposal: "@ + reason@,
        reply.work.writes@.len() == 0,
        reply.work.tick is None,
{
}

/// A line makes a request once its line feed is there: the line without the
/// white space around it, or none when nothing is left. What follows is cut in
/// the same way; bytes without a line feed make no request and are kept.
pub proof fn law_requests_are_lines(
    line: Seq<u8>,
    rest: Seq<u8>,
    before: Seq<char>,
    request: Seq<char>,
    after: Seq<char>,
)
    requires
        forall|i: int| 0 <= i < line.len() ==> #[trigger] line[i] != 10,
        text::is_blank(before),
        text::is_blank(after),
        request.len() == 0 || !text::is_white(request[0]) && !text::is_white(request.last()),
        utf8_lossy(line + seq![10u8]) == before + request + after,
    ensures
        requests(line) == Seq::<Seq<char>>::empty(),
        unfinished(line) == line,
        request.len() > 0 ==> requests(line + seq![10u8] + rest) == seq![request] + requests(rest),
        request.len() == 0 ==> requests(line + seq![10u8] + rest) == requests(rest),
        unfinished(line + seq![10u8] + rest) == unfinished(rest),
{
    let whole = line + seq![10u8] + rest;
    lemma_line_bytes(line, Seq::empty());
    assert(line + Seq::<u8>::empty() =~= line);
    lemma_line_bytes(line, seq![10u8] + rest);
    assert(whole =~= line + (seq![10u8] + rest));
    assert(whole.take((line.len() + 1) as int) =~= line + seq![10u8]);
    assert(whole.skip((line.len() + 1) as int) =~= rest);
    if request.len() > 0 {
        text::law_trim_takes_the_ends(before, request, after);
    } else {
        assert(before + request + after =~= before + after);
        text::law_blank_is_trimmed_away(before + after);
    }
}

proof fn lemma_line_bytes(line: Seq<u8>, rest: Seq<u8>)
    requires
        forall|i: int| 0 <= i < line.len() ==> #[trigger] line[i] != 10,
        rest.len() == 0 || rest[0] == 10,
    ensures
        line_bytes(line + rest) == line.len(),
    decreases line.len(),
{
    if line.len() == 0 {
        assert(line + rest =~= rest);
    } else {
        assert((line + rest).skip(1) =~= line.skip(1) + rest);
        assert(line[0] != 10);
        lemma_line_bytes(line.skip(1), rest);
    }
}

/// The next request of a client is its first complete line that is not blank,
/// and the other clients keep what they have sent.
pub proof fn law_next_request_is_the_first_line(
    server: &mut SocketServer,
    i: usize,
    r: Option<String>,
    line: Seq<u8>,
    rest: Seq<u8>,
    before: Seq<char>,
    request: Seq<char>,
    after: Seq<char>,
    other: int,
)
    requires
        call_ensures(SocketServer::next_request, (server, i), r),
        i < old(server)@.buffers.len(),
        old(server)@.buffers[i as int] == line + seq![10u8] + rest,
        forall|k: int| 0 <= k < line.len() ==> #[trigger] line[k] != 10,
        text::is_blank(before),
        text::is_blank(after),
        request.len() > 0,
        !text::is_white(request[0]),
        !text::is_white(request.last()),
        utf8_lossy(line + seq![10u8]) == before + request + after,
        0 <= other < old(server)@.buffers.len(),
        other != i,
    ensures
        r is Some,
        r->0@ == request,
        requests(final(server)@.buffers[i as int]) == requests(rest),
        unfinished(final(server)@.buffers[i as int]) == unfinished(rest),
        final(server)@.registry == old(server)@.registry,
        final(server)@.buffers.len() == old(server)@.buffers.len(),
        final(server)@.buffers[other] == old(server)@.buffers[other],
{
    law_requests_are_lines(line, rest, before, request, after);
    let left = requests(final(server)@.buffers[i as int]);
    assert(requests(old(server)@.buffers[i as int]) == seq![request] + requests(rest));
    assert((seq![request] + requests(rest))[0] == request);
    match r {
        Some(found) => {
            assert((seq![found@] + left)[0] == found@);
            assert((seq![found@] + left).skip(1) =~= left);
            assert((seq![request] + requests(rest)).skip(1) =~= requests(rest));
        },
        None => {
            assert((seq![request] + requests(rest)).len() > 0);
        },
    }
}

/// What is read from a client is put behind what it has sent before, and
/// touches no other client. Reading goes on while bytes come; a client that
/// closed or failed is let go, and one with nothing more to say is answered.
pub proof fn law_reads_are_put_behind(
    server: &mut SocketServer,
    i: usize,
    outcome: ReadOutcome,
    step: ClientStep,
    other: int,
)
    requires
        call_ensures(SocketServer::receive, (server, i, outcome), step),
        i < old(server)@.buffers.len(),
        0 <= other < old(server)@.buffers.len(),
        other != i,
    ensures
        final(server)@.registry == old(server)@.registry,
        final(server)@.buffers.len() == old(server)@.buffers.len(),
        final(server)@.buffers[other] == old(server)@.buffers[other],
        outcome matches ReadOutcome::Bytes(bytes) ==> final(server)@.buffers[i as int]
            == old(server)@.buffers[i as int] + bytes@,
        outcome !is Bytes ==> final(server)@.buffers[i as int] == old(server)@.buffers[i as int],
        step is ReadMore <==> outcome is Bytes && outcome->Bytes_0@.len() > 0,
        step is Answer <==> outcome is WouldBlock,
{
}

/// A new client comes last and has sent nothing; one that is let go leaves the
/// others in their order.
pub proof fn law_clients_come_and_go(
    server: &mut SocketServer,
    other: &mut SocketServer,
    i: usize,
    k: int,
)
    requires
        call_ensures(SocketServer::accept, (server,), ()),
        call_ensures(SocketServer::remove, (other, i), ()),
        i < old(other)@.buffers.len(),
    ensures
        final(server)@.registry == old(server)@.registry,
        final(server)@.buffers.len() == old(server)@.buffers.len() + 1,
        final(server)@.buffers.last().len() == 0,
        0 <= k < old(server)@.buffers.len() ==> final(server)@.buffers[k]
            == old(server)@.buffers[k],
        final(other)@.registry == old(other)@.registry,
        final(other)@.buffers.len() == old(other)@.buffers.len() - 1,
        0 <= k < i ==> final(other)@.buffers[k] == old(other)@.buffers[k],
        i <= k < final(other)@.buffers.len() ==> final(other)@.buffers[k]
            == old(other)@.buffers[k + 1],
{
}

/// The socket lies below the runtime directory, or below the one for temporary
/// files, with one slash between.
pub proof fn law_socket_path(dir: &str, set: String, unset: String)
    requires
        call_ensures(socket_path, (Some(dir),), set),
        call_ensures(socket_path, (None::<&str>,), unset),
    ensures
        dir@.len() > 0 && dir@.last() != '/' ==> set@ == dir@ + "/pachakutech/presence.sock"@,
        dir@.len() > 0 && dir@.last() == '/' ==> set@ == dir@ + "pachakutech/presence.sock"@,
        unset@ == "/tmp/pachakutech/presence.sock"@,
{
    reveal_strlit("/tmp");
    reveal_strlit("/pachakutech/presence.sock");
    reveal_strlit("/tmp/pachakutech/presence.sock");
    assert("/tmp"@ + "/pachakutech/presence.sock"@ =~= "/tmp/pachakutech/presence.sock"@);
}

/// What is logged of a spawn: where an artifact is named, whether it is held
/// and with how many splats; and of a pose: the text and the dimension.
pub proof fn law_presences_are_logged(
    server: &mut SocketServer,
    proposal: Proposal,
    loaded: Result<Vec<GaussianSplat>, String>,
    device_name: &str,
    pipeline: &SplatPipeline,
    reply: Reply,
    proposal_id: String,
    presence_id: String,
    source_context: String,
    style_hint: Option<String>,
    artifact_id: Option<String>,
    text: String,
)
    requires
        call_ensures(
            SocketServer::answer,
            (server, Ok(proposal), loaded, device_name, pipeline),
            reply,
        ),
        proposal == (Proposal::SpawnPresence {
            proposal_id,
            presence_id,
            source_context,
            style_hint,
            artifact_id,
        }) || proposal == (Proposal::AnimatePresence { proposal_id, presence_id, text }),
    ensures
        reply.done is None,
        reply.failed@ == ""@,
        proposal is SpawnPresence && artifact_id is None ==> reply.notices@.len() == 0,
        proposal is SpawnPresence && artifact_id is Some ==> {
            let id = artifact_id->0@;
            &&& reply.notices@.len() == 1
            &&& !reply.notices@[0].warning
            &&& old(server)@.registry.memory.contains_key(id) ==> reply.notices@[0].line@
                == "[presence] "@ + presence_id@ + " built from artifact "@ + id + " ("@
                + text::decimal(old(server)@.registry.memory[id].splats@.len()) + " splats held)"@
            &&& !old(server)@.registry.memory.contains_key(id) ==> reply.notices@[0].line@
                == "[presence] "@ + presence_id@ + " referenced unknown artifact "@ + id
                + " — spawning from source_context alone"@
        },
        proposal is AnimatePresence && old(server)@.registry.live.contains_key(presence_id@) ==> {
            let was = old(server)@.registry.live[presence_id@].current_pose.params@.len();
            &&& reply.notices@.len() == 1
            &&& !reply.notices@[0].warning
            &&& reply.notices@[0].line@ == "[presence] "@ + presence_id@ + ": \""@ + text@
                + "\" -> pose code (dim "@ + text::decimal(
                if was == 0 {
                    1nat
                } else {
                    was
                },
            )
                + ") -> TODO: apply via LBS/DQS to the canonical cloud (both the mapping and the skinning apply step are unbuilt)"@
        },
{
    let listed = notice_list(reply.notices@);
    assert(listed.len() == reply.notices@.len());
    if reply.notices@.len() > 0 {
        assert(listed[0] == (reply.notices@[0].warning, reply.notices@[0].line@));
    }
}

/// What is logged of an artifact: what became of its source; a warning where
/// its splats found no room, or not all of them; and, once the device is done,
/// how many went to which slot.
pub proof fn law_artifacts_are_logged(
    server: &mut SocketServer,
    proposal: Proposal,
    loaded: Result<Vec<GaussianSplat>, String>,
    device_name: &str,
    pipeline: &SplatPipeline,
    reply: Reply,
    proposal_id: String,
    artifact_id: String,
    description: String,
    source_uri: Option<String>,
    len: nat,
    room: nat,
)
    requires
        call_ensures(
            SocketServer::answer,
            (server, Ok(proposal), loaded, device_name, pipeline),
            reply,
        ),
        proposal == (Proposal::AddArtifact { proposal_id, artifact_id, description, source_uri }),
        source_uri is Some && loaded is Ok ==> len == loaded->Ok_0@.len(),
        source_uri is None || loaded is Err ==> len == 0,
        len <= u32::MAX,
        room == if pipeline.capacity > old(server)@.registry.next_slot {
            (pipeline.capacity - old(server)@.registry.next_slot) as nat
        } else {
            0
        },
    ensures
        reply.notices@.len() == if len > room {
            2int
        } else {
            1
        },
        reply.notices@[0].line@ == match (source_uri, loaded) {
            (Some(uri), Ok(splats)) => "[control] ingest "@ + artifact_id@ + ": loaded "@
                + text::decimal(len) + " splats from "@ + uri@,
            (Some(uri), Err(reason)) => "[control] ingest "@ + artifact_id@ + ": couldn't load '"@
                + uri@ + "' ("@ + reason@ + ") — holding an empty cloud instead"@,
            (None, _) => "[control] ingest "@ + artifact_id@ + ": \""@ + description@
                + "\" with no source_uri — holding an empty cloud"@,
        },
        len > room ==> reply.notices@[1].warning,
        len > 0 && room == 0 ==> reply.notices@[1].line@ == "[registry] GPU buffer full — "@
            + artifact_id@ + " held in Scene Memory only"@,
        len > room > 0 ==> reply.notices@[1].line@ == "[registry] "@ + artifact_id@
            + ": truncated "@ + text::decimal(len) + " -> "@ + text::decimal(room)
            + " splats (capacity "@ + text::decimal(pipeline.capacity as nat) + ")"@,
        reply.done is Some <==> len > 0 && room > 0,
        len > 0 && room > 0 ==> reply.done->0@ == "[registry] uploaded "@ + text::decimal(
            if len <= room {
                len
            } else {
                room
            },
        ) + " splats for "@ + artifact_id@ + " at slot "@ + text::decimal(
            old(server)@.registry.next_slot as nat,
        ),
        reply.failed@ == "[registry] tick after ingest "@ + artifact_id@ + ": "@,
{
    let listed = notice_list(reply.notices@);
    assert(listed.len() == reply.notices@.len());
    assert(listed[0] == (reply.notices@[0].warning, reply.notices@[0].line@));
    if reply.notices@.len() > 1 {
        assert(listed[1] == (reply.notices@[1].warning, reply.notices@[1].line@));
    }
}

/// A line makes the request that is left of it without the white space around
/// it, and none when nothing is left.
pub proof fn law_lines_make_requests(
    line: &str,
    r: Option<String>,
    before: Seq<char>,
    request: Seq<char>,
    after: Seq<char>,
)
    requires
        call_ensures(request_of, (line,), r),
        line@ == before + request + after,
        text::is_blank(before),
        text::is_blank(after),
        request.len() == 0 || !text::is_white(request[0]) && !text::is_white(request.last()),
    ensures
        r is Some <==> request.len() > 0,
        r matches Some(s) ==> s@ == request,
{
    if request.len() > 0 {
        text::law_trim_takes_the_ends(before, request, after);
    } else {
        assert(before + request + after =~= before + after);
        text::law_blank_is_trimmed_away(before + after);
    }
}

/// A new server has no client and an empty registry.
pub proof fn law_servers_start_empty(server: SocketServer, n: usize, id: Seq<char>)
    requires
        call_ensures(SocketServer::new, (), server),
        call_ensures(SocketServer::client_count, (&server,), n),
    ensures
        n == 0,
        server@.buffers.len() == 0,
        !server@.registry.live.contains_key(id),
        !server@.registry.memory.contains_key(id),
        server@.registry.next_slot == 0,
{
}

} // verus!
