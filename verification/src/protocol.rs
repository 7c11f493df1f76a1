//! What crosses the socket: a proposal in, a result out. Nothing dense, no
//! buffers and no pixels.

use crate::text;
use vstd::prelude::*;
use vstd::string::*;

verus! {

/// What a client may ask for.
#[derive(Debug)]
#[allow(inconsistent_fields)]
pub enum Proposal {
    HighlightRegion { proposal_id: String, description: String, duration_seconds: u32 },
    SpawnPresence {
        proposal_id: String,
        presence_id: String,
        source_context: String,
        style_hint: Option<String>,
        artifact_id: Option<String>,
    },
    AnimatePresence { proposal_id: String, presence_id: String, text: String },
    RetirePresence { proposal_id: String, presence_id: String },
    AddArtifact {
        proposal_id: String,
        artifact_id: String,
        description: String,
        source_uri: Option<String>,
    },
    RetireArtifact { proposal_id: String, artifact_id: String },
}

impl Proposal {
    /// The id that the client gave this proposal.
    pub open spec fn id(&self) -> Seq<char> {
        match *self {
            Proposal::HighlightRegion { proposal_id, .. } => proposal_id@,
            Proposal::SpawnPresence { proposal_id, .. } => proposal_id@,
            Proposal::AnimatePresence { proposal_id, .. } => proposal_id@,
            Proposal::RetirePresence { proposal_id, .. } => proposal_id@,
            Proposal::AddArtifact { proposal_id, .. } => proposal_id@,
            Proposal::RetireArtifact { proposal_id, .. } => proposal_id@,
        }
    }

    pub fn proposal_id(&self) -> (id: &str)
        ensures
            id@ == self.id(),
    {
        match self {
            Proposal::HighlightRegion { proposal_id, .. } => proposal_id.as_str(),
            Proposal::SpawnPresence { proposal_id, .. } => proposal_id.as_str(),
            Proposal::AnimatePresence { proposal_id, .. } => proposal_id.as_str(),
            Proposal::RetirePresence { proposal_id, .. } => proposal_id.as_str(),
            Proposal::AddArtifact { proposal_id, .. } => proposal_id.as_str(),
            Proposal::RetireArtifact { proposal_id, .. } => proposal_id.as_str(),
        }
    }

    /// The source that has to be read before this proposal can be carried out.
    pub open spec fn source(&self) -> Option<Seq<char>> {
        match *self {
            Proposal::AddArtifact { source_uri, .. } => text::opt_string(source_uri),
            _ => None,
        }
    }

    pub fn source_to_load(&self) -> (source: Option<&str>)
        ensures
            text::opt_str(source) == self.source(),
    {
        match self {
            Proposal::AddArtifact { source_uri, .. } => text::borrowed(source_uri),
            _ => None,
        }
    }
}

/// The one field that a result may carry.
#[derive(Debug)]
pub enum Detail {
    RegionId(String),
    PresenceId(String),
    ArtifactId(String),
}

/// A detail by its text.
pub enum DetailModel {
    RegionId(Seq<char>),
    PresenceId(Seq<char>),
    ArtifactId(Seq<char>),
}

impl View for Detail {
    type V = DetailModel;

    open spec fn view(&self) -> DetailModel {
        match *self {
            Detail::RegionId(id) => DetailModel::RegionId(id@),
            Detail::PresenceId(id) => DetailModel::PresenceId(id@),
            Detail::ArtifactId(id) => DetailModel::ArtifactId(id@),
        }
    }
}

impl Detail {
    /// The key of the field.
    pub open spec fn name(&self) -> Seq<char> {
        match self {
            Detail::RegionId(_) => "regionId"@,
            Detail::PresenceId(_) => "presenceId"@,
            Detail::ArtifactId(_) => "artifactId"@,
        }
    }

    /// The value of the field.
    pub open spec fn text(&self) -> Seq<char> {
        match *self {
            Detail::RegionId(id) => id@,
            Detail::PresenceId(id) => id@,
            Detail::ArtifactId(id) => id@,
        }
    }

    pub fn key(&self) -> (key: &'static str)
        ensures
            key@ == self.name(),
    {
        match self {
            Detail::RegionId(_) => "regionId",
            Detail::PresenceId(_) => "presenceId",
            Detail::ArtifactId(_) => "artifactId",
        }
    }

    pub fn value(&self) -> (value: &str)
        ensures
            value@ == self.text(),
    {
        match self {
            Detail::RegionId(id) => id.as_str(),
            Detail::PresenceId(id) => id.as_str(),
            Detail::ArtifactId(id) => id.as_str(),
        }
    }
}

/// An optional detail by its text.
pub open spec fn opt_detail(detail: Option<Detail>) -> Option<DetailModel> {
    match detail {
        Some(d) => Some(d@),
        None => None,
    }
}

/// The answer to a proposal.
#[derive(Debug)]
pub struct ProposalResult {
    pub proposal_id: String,
    pub status: &'static str,
    pub detail: Option<Detail>,
    pub error: Option<String>,
}

impl ProposalResult {
    /// A success for the proposal `id`.
    pub open spec fn is_ok(&self, id: Seq<char>, detail: Option<DetailModel>) -> bool {
        &&& self.proposal_id@ == id
        &&& self.status@ == "ok"@
        &&& opt_detail(self.detail) == detail
        &&& self.error is None
    }

    /// A failure of the proposal `id`.
    pub open spec fn is_err(&self, id: Seq<char>, message: Seq<char>) -> bool {
        &&& self.proposal_id@ == id
        &&& self.status@ == "error"@
        &&& self.detail is None
        &&& text::opt_string(self.error) == Some(message)
    }

    pub fn ok(proposal_id: &str, detail: Option<Detail>) -> (result: Self)
        ensures
            result.is_ok(proposal_id@, opt_detail(detail)),
            result.detail == detail,
    {
        ProposalResult { proposal_id: proposal_id.to_string(), status: "ok", detail, error: None }
    }

    pub fn err(proposal_id: &str, message: String) -> (result: Self)
        ensures
            result.is_err(proposal_id@, message@),
    {
        ProposalResult {
            proposal_id: proposal_id.to_string(),
            status: "error",
            detail: None,
            error: Some(message),
        }
    }
}

// ---------------------------------------------------------------------------
// laws
// ---------------------------------------------------------------------------

/// A proposal has the id that it was given, whatever it asks for, and a source
/// to load only where it adds an artifact that has one.
pub proof fn law_proposals_have_their_id(
    proposal: &Proposal,
    id: &str,
    source: Option<&str>,
)
    requires
        call_ensures(Proposal::proposal_id, (proposal,), id),
        call_ensures(Proposal::source_to_load, (proposal,), source),
    ensures
        *proposal matches Proposal::HighlightRegion { proposal_id, .. } ==> id@ == proposal_id@,
        *proposal matches Proposal::SpawnPresence { proposal_id, .. } ==> id@ == proposal_id@,
        *proposal matches Proposal::AnimatePresence { proposal_id, .. } ==> id@ == proposal_id@,
        *proposal matches Proposal::RetirePresence { proposal_id, .. } ==> id@ == proposal_id@,
        *proposal matches Proposal::AddArtifact { proposal_id, .. } ==> id@ == proposal_id@,
        *proposal matches Proposal::RetireArtifact { proposal_id, .. } ==> id@ == proposal_id@,
        *proposal !is AddArtifact ==> source is None,
        *proposal matches Proposal::AddArtifact { source_uri, .. } ==> {
            &&& source is Some <==> source_uri is Some
            &&& source is Some ==> source->0@ == source_uri->0@
        },
{
}

/// A detail is a field under its own key with its own text.
pub proof fn law_details_are_fields(detail: &Detail, key: &'static str, value: &str)
    requires
        call_ensures(Detail::key, (detail,), key),
        call_ensures(Detail::value, (detail,), value),
    ensures
        *detail matches Detail::RegionId(id) ==> key@ == "regionId"@ && value@ == id@,
        *detail matches Detail::PresenceId(id) ==> key@ == "presenceId"@ && value@ == id@,
        *detail matches Detail::ArtifactId(id) ==> key@ == "artifactId"@ && value@ == id@,
{
}

/// A result carries the id that it answers. A success is `ok` with its detail
/// and no error, a failure is `error` with its message and no detail.
pub proof fn law_results_are_one_or_the_other(
    proposal_id: &str,
    detail: Option<Detail>,
    granted: ProposalResult,
    message: String,
    refused: ProposalResult,
)
    requires
        call_ensures(ProposalResult::ok, (proposal_id, detail), granted),
        call_ensures(ProposalResult::err, (proposal_id, message), refused),
    ensures
        granted.proposal_id@ == proposal_id@,
        granted.status@ == "ok"@,
        granted.detail == detail,
        granted.error is None,
        refused.proposal_id@ == proposal_id@,
        refused.status@ == "error"@,
        refused.detail is None,
        refused.error is Some,
        refused.error->0@ == message@,
{
}

} // verus!
