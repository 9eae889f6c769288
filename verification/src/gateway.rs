//! The persistence gateway: the requests that go to the store, each under
//! one fixed deadline, and the reading of what came back. A timeout, an
//! absent row, a violated uniqueness constraint and any other fault are
//! kept apart, because the callers react to each in another way. Nothing
//! is retried here.

use vstd::prelude::*;
use crate::error::StoreFailure;
use crate::model::{
    count_views, CountView, CountedLinkStatistic, Link, LinkView, Settings, SettingsView,
    VisitRecord, VisitView,
};

verus! {

/// How long the gateway waits for the store, in milliseconds.
pub const STORE_DEADLINE_MS: u64 = 300;

/// The key of the one settings record.
pub const SETTINGS_ID: &'static str = "DEFAULT_SETTINGS";

/// The kinds of store operation.
#[derive(Clone, Copy, Debug, PartialEq, Eq, Structural)]
pub enum Operation {
    FetchLink,
    InsertLink,
    UpdateLink,
    InsertVisit,
    FetchStatistics,
    FetchGlobalSettings,
}

/// A request to the store.
#[derive(Clone, Debug, PartialEq, Eq)]
pub enum StoreRequest {
    FetchLink { id: String },
    InsertLink { id: String, target_url: String },
    UpdateLink { id: String, target_url: String },
    InsertVisit { visit: VisitRecord },
    FetchStatistics { link_id: String },
    FetchGlobalSettings,
}

/// The view of a [`StoreRequest`].
pub enum RequestView {
    FetchLink { id: Seq<char> },
    InsertLink { id: Seq<char>, target_url: Seq<char> },
    UpdateLink { id: Seq<char>, target_url: Seq<char> },
    InsertVisit { visit: VisitView },
    FetchStatistics { link_id: Seq<char> },
    FetchGlobalSettings,
}

impl View for StoreRequest {
    type V = RequestView;

    open spec fn view(&self) -> RequestView {
        match *self {
            StoreRequest::FetchLink { id } => RequestView::FetchLink { id: id@ },
            StoreRequest::InsertLink { id, target_url } => RequestView::InsertLink {
                id: id@,
                target_url: target_url@,
            },
            StoreRequest::UpdateLink { id, target_url } => RequestView::UpdateLink {
                id: id@,
                target_url: target_url@,
            },
            StoreRequest::InsertVisit { visit } => RequestView::InsertVisit { visit: visit@ },
            StoreRequest::FetchStatistics { link_id } => RequestView::FetchStatistics {
                link_id: link_id@,
            },
            StoreRequest::FetchGlobalSettings => RequestView::FetchGlobalSettings,
        }
    }
}

impl RequestView {
    /// The kind of operation that the request asks for.
    pub open spec fn operation(self) -> Operation {
        match self {
            RequestView::FetchLink { .. } => Operation::FetchLink,
            RequestView::InsertLink { .. } => Operation::InsertLink,
            RequestView::UpdateLink { .. } => Operation::UpdateLink,
            RequestView::InsertVisit { .. } => Operation::InsertVisit,
            RequestView::FetchStatistics { .. } => Operation::FetchStatistics,
            RequestView::FetchGlobalSettings => Operation::FetchGlobalSettings,
        }
    }

    /// The identifier of the link that the request is about, if it is about
    /// one.
    pub open spec fn link_id(self) -> Option<Seq<char>> {
        match self {
            RequestView::FetchLink { id } => Some(id),
            RequestView::InsertLink { id, .. } => Some(id),
            RequestView::UpdateLink { id, .. } => Some(id),
            RequestView::InsertVisit { visit } => Some(visit.link_id),
            RequestView::FetchStatistics { link_id } => Some(link_id),
            RequestView::FetchGlobalSettings => None,
        }
    }

    /// A request is well formed when the identifier it names is not empty.
    pub open spec fn well_formed(self) -> bool {
        match self.link_id() {
            Some(id) => id.len() > 0,
            None => true,
        }
    }
}

impl StoreRequest {
    /// The kind of operation that this request asks for.
    pub fn operation(&self) -> (op: Operation)
        ensures
            op == self@.operation(),
    {
        match self {
            StoreRequest::FetchLink { .. } => Operation::FetchLink,
            StoreRequest::InsertLink { .. } => Operation::InsertLink,
            StoreRequest::UpdateLink { .. } => Operation::UpdateLink,
            StoreRequest::InsertVisit { .. } => Operation::InsertVisit,
            StoreRequest::FetchStatistics { .. } => Operation::FetchStatistics,
            StoreRequest::FetchGlobalSettings => Operation::FetchGlobalSettings,
        }
    }

    /// The deadline of this request in milliseconds: the same for all.
    pub fn deadline_ms(&self) -> (ms: u64)
        ensures
            ms == STORE_DEADLINE_MS,
    {
        STORE_DEADLINE_MS
    }
}

/// What a store operation hands back when it succeeds.
#[derive(Clone, Debug, PartialEq, Eq)]
pub enum Payload {
    Link(Link),
    VisitSaved,
    Statistics(Vec<CountedLinkStatistic>),
    Settings(Settings),
}

/// The view of a [`Payload`].
pub enum PayloadView {
    Link(LinkView),
    VisitSaved,
    Statistics(Seq<CountView>),
    Settings(SettingsView),
}

impl View for Payload {
    type V = PayloadView;

    open spec fn view(&self) -> PayloadView {
        match *self {
            Payload::Link(link) => PayloadView::Link(link@),
            Payload::VisitSaved => PayloadView::VisitSaved,
            Payload::Statistics(counts) => PayloadView::Statistics(count_views(counts@)),
            Payload::Settings(settings) => PayloadView::Settings(settings@),
        }
    }
}

impl PayloadView {
    /// Whether this is what the operation hands back.
    pub open spec fn answers(self, op: Operation) -> bool {
        match self {
            PayloadView::Link(_) => op == Operation::FetchLink || op == Operation::InsertLink
                || op == Operation::UpdateLink,
            PayloadView::VisitSaved => op == Operation::InsertVisit,
            PayloadView::Statistics(_) => op == Operation::FetchStatistics,
            PayloadView::Settings(_) => op == Operation::FetchGlobalSettings,
        }
    }
}

/// The gateway's answer to a request.
pub type StoreReply = Result<Payload, StoreFailure>;

/// The view of a [`StoreReply`].
pub type ReplyView = Result<PayloadView, StoreFailure>;

/// The view of a reply.
pub open spec fn reply_view(reply: StoreReply) -> ReplyView {
    match reply {
        Ok(payload) => Ok(payload@),
        Err(failure) => Err(failure),
    }
}

/// How a store operation ended, before the gateway has read it.
#[derive(Clone, Debug, PartialEq, Eq)]
pub enum Completion {
    /// The deadline passed first.
    Elapsed,
    /// The store answered with this.
    Returned(Payload),
    /// The store answered that no row matches.
    NoRow,
    /// The store refused the write: the identifier is taken.
    UniqueViolation,
    /// The store, or the way to it, reported any other fault.
    Fault,
}

/// The view of a [`Completion`].
pub enum CompletionView {
    Elapsed,
    Returned(PayloadView),
    NoRow,
    UniqueViolation,
    Fault,
}

impl View for Completion {
    type V = CompletionView;

    open spec fn view(&self) -> CompletionView {
        match *self {
            Completion::Elapsed => CompletionView::Elapsed,
            Completion::Returned(payload) => CompletionView::Returned(payload@),
            Completion::NoRow => CompletionView::NoRow,
            Completion::UniqueViolation => CompletionView::UniqueViolation,
            Completion::Fault => CompletionView::Fault,
        }
    }
}

impl Operation {
    /// Whether the operation fetches or changes one row that may be absent.
    pub open spec fn spec_tolerates_absence(self) -> bool {
        self == Operation::FetchLink || self == Operation::UpdateLink || self
            == Operation::FetchGlobalSettings
    }

    /// Whether the operation fetches or changes one row that may be absent:
    /// only then is a missing row told as `NotFound`.
    #[verifier::when_used_as_spec(spec_tolerates_absence)]
    pub fn tolerates_absence(self) -> (b: bool)
        ensures
            b == self.spec_tolerates_absence(),
    {
        match self {
            Operation::FetchLink => true,
            Operation::UpdateLink => true,
            Operation::FetchGlobalSettings => true,
            _ => false,
        }
    }
}

/// How the gateway reads the end of an operation.
///
/// A passed deadline is a `Timeout` and nothing else. A missing row is
/// `NotFound` for the operations that tolerate absence, a violated
/// uniqueness constraint is `Conflict` for the insert of a link; anywhere
/// else either is a `StoreError`, as is every other fault and an answer
/// that does not belong to the operation.
pub open spec fn settled(op: Operation, completion: CompletionView) -> ReplyView {
    match completion {
        CompletionView::Elapsed => Err(StoreFailure::Timeout),
        CompletionView::Returned(payload) => if payload.answers(op) {
            Ok(payload)
        } else {
            Err(StoreFailure::StoreError)
        },
        CompletionView::NoRow => if op.spec_tolerates_absence() {
            Err(StoreFailure::NotFound)
        } else {
            Err(StoreFailure::StoreError)
        },
        CompletionView::UniqueViolation => if op == Operation::InsertLink {
            Err(StoreFailure::Conflict)
        } else {
            Err(StoreFailure::StoreError)
        },
        CompletionView::Fault => Err(StoreFailure::StoreError),
    }
}

/// Reads the end of a store operation into the gateway's reply.
pub fn settle(op: Operation, completion: Completion) -> (reply: StoreReply)
    ensures
        reply_view(reply) == settled(op, completion@),
        completion matches Completion::Returned(payload) ==> (reply is Ok ==> reply == Ok::<
            Payload,
            StoreFailure,
        >(payload)),
{
    match completion {
        Completion::Elapsed => Err(StoreFailure::Timeout),
        Completion::Returned(payload) => {
            let fits = match &payload {
                Payload::Link(_) => match op {
                    Operation::FetchLink => true,
                    Operation::InsertLink => true,
                    Operation::UpdateLink => true,
                    _ => false,
                },
                Payload::VisitSaved => match op {
                    Operation::InsertVisit => true,
                    _ => false,
                },
                Payload::Statistics(_) => match op {
                    Operation::FetchStatistics => true,
                    _ => false,
                },
                Payload::Settings(_) => match op {
                    Operation::FetchGlobalSettings => true,
                    _ => false,
                },
            };
            if fits {
                Ok(payload)
            } else {
                Err(StoreFailure::StoreError)
            }
        },
        Completion::NoRow => if op.tolerates_absence() {
            Err(StoreFailure::NotFound)
        } else {
            Err(StoreFailure::StoreError)
        },
        Completion::UniqueViolation => match op {
            Operation::InsertLink => Err(StoreFailure::Conflict),
            _ => Err(StoreFailure::StoreError),
        },
        Completion::Fault => Err(StoreFailure::StoreError),
    }
}

} // verus!
