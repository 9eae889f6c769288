//! The redirect resolver: looking a link up, answering with a redirect,
//! and writing the visit down; and the counts of a link's visits.
//!
//! The redirect is built as soon as the link is there, before the visit is
//! written. Whether that write succeeds is noted and changes nothing of
//! the redirect.

use vstd::prelude::*;
use vstd::utf8::encode_utf8;
use crate::error::{ServiceError, StoreFailure, STATUS_TEMPORARY_REDIRECT};
use crate::gateway::{
    reply_view, Payload, PayloadView, ReplyView, RequestView, StoreReply, StoreRequest,
};
use crate::model::{
    count_views, opt_text, CountView, CountedLinkStatistic, Header, HeaderView, VisitRecord,
    VisitView,
};

verus! {

/// What intermediaries are told about caching a redirect: five minutes, so
/// that repeated clicks stay away from the store and a changed target
/// still shows within minutes.
pub const DEFAULT_CACHE_CONTROL_HEADER_VALUE: &'static str =
    "public, max-age=300, s-maxage=300, stale-while-revalidate=300, stale-if-error=300";

/// The name of the header that says where a visitor came from.
pub const REFERER: &'static str = "referer";

/// The name of the header that says what a visitor came with.
pub const USER_AGENT: &'static str = "user-agent";

/// The views of a request's headers, in their order.
pub open spec fn header_views(headers: Seq<Header>) -> Seq<HeaderView> {
    headers.map_values(|h: Header| h@)
}

/// A byte, with an ASCII capital letter turned into its small one.
pub open spec fn lower_byte(b: u8) -> u8 {
    if 65 <= b <= 90 {
        (b + 32) as u8
    } else {
        b
    }
}

/// A header's name as it is compared: its UTF-8 bytes without regard to
/// ASCII case.
pub open spec fn folded(name: Seq<char>) -> Seq<u8> {
    encode_utf8(name).map_values(|b: u8| lower_byte(b))
}

/// Whether two names are the same header name: HTTP tells no capital
/// letter from its small one there.
pub open spec fn same_name(a: Seq<char>, b: Seq<char>) -> bool {
    folded(a) == folded(b)
}

/// The value of the first header named `key`: its text, the empty text
/// where the value is no text, and `None` where no header has that name.
pub open spec fn header_text(headers: Seq<HeaderView>, key: Seq<char>) -> Option<Seq<char>>
    decreases headers.len(),
{
    if headers.len() == 0 {
        None
    } else if same_name(headers[0].name, key) {
        match headers[0].value {
            Some(text) => Some(text),
            None => Some(Seq::empty()),
        }
    } else {
        header_text(headers.drop_first(), key)
    }
}

/// A byte, with an ASCII capital letter turned into its small one.
fn lower(b: u8) -> (l: u8)
    ensures
        l == lower_byte(b),
{
    if 65 <= b && b <= 90 {
        b + 32
    } else {
        b
    }
}

/// Whether two names are the same header name.
pub fn names_match(a: &str, b: &str) -> (same: bool)
    ensures
        same == same_name(a@, b@),
{
    let x = a.as_bytes();
    let y = b.as_bytes();
    if x.len() != y.len() {
        assert(folded(a@).len() != folded(b@).len());
        return false;
    }
    let mut i: usize = 0;
    while i < x.len()
        invariant
            i <= x.len(),
            x.len() == y.len(),
            x@ == encode_utf8(a@),
            y@ == encode_utf8(b@),
            forall|k: int| 0 <= k < i ==> lower_byte(#[trigger] x@[k]) == lower_byte(y@[k]),
        decreases x.len() - i,
    {
        if lower(x[i]) != lower(y[i]) {
            assert(folded(a@)[i as int] != folded(b@)[i as int]);
            return false;
        }
        i += 1;
    }
    assert(folded(a@) =~= folded(b@));
    true
}

/// Looks a header up by its name, without regard to ASCII case.
pub fn get_header(key: &str, headers: &Vec<Header>) -> (value: Option<String>)
    ensures
        opt_text(value) == header_text(header_views(headers@), key@),
{
    let ghost all = header_views(headers@);
    let mut i: usize = 0;
    assert(all.skip(0) == all);
    while i < headers.len()
        invariant
            i <= headers.len(),
            all == header_views(headers@),
            header_text(all, key@) == header_text(all.skip(i as int), key@),
        decreases headers.len() - i,
    {
        let header = &headers[i];
        assert(all.skip(i as int)[0] == header@);
        assert(all.skip(i as int).drop_first() == all.skip(i + 1));
        if names_match(header.name.as_str(), key) {
            return match &header.value {
                Some(text) => Some(text.clone()),
                None => Some(String::new()),
            };
        }
        i += 1;
    }
    None
}

/// The redirect that a visitor gets.
#[derive(Clone, Debug, PartialEq, Eq)]
pub struct RedirectTarget {
    pub status: u16,
    pub location: String,
    pub cache_control: String,
}

/// The view of a [`RedirectTarget`].
pub struct RedirectView {
    pub status: u16,
    pub location: Seq<char>,
    pub cache_control: Seq<char>,
}

impl View for RedirectTarget {
    type V = RedirectView;

    open spec fn view(&self) -> RedirectView {
        RedirectView {
            status: self.status,
            location: self.location@,
            cache_control: self.cache_control@,
        }
    }
}

/// The redirect to a URL: temporary, with the fixed caching policy.
pub open spec fn redirect_to(target_url: Seq<char>) -> RedirectView {
    RedirectView {
        status: STATUS_TEMPORARY_REDIRECT,
        location: target_url,
        cache_control: DEFAULT_CACHE_CONTROL_HEADER_VALUE@,
    }
}

/// The visit that is written down for a request.
pub open spec fn visit_of(requested: Seq<char>, headers: Seq<HeaderView>) -> VisitView {
    VisitView {
        link_id: requested,
        referer: header_text(headers, REFERER@),
        user_agent: header_text(headers, USER_AGENT@),
    }
}

/// Where the resolution of a short identifier stands.
#[derive(Clone, Debug, PartialEq, Eq)]
pub enum Resolution {
    /// The link is to be fetched.
    Fetching { visit: VisitRecord },
    /// The redirect stands, and the visit is to be written.
    Recording { target: RedirectTarget, visit: VisitRecord },
    /// The redirect stands, and the write of the visit has ended: with
    /// `visit_failure` where it failed.
    Redirected { target: RedirectTarget, visit_failure: Option<StoreFailure> },
    /// There is no redirect.
    Failed(ServiceError),
}

/// The view of a [`Resolution`].
pub enum ResolutionView {
    Fetching { visit: VisitView },
    Recording { target: RedirectView, visit: VisitView },
    Redirected { target: RedirectView, visit_failure: Option<StoreFailure> },
    Failed(ServiceError),
}

impl View for Resolution {
    type V = ResolutionView;

    open spec fn view(&self) -> ResolutionView {
        match *self {
            Resolution::Fetching { visit } => ResolutionView::Fetching { visit: visit@ },
            Resolution::Recording { target, visit } => ResolutionView::Recording {
                target: target@,
                visit: visit@,
            },
            Resolution::Redirected { target, visit_failure } => ResolutionView::Redirected {
                target: target@,
                visit_failure,
            },
            Resolution::Failed(error) => ResolutionView::Failed(error),
        }
    }
}

impl ResolutionView {
    /// As long as a request is pending, the visit names an identifier that
    /// is not empty.
    pub open spec fn well_formed(self) -> bool {
        match self {
            ResolutionView::Fetching { visit } => visit.link_id.len() > 0,
            ResolutionView::Recording { visit, .. } => visit.link_id.len() > 0,
            _ => true,
        }
    }

    /// The request that is to be sent next, if the resolution has not
    /// ended.
    pub open spec fn request(self) -> Option<RequestView> {
        match self {
            ResolutionView::Fetching { visit } => Some(RequestView::FetchLink { id: visit.link_id }),
            ResolutionView::Recording { visit, .. } => Some(RequestView::InsertVisit { visit }),
            _ => None,
        }
    }

    /// The redirect, as soon as it stands.
    pub open spec fn redirect(self) -> Option<RedirectView> {
        match self {
            ResolutionView::Recording { target, .. } => Some(target),
            ResolutionView::Redirected { target, .. } => Some(target),
            _ => None,
        }
    }

    /// The resolution after the store's reply to the pending request.
    ///
    /// A link that came back gives the redirect to its target. An absent
    /// row means that there is no such link, which the client is told;
    /// every other failure of the fetch is the store's. Whatever comes
    /// back from the write of the visit, the redirect stays as it is.
    pub open spec fn resumed(self, reply: ReplyView) -> ResolutionView {
        match self {
            ResolutionView::Fetching { visit } => match reply {
                Ok(PayloadView::Link(link)) => ResolutionView::Recording {
                    target: redirect_to(link.target_url),
                    visit,
                },
                Ok(_) => ResolutionView::Failed(
                    ServiceError::InfrastructureFailure { cause: StoreFailure::StoreError },
                ),
                Err(StoreFailure::NotFound) => ResolutionView::Failed(
                    ServiceError::NotFoundClient,
                ),
                Err(cause) => ResolutionView::Failed(
                    ServiceError::InfrastructureFailure { cause },
                ),
            },
            ResolutionView::Recording { target, .. } => ResolutionView::Redirected {
                target,
                visit_failure: match reply {
                    Ok(PayloadView::VisitSaved) => None,
                    Ok(_) => Some(StoreFailure::StoreError),
                    Err(cause) => Some(cause),
                },
            },
            _ => self,
        }
    }
}

/// Begins the resolution of the identifier that a visitor asked for. The
/// visit is made up from the request's `referer` and `user-agent`
/// headers, each absent where the header is.
pub fn redirect(requested_link: String, headers: &Vec<Header>) -> (resolution: Resolution)
    requires
        requested_link@.len() > 0,
    ensures
        resolution@ == (ResolutionView::Fetching {
            visit: visit_of(requested_link@, header_views(headers@)),
        }),
        resolution@.well_formed(),
{
    let referer = get_header(REFERER, headers);
    let user_agent = get_header(USER_AGENT, headers);
    Resolution::Fetching { visit: VisitRecord { link_id: requested_link, referer, user_agent } }
}

impl Resolution {
    /// The request that is to be sent next, if the resolution has not
    /// ended.
    pub fn request(&self) -> (request: Option<StoreRequest>)
        ensures
            match request {
                Some(r) => self@.request() == Some(r@) && (self@.well_formed()
                    ==> r@.well_formed()),
                None => self@.request() is None,
            },
    {
        match self {
            Resolution::Fetching { visit } => Some(
                StoreRequest::FetchLink { id: visit.link_id.clone() },
            ),
            Resolution::Recording { visit, .. } => Some(
                StoreRequest::InsertVisit {
                    visit: VisitRecord {
                        link_id: visit.link_id.clone(),
                        referer: clone_text(&visit.referer),
                        user_agent: clone_text(&visit.user_agent),
                    },
                },
            ),
            _ => None,
        }
    }

    /// The redirect, as soon as it stands: it can be sent while the visit
    /// is still being written.
    pub fn response(&self) -> (response: Option<RedirectTarget>)
        ensures
            match response {
                Some(r) => self@.redirect() == Some(r@),
                None => self@.redirect() is None,
            },
    {
        match self {
            Resolution::Recording { target, .. } => Some(clone_target(target)),
            Resolution::Redirected { target, .. } => Some(clone_target(target)),
            _ => None,
        }
    }

    /// Takes the store's reply to the pending request.
    pub fn resume(self, reply: StoreReply) -> (next: Resolution)
        ensures
            next@ == self@.resumed(reply_view(reply)),
            self@.well_formed() ==> next@.well_formed(),
    {
        match self {
            Resolution::Fetching { visit } => match reply {
                Ok(Payload::Link(link)) => Resolution::Recording {
                    target: RedirectTarget {
                        status: STATUS_TEMPORARY_REDIRECT,
                        location: link.target_url,
                        cache_control: DEFAULT_CACHE_CONTROL_HEADER_VALUE.to_owned(),
                    },
                    visit,
                },
                Ok(_) => Resolution::Failed(
                    ServiceError::InfrastructureFailure { cause: StoreFailure::StoreError },
                ),
                Err(StoreFailure::NotFound) => Resolution::Failed(ServiceError::NotFoundClient),
                Err(cause) => Resolution::Failed(ServiceError::InfrastructureFailure { cause }),
            },
            Resolution::Recording { target, .. } => Resolution::Redirected {
                target,
                visit_failure: match reply {
                    Ok(Payload::VisitSaved) => None,
                    Ok(_) => Some(StoreFailure::StoreError),
                    Err(cause) => Some(cause),
                },
            },
            other => other,
        }
    }
}

/// A copy of an optional text.
fn clone_text(text: &Option<String>) -> (copy: Option<String>)
    ensures
        opt_text(copy) == opt_text(*text),
{
    match text {
        Some(t) => Some(t.clone()),
        None => None,
    }
}

/// A copy of a redirect.
fn clone_target(target: &RedirectTarget) -> (copy: RedirectTarget)
    ensures
        copy@ == target@,
{
    RedirectTarget {
        status: target.status,
        location: target.location.clone(),
        cache_control: target.cache_control.clone(),
    }
}

/// Where the query for a link's visit counts stands.
#[derive(Clone, Debug, PartialEq, Eq)]
pub enum StatisticsQuery {
    /// The counts are to be fetched.
    Fetching { link_id: String },
    /// The counts, one for each pair of referer and user agent that the
    /// link was followed with: none for a link without visits.
    Listed(Vec<CountedLinkStatistic>),
    /// The query has ended without counts.
    Failed(ServiceError),
}

/// The view of a [`StatisticsQuery`].
pub enum StatisticsView {
    Fetching { link_id: Seq<char> },
    Listed(Seq<CountView>),
    Failed(ServiceError),
}

impl View for StatisticsQuery {
    type V = StatisticsView;

    open spec fn view(&self) -> StatisticsView {
        match *self {
            StatisticsQuery::Fetching { link_id } => StatisticsView::Fetching { link_id: link_id@ },
            StatisticsQuery::Listed(counts) => StatisticsView::Listed(count_views(counts@)),
            StatisticsQuery::Failed(error) => StatisticsView::Failed(error),
        }
    }
}

impl StatisticsView {
    /// A pending fetch names an identifier that is not empty.
    pub open spec fn well_formed(self) -> bool {
        self matches StatisticsView::Fetching { link_id } ==> link_id.len() > 0
    }

    /// The request that is to be sent next, if the query has not ended.
    pub open spec fn request(self) -> Option<RequestView> {
        match self {
            StatisticsView::Fetching { link_id } => Some(RequestView::FetchStatistics { link_id }),
            _ => None,
        }
    }

    /// The query after the store's reply: the counts as they came, an
    /// empty list too; every failure is the store's.
    pub open spec fn resumed(self, reply: ReplyView) -> StatisticsView {
        match self {
            StatisticsView::Fetching { .. } => match reply {
                Ok(PayloadView::Statistics(counts)) => StatisticsView::Listed(counts),
                Ok(_) => StatisticsView::Failed(
                    ServiceError::InfrastructureFailure { cause: StoreFailure::StoreError },
                ),
                Err(cause) => StatisticsView::Failed(
                    ServiceError::InfrastructureFailure { cause },
                ),
            },
            _ => self,
        }
    }
}

/// Begins the query for the visit counts of the link `link_id`.
pub fn get_link_statistics(link_id: String) -> (query: StatisticsQuery)
    requires
        link_id@.len() > 0,
    ensures
        query@ == (StatisticsView::Fetching { link_id: link_id@ }),
        query@.well_formed(),
{
    StatisticsQuery::Fetching { link_id }
}

impl StatisticsQuery {
    /// The request that is to be sent next, if the query has not ended.
    pub fn request(&self) -> (request: Option<StoreRequest>)
        ensures
            match request {
                Some(r) => self@.request() == Some(r@) && (self@.well_formed()
                    ==> r@.well_formed()),
                None => self@.request() is None,
            },
    {
        match self {
            StatisticsQuery::Fetching { link_id } => Some(
                StoreRequest::FetchStatistics { link_id: link_id.clone() },
            ),
            _ => None,
        }
    }

    /// Takes the store's reply to the pending fetch.
    pub fn resume(self, reply: StoreReply) -> (next: StatisticsQuery)
        ensures
            next@ == self@.resumed(reply_view(reply)),
            next@.well_formed(),
    {
        match self {
            StatisticsQuery::Fetching { .. } => match reply {
                Ok(Payload::Statistics(counts)) => StatisticsQuery::Listed(counts),
                Ok(_) => StatisticsQuery::Failed(
                    ServiceError::InfrastructureFailure { cause: StoreFailure::StoreError },
                ),
                Err(cause) => StatisticsQuery::Failed(
                    ServiceError::InfrastructureFailure { cause },
                ),
            },
            other => other,
        }
    }
}

} // verus!
