//! The link provisioner: creating a link under an identifier that is
//! still free, and pointing an existing link at another URL.
//!
//! A new link gets up to three identifiers, one per insert. Only a
//! conflict leads to the next one: a timeout or a fault of the store ends
//! the creation at once, since drawing again would not help.

use vstd::prelude::*;
use crate::error::{message_of, ServiceError, StoreFailure};
use crate::gateway::{reply_view, Payload, PayloadView, ReplyView, RequestView, StoreReply, StoreRequest};
use crate::id::{generate_id, short_id};
use crate::model::{opt_text, Link, LinkTarget, LinkView};

verus! {

/// How many identifiers are tried for one new link.
pub const MAX_ATTEMPTS: u8 = 3;

/// `url::ParseError`: why the parser refused an input. Nothing here looks
/// inside it.
#[verifier::external_type_specification]
#[verifier::external_body]
pub struct ExParseError(url::ParseError);

/// The text that `url::Url` gives back for an input that it takes as an
/// absolute URL, and `None` for an input that it refuses.
pub uninterp spec fn url_normal_form(input: Seq<char>) -> Option<Seq<char>>;

/// `url::Url::parse`, followed by the conversion of the URL into its
/// text: the result is the normal form of the input, or the parser's
/// error where the input is no absolute URL.
#[verifier::external_body]
fn parse_url(input: &str) -> (parsed: Result<String, url::ParseError>)
    ensures
        match parsed {
            Ok(text) => url_normal_form(input@) == Some(text@),
            Err(_) => url_normal_form(input@) is None,
        },
{
    match url::Url::parse(input) {
        Ok(url) => Ok(String::from(url)),
        Err(error) => Err(error),
    }
}

/// Checks the URL that a client sent and gives its normal form, or `None`
/// where it is no absolute URL.
pub fn normal_form(target: &LinkTarget) -> (normal: Option<String>)
    ensures
        opt_text(normal) == url_normal_form(target@),
{
    match parse_url(target.target_url.as_str()) {
        Ok(text) => Some(text),
        Err(_) => None,
    }
}

/// One try to insert a new link: the identifier drawn for it, the URL,
/// and which try it is, counted from one.
#[derive(Clone, Debug, PartialEq, Eq)]
pub struct Attempt {
    pub id: String,
    pub target_url: String,
    pub number: u8,
}

/// The view of an [`Attempt`].
pub struct AttemptView {
    pub id: Seq<char>,
    pub target_url: Seq<char>,
    pub number: int,
}

impl View for Attempt {
    type V = AttemptView;

    open spec fn view(&self) -> AttemptView {
        AttemptView { id: self.id@, target_url: self.target_url@, number: self.number as int }
    }
}

/// Where the creation of a link stands.
#[derive(Clone, Debug, PartialEq, Eq)]
pub enum Creation {
    /// The insert of this attempt is to be sent to the store.
    Inserting(Attempt),
    /// The store has taken the link.
    Created(Link),
    /// The creation has ended without a link.
    Failed(ServiceError),
}

/// The view of a [`Creation`].
pub enum CreationView {
    Inserting(AttemptView),
    Created(LinkView),
    Failed(ServiceError),
}

impl View for Creation {
    type V = CreationView;

    open spec fn view(&self) -> CreationView {
        match *self {
            Creation::Inserting(attempt) => CreationView::Inserting(attempt@),
            Creation::Created(link) => CreationView::Created(link@),
            Creation::Failed(error) => CreationView::Failed(error),
        }
    }
}

/// How a creation begins: a URL that is no absolute URL is refused before
/// anything is sent to the store, any other goes into the first insert in
/// its normal form.
pub open spec fn creation_begun(normal: Option<Seq<char>>, id: Seq<char>) -> CreationView {
    match normal {
        None => CreationView::Failed(ServiceError::MalformedInput),
        Some(url) => CreationView::Inserting(AttemptView { id, target_url: url, number: 1 }),
    }
}

impl CreationView {
    /// A pending insert names an identifier that is not empty, and is one
    /// of the tries that a creation has.
    pub open spec fn well_formed(self) -> bool {
        self matches CreationView::Inserting(attempt) ==> attempt.id.len() > 0 && 1
            <= attempt.number <= MAX_ATTEMPTS
    }

    /// The request that is to be sent next, if the creation has not ended.
    pub open spec fn request(self) -> Option<RequestView> {
        match self {
            CreationView::Inserting(attempt) => Some(
                RequestView::InsertLink { id: attempt.id, target_url: attempt.target_url },
            ),
            _ => None,
        }
    }

    /// Whether the reply makes the creation draw another identifier: the
    /// store reported a conflict and tries are left.
    pub open spec fn retries(self, reply: ReplyView) -> bool {
        self matches CreationView::Inserting(attempt) && reply == Err::<PayloadView, StoreFailure>(
            StoreFailure::Conflict,
        ) && attempt.number < MAX_ATTEMPTS
    }

    /// The creation after the store's reply to the pending insert, with
    /// `fresh` as the identifier for the next try, should there be one.
    pub open spec fn resumed(self, reply: ReplyView, fresh: Seq<char>) -> CreationView {
        match self {
            CreationView::Inserting(attempt) => match reply {
                Ok(PayloadView::Link(link)) => CreationView::Created(link),
                Ok(_) => CreationView::Failed(
                    ServiceError::InfrastructureFailure { cause: StoreFailure::StoreError },
                ),
                Err(StoreFailure::Conflict) => if attempt.number < MAX_ATTEMPTS {
                    CreationView::Inserting(
                        AttemptView {
                            id: fresh,
                            target_url: attempt.target_url,
                            number: attempt.number + 1,
                        },
                    )
                } else {
                    CreationView::Failed(ServiceError::ExhaustedIdSpace)
                },
                Err(cause) => CreationView::Failed(ServiceError::InfrastructureFailure { cause }),
            },
            _ => self,
        }
    }
}

/// The text that a client gets when a creation fails: a URL that does not
/// parse is told in the creation's own words, every other error in the
/// words that go with it anywhere.
pub open spec fn creation_message_of(error: ServiceError) -> Seq<char> {
    match error {
        ServiceError::MalformedInput => "bad url"@,
        _ => message_of(error),
    }
}

/// The text that a client gets when a creation fails with `error`.
pub fn creation_message(error: ServiceError) -> (text: &'static str)
    ensures
        text@ == creation_message_of(error),
{
    match error {
        ServiceError::MalformedInput => "bad url",
        _ => error.message(),
    }
}

/// Begins the creation of a link for the URL that a client sent, with an
/// identifier drawn for the first insert.
pub fn create_link(new_link: &LinkTarget) -> (creation: Creation)
    ensures
        url_normal_form(new_link@) is None ==> creation@ == CreationView::Failed(
            ServiceError::MalformedInput,
        ),
        url_normal_form(new_link@) is Some ==> exists|n: u32|
            creation@ == creation_begun(url_normal_form(new_link@), #[trigger] short_id(n)),
        creation@.well_formed(),
{
    match normal_form(new_link) {
        None => Creation::Failed(ServiceError::MalformedInput),
        Some(url) => {
            let id = generate_id();
            begin_creation(Some(url), id)
        },
    }
}

/// Begins a creation from a checked URL and a drawn identifier.
pub fn begin_creation(normal: Option<String>, id: String) -> (creation: Creation)
    ensures
        creation@ == creation_begun(opt_text(normal), id@),
        id@.len() > 0 ==> creation@.well_formed(),
{
    match normal {
        None => Creation::Failed(ServiceError::MalformedInput),
        Some(url) => Creation::Inserting(Attempt { id, target_url: url, number: 1 }),
    }
}

impl Creation {
    /// The request that is to be sent next, if the creation has not ended.
    pub fn request(&self) -> (request: Option<StoreRequest>)
        ensures
            match request {
                Some(r) => self@.request() == Some(r@) && (self@.well_formed()
                    ==> r@.well_formed()),
                None => self@.request() is None,
            },
    {
        match self {
            Creation::Inserting(attempt) => Some(
                StoreRequest::InsertLink {
                    id: attempt.id.clone(),
                    target_url: attempt.target_url.clone(),
                },
            ),
            _ => None,
        }
    }

    /// Whether the reply makes the creation draw another identifier.
    pub fn retries(&self, reply: &StoreReply) -> (b: bool)
        ensures
            b == self@.retries(reply_view(*reply)),
    {
        match self {
            Creation::Inserting(attempt) => match reply {
                Err(StoreFailure::Conflict) => attempt.number < MAX_ATTEMPTS,
                _ => false,
            },
            _ => false,
        }
    }

    /// Takes the store's reply to the pending insert. Where the reply is a
    /// conflict and tries are left, `fresh` is the identifier of the next
    /// try; it is not looked at otherwise.
    pub fn resume_with(self, reply: StoreReply, fresh: String) -> (next: Creation)
        ensures
            next@ == self@.resumed(reply_view(reply), fresh@),
            self@.well_formed() && fresh@.len() > 0 ==> next@.well_formed(),
    {
        match self {
            Creation::Inserting(attempt) => match reply {
                Ok(Payload::Link(link)) => Creation::Created(link),
                Ok(_) => Creation::Failed(
                    ServiceError::InfrastructureFailure { cause: StoreFailure::StoreError },
                ),
                Err(StoreFailure::Conflict) => if attempt.number < MAX_ATTEMPTS {
                    Creation::Inserting(
                        Attempt {
                            id: fresh,
                            target_url: attempt.target_url,
                            number: attempt.number + 1,
                        },
                    )
                } else {
                    Creation::Failed(ServiceError::ExhaustedIdSpace)
                },
                Err(cause) => Creation::Failed(ServiceError::InfrastructureFailure { cause }),
            },
            other => other,
        }
    }

    /// Takes the store's reply to the pending insert, and draws the next
    /// identifier where the reply asks for one.
    pub fn resume(self, reply: StoreReply) -> (next: Creation)
        ensures
            exists|n: u32| next@ == self@.resumed(reply_view(reply), #[trigger] short_id(n)),
            self@.well_formed() ==> next@.well_formed(),
    {
        if self.retries(&reply) {
            let fresh = generate_id();
            self.resume_with(reply, fresh)
        } else {
            let next = self.resume_with(reply, String::new());
            assert(next@ == self@.resumed(reply_view(reply), short_id(0)));
            next
        }
    }
}

/// Where the update of a link stands.
#[derive(Clone, Debug, PartialEq, Eq)]
pub enum Update {
    /// The update is to be sent to the store.
    Updating { id: String, target_url: String },
    /// The store has changed the link.
    Updated(Link),
    /// The update has ended without a change.
    Failed(ServiceError),
}

/// The view of an [`Update`].
pub enum UpdateView {
    Updating { id: Seq<char>, target_url: Seq<char> },
    Updated(LinkView),
    Failed(ServiceError),
}

impl View for Update {
    type V = UpdateView;

    open spec fn view(&self) -> UpdateView {
        match *self {
            Update::Updating { id, target_url } => UpdateView::Updating {
                id: id@,
                target_url: target_url@,
            },
            Update::Updated(link) => UpdateView::Updated(link@),
            Update::Failed(error) => UpdateView::Failed(error),
        }
    }
}

/// How an update begins: the URL is checked as for a new link.
pub open spec fn update_begun(id: Seq<char>, normal: Option<Seq<char>>) -> UpdateView {
    match normal {
        None => UpdateView::Failed(ServiceError::MalformedInput),
        Some(url) => UpdateView::Updating { id, target_url: url },
    }
}

impl UpdateView {
    /// A pending update names an identifier that is not empty.
    pub open spec fn well_formed(self) -> bool {
        self matches UpdateView::Updating { id, .. } ==> id.len() > 0
    }

    /// The request that is to be sent next, if the update has not ended.
    pub open spec fn request(self) -> Option<RequestView> {
        match self {
            UpdateView::Updating { id, target_url } => Some(
                RequestView::UpdateLink { id, target_url },
            ),
            _ => None,
        }
    }

    /// The update after the store's reply: an absent row means that there
    /// is no such link, which the client is told; every other failure is
    /// the store's.
    pub open spec fn resumed(self, reply: ReplyView) -> UpdateView {
        match self {
            UpdateView::Updating { .. } => match reply {
                Ok(PayloadView::Link(link)) => UpdateView::Updated(link),
                Ok(_) => UpdateView::Failed(
                    ServiceError::InfrastructureFailure { cause: StoreFailure::StoreError },
                ),
                Err(StoreFailure::NotFound) => UpdateView::Failed(ServiceError::NotFoundClient),
                Err(cause) => UpdateView::Failed(ServiceError::InfrastructureFailure { cause }),
            },
            _ => self,
        }
    }
}

/// Begins the update of the link `link_id` to the URL that a client sent.
pub fn update_link(link_id: String, update: &LinkTarget) -> (next: Update)
    requires
        link_id@.len() > 0,
    ensures
        next@ == update_begun(link_id@, url_normal_form(update@)),
        next@.well_formed(),
{
    let normal = normal_form(update);
    begin_update(link_id, normal)
}

/// Begins an update from an identifier and a checked URL.
pub fn begin_update(link_id: String, normal: Option<String>) -> (next: Update)
    requires
        link_id@.len() > 0,
    ensures
        next@ == update_begun(link_id@, opt_text(normal)),
        next@.well_formed(),
{
    match normal {
        None => Update::Failed(ServiceError::MalformedInput),
        Some(url) => Update::Updating { id: link_id, target_url: url },
    }
}

impl Update {
    /// The request that is to be sent next, if the update has not ended.
    pub fn request(&self) -> (request: Option<StoreRequest>)
        ensures
            match request {
                Some(r) => self@.request() == Some(r@) && (self@.well_formed()
                    ==> r@.well_formed()),
                None => self@.request() is None,
            },
    {
        match self {
            Update::Updating { id, target_url } => Some(
                StoreRequest::UpdateLink { id: id.clone(), target_url: target_url.clone() },
            ),
            _ => None,
        }
    }

    /// Takes the store's reply to the pending update.
    pub fn resume(self, reply: StoreReply) -> (next: Update)
        ensures
            next@ == self@.resumed(reply_view(reply)),
            next@.well_formed(),
    {
        match self {
            Update::Updating { .. } => match reply {
                Ok(Payload::Link(link)) => Update::Updated(link),
                Ok(_) => Update::Failed(
                    ServiceError::InfrastructureFailure { cause: StoreFailure::StoreError },
                ),
                Err(StoreFailure::NotFound) => Update::Failed(ServiceError::NotFoundClient),
                Err(cause) => Update::Failed(ServiceError::InfrastructureFailure { cause }),
            },
            other => other,
        }
    }
}

} // verus!
