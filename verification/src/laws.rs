//! What holds when the operations of this library run against the store:
//! each operation is played against the model of the store, request by
//! request, and the laws say what comes out.

use vstd::prelude::*;
use crate::auth::{
    auth_begun, hashed_key, lemma_hex_lower_injective, sha3_256_digest, AuthenticationView,
    API_KEY_HEADER,
};
use crate::error::{ServiceError, StoreFailure};
use crate::gateway::RequestView;
use crate::model::{CountView, HeaderView, LinkView};
use crate::provision::{
    creation_begun, update_begun, url_normal_form, CreationView, UpdateView,
};
use crate::resolve::{
    header_text, redirect_to, visit_of, ResolutionView, StatisticsView, REFERER, USER_AGENT,
};
use crate::store::{
    is_tally, lemma_fetch_gives_the_link, lemma_perform_keeps_store, lemma_tally_counts_visits,
    lemma_tally_of_no_visits, tally, Store,
};

verus! {

/// One step of a creation against the store: the pending insert is
/// performed and its reply taken, with `fresh` at hand for the next try.
pub open spec fn create_round(store: Store, creation: CreationView, fresh: Seq<char>) -> (
    Store,
    CreationView,
) {
    match creation.request() {
        Some(request) => (
            store.perform(request).0,
            creation.resumed(store.perform(request).1, fresh),
        ),
        None => (store, creation),
    }
}

/// A whole creation against the store, for a URL as the client sent it
/// and the three identifiers that the generator hands out, in their
/// order.
pub open spec fn run_create(store: Store, target: Seq<char>, ids: Seq<Seq<char>>) -> (
    Store,
    CreationView,
) {
    let begun = creation_begun(url_normal_form(target), ids[0]);
    let first = create_round(store, begun, ids[1]);
    let second = create_round(first.0, first.1, ids[2]);
    create_round(second.0, second.1, ids[2])
}

/// Whether these are three identifiers, none of them empty.
pub open spec fn three_ids(ids: Seq<Seq<char>>) -> bool {
    ids.len() == 3 && ids[0].len() > 0 && ids[1].len() > 0 && ids[2].len() > 0
}

/// The first of three identifiers that no link has yet.
pub open spec fn first_free(store: Store, ids: Seq<Seq<char>>) -> Option<int> {
    if !store.has_link(ids[0]) {
        Some(0)
    } else if !store.has_link(ids[1]) {
        Some(1)
    } else if !store.has_link(ids[2]) {
        Some(2)
    } else {
        None
    }
}

/// What a creation comes to: a URL that does not parse is refused and
/// nothing is written; else the link goes in under the first identifier
/// that is free; with all three taken the identifier space counts as
/// exhausted, and again nothing is written.
pub open spec fn created(store: Store, target: Seq<char>, ids: Seq<Seq<char>>) -> (
    Store,
    CreationView,
) {
    match url_normal_form(target) {
        None => (store, CreationView::Failed(ServiceError::MalformedInput)),
        Some(url) => match first_free(store, ids) {
            Some(k) => {
                let link = LinkView { id: ids[k], target_url: url };
                (Store { links: store.links.push(link), ..store }, CreationView::Created(link))
            },
            None => (store, CreationView::Failed(ServiceError::ExhaustedIdSpace)),
        },
    }
}

/// Against a store that answers, a creation ends within three inserts, in
/// the way that [`created`] describes, and leaves the store well formed.
pub proof fn law_creation(store: Store, target: Seq<char>, ids: Seq<Seq<char>>)
    requires
        store.well_formed(),
        three_ids(ids),
    ensures
        run_create(store, target, ids) == created(store, target, ids),
        run_create(store, target, ids).1.request() is None,
        run_create(store, target, ids).0.well_formed(),
        forall|id: Seq<char>| store.has_link(id) ==> run_create(store, target, ids).0.has_link(id),
        run_create(store, target, ids).1 matches CreationView::Created(link) ==> !store.has_link(
            link.id,
        ) && run_create(store, target, ids).0.has_link(link.id),
{
    match url_normal_form(target) {
        None => {},
        Some(url) => {
            match first_free(store, ids) {
                Some(k) => {
                    let request = RequestView::InsertLink { id: ids[k], target_url: url };
                    lemma_perform_keeps_store(store, request);
                    let after = store.perform(request).0;
                    assert(after.links[store.links.len() as int].id == ids[k]);
                },
                None => {},
            }
        },
    }
}

/// With every identifier taken that the generator hands out, a creation
/// fails as exhausted and writes nothing: no link is written over.
pub proof fn law_exhausted_identifiers(store: Store, target: Seq<char>, ids: Seq<Seq<char>>)
    requires
        three_ids(ids),
        url_normal_form(target) is Some,
        store.has_link(ids[0]),
        store.has_link(ids[1]),
        store.has_link(ids[2]),
    ensures
        run_create(store, target, ids) == (
            store,
            CreationView::Failed(ServiceError::ExhaustedIdSpace),
        ),
{
}

/// One call of a creation: the URL and the identifiers it will be given.
pub struct CreateCall {
    pub target: Seq<char>,
    pub ids: Seq<Seq<char>>,
}

/// Creations one after the other: the store after the last, and how each
/// ended.
pub open spec fn run_creates(store: Store, calls: Seq<CreateCall>) -> (Store, Seq<CreationView>)
    decreases calls.len(),
{
    if calls.len() == 0 {
        (store, Seq::empty())
    } else {
        let before = run_creates(store, calls.drop_last());
        let last = run_create(before.0, calls.last().target, calls.last().ids);
        (last.0, before.1.push(last.1))
    }
}

/// However many links are created one after the other, and whatever
/// identifiers the generator hands out, no two of the links that come
/// back have the same identifier, and none has one that was taken
/// before. A creation that finds no free identifier fails; it does not
/// write over a link.
pub proof fn law_created_ids_distinct(store: Store, calls: Seq<CreateCall>)
    requires
        store.well_formed(),
        forall|c: int| 0 <= c < calls.len() ==> three_ids((#[trigger] calls[c]).ids),
    ensures
        run_creates(store, calls).0.well_formed(),
        run_creates(store, calls).1.len() == calls.len(),
        forall|id: Seq<char>| store.has_link(id) ==> run_creates(store, calls).0.has_link(id),
        forall|i: int|
            0 <= i < calls.len() ==> (#[trigger] run_creates(store, calls).1[i]
                matches CreationView::Created(link) ==> !store.has_link(link.id) && run_creates(
                store,
                calls,
            ).0.has_link(link.id)),
        forall|i: int, j: int|
            0 <= i < j < calls.len() ==> (#[trigger] run_creates(store, calls).1[i]
                matches CreationView::Created(a) ==> (#[trigger] run_creates(store, calls).1[j]
                matches CreationView::Created(b) ==> a.id != b.id)),
        forall|i: int|
            0 <= i < calls.len() ==> (#[trigger] run_creates(store, calls).1[i]
                matches CreationView::Created(link) ==> url_normal_form(calls[i].target) == Some(
                link.target_url,
            ) && (link.id == calls[i].ids[0] || link.id == calls[i].ids[1] || link.id
                == calls[i].ids[2])),
    decreases calls.len(),
{
    if calls.len() > 0 {
        let earlier = calls.drop_last();
        let before = run_creates(store, earlier);
        let call = calls.last();
        assert forall|c: int| 0 <= c < earlier.len() implies three_ids((#[trigger] earlier[c]).ids) by {
            assert(earlier[c] == calls[c]);
        }
        law_created_ids_distinct(store, earlier);
        assert(call == calls[calls.len() - 1]);
        law_creation(before.0, call.target, call.ids);
    }
}

/// A generator that knows two identifiers only gives two links at most:
/// of any three creations one fails, whatever else happens.
pub proof fn law_two_identifiers(
    store: Store,
    calls: Seq<CreateCall>,
    a: Seq<char>,
    b: Seq<char>,
    i: int,
    j: int,
    k: int,
)
    requires
        store.well_formed(),
        forall|c: int| 0 <= c < calls.len() ==> three_ids((#[trigger] calls[c]).ids),
        forall|c: int, n: int|
            0 <= c < calls.len() && 0 <= n < 3 ==> (#[trigger] calls[c].ids[n]) == a
                || calls[c].ids[n] == b,
        0 <= i < j < k < calls.len(),
    ensures
        !(run_creates(store, calls).1[i] is Created && run_creates(store, calls).1[j] is Created
            && run_creates(store, calls).1[k] is Created),
{
    law_created_ids_distinct(store, calls);
    let ends = run_creates(store, calls).1;
    if ends[i] is Created && ends[j] is Created && ends[k] is Created {
        let (x, y, z) = (ends[i]->Created_0.id, ends[j]->Created_0.id, ends[k]->Created_0.id);
        assert(x == a || x == b) by {
            assert(calls[i].ids[0] == a || calls[i].ids[0] == b);
            assert(calls[i].ids[1] == a || calls[i].ids[1] == b);
            assert(calls[i].ids[2] == a || calls[i].ids[2] == b);
        }
        assert(y == a || y == b) by {
            assert(calls[j].ids[0] == a || calls[j].ids[0] == b);
            assert(calls[j].ids[1] == a || calls[j].ids[1] == b);
            assert(calls[j].ids[2] == a || calls[j].ids[2] == b);
        }
        assert(z == a || z == b) by {
            assert(calls[k].ids[0] == a || calls[k].ids[0] == b);
            assert(calls[k].ids[1] == a || calls[k].ids[1] == b);
            assert(calls[k].ids[2] == a || calls[k].ids[2] == b);
        }
        assert(x != y && y != z && x != z);
    }
}

/// A whole update against the store.
pub open spec fn run_update(store: Store, id: Seq<char>, target: Seq<char>) -> (Store, UpdateView) {
    let begun = update_begun(id, url_normal_form(target));
    match begun.request() {
        Some(request) => (store.perform(request).0, begun.resumed(store.perform(request).1)),
        None => (store, begun),
    }
}

/// An update of a link that is not there writes nothing. The client is
/// told that there is no such link, unless the URL that came with the
/// update does not parse: that is found first, and told instead.
pub proof fn law_update_of_absent_link(store: Store, id: Seq<char>, target: Seq<char>)
    requires
        !store.has_link(id),
    ensures
        run_update(store, id, target).0 == store,
        url_normal_form(target) is Some ==> run_update(store, id, target).1 == UpdateView::Failed(
            ServiceError::NotFoundClient,
        ),
        url_normal_form(target) is None ==> run_update(store, id, target).1 == UpdateView::Failed(
            ServiceError::MalformedInput,
        ),
{
}

/// An update of a link that is there keeps its identifier and its place,
/// gives it the URL's normal form as its target, and adds no link.
pub proof fn law_update_of_link(store: Store, i: int, target: Seq<char>)
    requires
        store.well_formed(),
        0 <= i < store.links.len(),
        url_normal_form(target) is Some,
    ensures
        ({
            let id = store.links[i].id;
            let link = LinkView { id, target_url: url_normal_form(target)->0 };
            let after = run_update(store, id, target);
            &&& after.1 == UpdateView::Updated(link)
            &&& after.0.links == store.links.update(i, link)
            &&& after.0.well_formed()
        }),
{
    let id = store.links[i].id;
    lemma_fetch_gives_the_link(store, i);
    let request = RequestView::UpdateLink { id, target_url: url_normal_form(target)->0 };
    lemma_perform_keeps_store(store, request);
}

/// A whole resolution against the store. The write of the visit fails
/// with `visit_failure` where one is given.
pub open spec fn run_redirect(
    store: Store,
    requested: Seq<char>,
    headers: Seq<HeaderView>,
    visit_failure: Option<StoreFailure>,
) -> (Store, ResolutionView) {
    let begun = ResolutionView::Fetching { visit: visit_of(requested, headers) };
    let fetched = begun.resumed(store.perform(RequestView::FetchLink { id: requested }).1);
    match fetched.request() {
        Some(request) => (
            store.perform_or_fail(request, visit_failure).0,
            fetched.resumed(store.perform_or_fail(request, visit_failure).1),
        ),
        None => (store, fetched),
    }
}

/// A link that is there resolves to the redirect to its target, whether
/// the visit can be written or not: a failure of that write is noted
/// beside the redirect, and the links stay as they are.
pub proof fn law_redirect_despite_visit_failure(
    store: Store,
    i: int,
    headers: Seq<HeaderView>,
    visit_failure: Option<StoreFailure>,
)
    requires
        store.well_formed(),
        0 <= i < store.links.len(),
    ensures
        ({
            let link = store.links[i];
            let end = run_redirect(store, link.id, headers, visit_failure);
            &&& end.1 == ResolutionView::Redirected {
                target: redirect_to(link.target_url),
                visit_failure,
            }
            &&& end.0.links == store.links
            &&& visit_failure is Some ==> end.0 == store
            &&& visit_failure is None ==> end.0.visits == store.visits.push(
                visit_of(link.id, headers),
            )
        }),
{
    lemma_fetch_gives_the_link(store, i);
}

/// An identifier that no link has resolves to nothing: the client is told
/// so, and no visit is written.
pub proof fn law_redirect_of_absent_link(
    store: Store,
    requested: Seq<char>,
    headers: Seq<HeaderView>,
    visit_failure: Option<StoreFailure>,
)
    requires
        !store.has_link(requested),
    ensures
        run_redirect(store, requested, headers, visit_failure) == (
            store,
            ResolutionView::Failed(ServiceError::NotFoundClient),
        ),
{
}

/// Round trip: a link that was created resolves to the normal form of
/// the URL it was created for, which is the URL itself where that is in
/// normal form already.
pub proof fn law_created_link_resolves(
    store: Store,
    target: Seq<char>,
    ids: Seq<Seq<char>>,
    headers: Seq<HeaderView>,
    visit_failure: Option<StoreFailure>,
)
    requires
        store.well_formed(),
        three_ids(ids),
        run_create(store, target, ids).1 is Created,
    ensures
        ({
            let after = run_create(store, target, ids);
            let link = after.1->Created_0;
            let end = run_redirect(after.0, link.id, headers, visit_failure);
            &&& url_normal_form(target) == Some(link.target_url)
            &&& end.1.redirect() == Some(redirect_to(link.target_url))
            &&& url_normal_form(target) == Some(target) ==> end.1.redirect()->0.location == target
        }),
{
    law_creation(store, target, ids);
    let after = run_create(store, target, ids);
    let link = after.1->Created_0;
    let last = store.links.len() as int;
    assert(after.0.links[last] == link);
    law_redirect_despite_visit_failure(after.0, last, headers, visit_failure);
}

/// A whole query for a link's visit counts against the store.
pub open spec fn run_statistics(store: Store, link_id: Seq<char>) -> StatisticsView {
    let begun = StatisticsView::Fetching { link_id };
    begun.resumed(store.perform(RequestView::FetchStatistics { link_id }).1)
}

/// The counts of a link without visits are an empty list, not an error.
pub proof fn law_statistics_without_visits(store: Store, link_id: Seq<char>)
    requires
        !store.has_visit(link_id),
    ensures
        run_statistics(store, link_id) == StatisticsView::Listed(Seq::<CountView>::empty()),
{
    lemma_tally_of_no_visits(store.visits, link_id);
}

/// The counts of a link are the counts of its visits, whatever was
/// written before: one row for each pair of referer and user agent that
/// the link was followed with, each row's amount the number of those
/// visits, and the amounts together the number of the link's visits.
pub proof fn law_statistics_count_visits(store: Store, link_id: Seq<char>)
    ensures
        run_statistics(store, link_id) == StatisticsView::Listed(tally(store.visits, link_id)),
        is_tally(tally(store.visits, link_id), store.visits, link_id),
{
    lemma_tally_counts_visits(store.visits, link_id);
}

/// After the first visit of a link its counts are one row: that visit's
/// referer and user agent, once.
pub proof fn law_statistics_after_first_visit(store: Store, i: int, headers: Seq<HeaderView>)
    requires
        store.well_formed(),
        0 <= i < store.links.len(),
        !store.has_visit(store.links[i].id),
    ensures
        ({
            let id = store.links[i].id;
            let after = run_redirect(store, id, headers, None).0;
            run_statistics(after, id) == StatisticsView::Listed(
                seq![
                    CountView {
                        amount: Some(1),
                        referer: header_text(headers, REFERER@),
                        user_agent: header_text(headers, USER_AGENT@),
                    },
                ],
            )
        }),
{
    let id = store.links[i].id;
    law_redirect_despite_visit_failure(store, i, headers, None);
    lemma_tally_of_no_visits(store.visits, id);
    let after = run_redirect(store, id, headers, None).0;
    assert(after.visits.drop_last() == store.visits);
}

/// A whole check of an API key against the store: how it ends, and the
/// requests that went to the store meanwhile.
pub open spec fn run_auth(store: Store, headers: Seq<HeaderView>) -> (
    AuthenticationView,
    Seq<RequestView>,
) {
    let begun = auth_begun(headers);
    match begun.request() {
        Some(request) => (begun.resumed(store.perform(request).1), seq![request]),
        None => (begun, Seq::empty()),
    }
}

/// A call without the key's header is turned away as unauthenticated, and
/// the store is not asked anything.
pub proof fn law_auth_without_key(store: Store, headers: Seq<HeaderView>)
    requires
        header_text(headers, API_KEY_HEADER@) is None,
    ensures
        run_auth(store, headers) == (
            AuthenticationView::Denied(ServiceError::Unauthenticated),
            Seq::<RequestView>::empty(),
        ),
{
}

/// With the hash of `key` in the settings, a call gets through if and only
/// if the digest of the key it brings is the digest of `key`; so `key`
/// itself gets through, and every other key is turned away as
/// unauthenticated unless its digest collides.
pub proof fn law_auth_with_key(store: Store, headers: Seq<HeaderView>, key: Seq<char>)
    requires
        store.settings matches Some(settings) && settings.encrypted_global_api_key == hashed_key(
            key,
        ),
        header_text(headers, API_KEY_HEADER@) is Some,
    ensures
        ({
            let brought = header_text(headers, API_KEY_HEADER@)->0;
            let same = sha3_256_digest(vstd::utf8::encode_utf8(brought)) == sha3_256_digest(
                vstd::utf8::encode_utf8(key),
            );
            &&& run_auth(store, headers).1 == seq![RequestView::FetchGlobalSettings]
            &&& brought == key ==> run_auth(store, headers).0 == AuthenticationView::Granted
            &&& same ==> run_auth(store, headers).0 == AuthenticationView::Granted
            &&& !same ==> run_auth(store, headers).0 == AuthenticationView::Denied(
                ServiceError::Unauthenticated,
            )
        }),
{
    let brought = header_text(headers, API_KEY_HEADER@)->0;
    let a = sha3_256_digest(vstd::utf8::encode_utf8(brought));
    let b = sha3_256_digest(vstd::utf8::encode_utf8(key));
    if hashed_key(brought) == hashed_key(key) {
        lemma_hex_lower_injective(a, b);
    }
}

/// Where the settings cannot be read, for whatever reason, nobody gets
/// through: the key check fails closed.
pub proof fn law_auth_fails_closed(api_key: Seq<char>, cause: StoreFailure)
    ensures
        (AuthenticationView::Verifying { api_key }).resumed(Err(cause))
            == AuthenticationView::Denied(ServiceError::InfrastructureFailure { cause }),
{
}

} // verus!
