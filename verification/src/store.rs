//! A model of the store, for stating what the operations of this library
//! do to it: the rows of links, no two under one identifier, the visits in
//! the order in which they were written, and the settings record. Every
//! request is taken as one step that either happens whole or not at all.
//! The model always answers in time; where a law needs a store that
//! fails, it says so.

use vstd::prelude::*;
use crate::error::StoreFailure;
use crate::gateway::{PayloadView, ReplyView, RequestView};
use crate::model::{CountView, LinkView, SettingsView, VisitView};
use crate::provision::url_normal_form;

verus! {

/// What the store holds.
pub struct Store {
    pub links: Seq<LinkView>,
    pub visits: Seq<VisitView>,
    pub settings: Option<SettingsView>,
}

/// Whether a text is what the provisioner writes as a target: the normal
/// form of an absolute URL.
pub open spec fn is_target(text: Seq<char>) -> bool {
    exists|input: Seq<char>| #[trigger] url_normal_form(input) == Some(text)
}

/// Whether a count is the one for this referer and user agent.
pub open spec fn is_row(
    count: CountView,
    referer: Option<Seq<char>>,
    user_agent: Option<Seq<char>>,
) -> bool {
    count.referer == referer && count.user_agent == user_agent
}

/// Whether the counts have one for this referer and user agent.
pub open spec fn has_row(
    counts: Seq<CountView>,
    referer: Option<Seq<char>>,
    user_agent: Option<Seq<char>>,
) -> bool {
    exists|i: int| 0 <= i < counts.len() && is_row(#[trigger] counts[i], referer, user_agent)
}

/// The place of the count for this referer and user agent.
pub open spec fn row_index(
    counts: Seq<CountView>,
    referer: Option<Seq<char>>,
    user_agent: Option<Seq<char>>,
) -> int {
    choose|i: int| 0 <= i < counts.len() && is_row(#[trigger] counts[i], referer, user_agent)
}

/// What a count amounts to: nothing where the store gave no number.
pub open spec fn amount_of(count: CountView) -> int {
    match count.amount {
        Some(a) => a,
        None => 0,
    }
}

/// The counts after one more visit with the given referer and user agent:
/// its own count goes up by one, or begins at one behind the others.
pub open spec fn counted(
    counts: Seq<CountView>,
    referer: Option<Seq<char>>,
    user_agent: Option<Seq<char>>,
) -> Seq<CountView> {
    if has_row(counts, referer, user_agent) {
        let i = row_index(counts, referer, user_agent);
        counts.update(
            i,
            CountView { amount: Some(amount_of(counts[i]) + 1), referer, user_agent },
        )
    } else {
        counts.push(CountView { amount: Some(1), referer, user_agent })
    }
}

/// How many of the visits were of this link with this referer and user
/// agent.
pub open spec fn visits_with(
    visits: Seq<VisitView>,
    link_id: Seq<char>,
    referer: Option<Seq<char>>,
    user_agent: Option<Seq<char>>,
) -> nat
    decreases visits.len(),
{
    if visits.len() == 0 {
        0
    } else {
        visits_with(visits.drop_last(), link_id, referer, user_agent) + if visits.last().link_id
            == link_id && visits.last().referer == referer && visits.last().user_agent
            == user_agent {
            1nat
        } else {
            0nat
        }
    }
}

/// How many of the visits were of this link.
pub open spec fn visits_of(visits: Seq<VisitView>, link_id: Seq<char>) -> nat
    decreases visits.len(),
{
    if visits.len() == 0 {
        0
    } else {
        visits_of(visits.drop_last(), link_id) + if visits.last().link_id == link_id {
            1nat
        } else {
            0nat
        }
    }
}

/// What the counts add up to.
pub open spec fn total(counts: Seq<CountView>) -> int
    decreases counts.len(),
{
    if counts.len() == 0 {
        0
    } else {
        total(counts.drop_last()) + amount_of(counts.last())
    }
}

/// Whether these are the counts of a link's visits: one for each pair of
/// referer and user agent that the link was followed with and for no
/// other, each the number of the visits with its pair, all of them
/// together the number of the link's visits.
pub open spec fn is_tally(counts: Seq<CountView>, visits: Seq<VisitView>, link_id: Seq<char>) -> bool {
    &&& forall|i: int, j: int|
        0 <= i < j < counts.len() ==> !is_row(
            #[trigger] counts[i],
            (#[trigger] counts[j]).referer,
            counts[j].user_agent,
        )
    &&& forall|i: int|
        0 <= i < counts.len() ==> (#[trigger] counts[i]).amount == Some(
            visits_with(visits, link_id, counts[i].referer, counts[i].user_agent) as int,
        ) && visits_with(visits, link_id, counts[i].referer, counts[i].user_agent) >= 1
    &&& forall|referer: Option<Seq<char>>, user_agent: Option<Seq<char>>|
        visits_with(visits, link_id, referer, user_agent) >= 1 ==> #[trigger] has_row(
            counts,
            referer,
            user_agent,
        )
    &&& total(counts) == visits_of(visits, link_id)
}

/// The visits of one link, counted by referer and user agent. The groups
/// stand in the order in which their first visit came; a store promises
/// no order.
pub open spec fn tally(visits: Seq<VisitView>, link_id: Seq<char>) -> Seq<CountView>
    decreases visits.len(),
{
    if visits.len() == 0 {
        Seq::empty()
    } else if visits.last().link_id == link_id {
        counted(tally(visits.drop_last(), link_id), visits.last().referer, visits.last().user_agent)
    } else {
        tally(visits.drop_last(), link_id)
    }
}

impl Store {
    /// Whether a link has this identifier.
    pub open spec fn has_link(self, id: Seq<char>) -> bool {
        exists|i: int| 0 <= i < self.links.len() && #[trigger] self.links[i].id == id
    }

    /// The place of the link with this identifier.
    pub open spec fn index_of(self, id: Seq<char>) -> int {
        choose|i: int| 0 <= i < self.links.len() && #[trigger] self.links[i].id == id
    }

    /// Whether a visit of this link was written.
    pub open spec fn has_visit(self, link_id: Seq<char>) -> bool {
        exists|i: int| 0 <= i < self.visits.len() && #[trigger] self.visits[i].link_id == link_id
    }

    /// What holds of the store at all times: no identifier is empty or
    /// stands twice, and every target is the normal form of a URL.
    pub open spec fn well_formed(self) -> bool {
        &&& forall|i: int, j: int|
            0 <= i < j < self.links.len() ==> #[trigger] self.links[i].id
                != #[trigger] self.links[j].id
        &&& forall|i: int|
            0 <= i < self.links.len() ==> (#[trigger] self.links[i]).id.len() > 0 && is_target(
                self.links[i].target_url,
            )
    }

    /// The store after a request, and its reply.
    ///
    /// An insert of a link under a taken identifier is a conflict, and an
    /// update of a link that is not there finds no row: neither writes. A
    /// visit can only be written for a link that is there.
    pub open spec fn perform(self, request: RequestView) -> (Store, ReplyView) {
        match request {
            RequestView::FetchLink { id } => if self.has_link(id) {
                (self, Ok(PayloadView::Link(self.links[self.index_of(id)])))
            } else {
                (self, Err(StoreFailure::NotFound))
            },
            RequestView::InsertLink { id, target_url } => if self.has_link(id) {
                (self, Err(StoreFailure::Conflict))
            } else {
                let link = LinkView { id, target_url };
                (Store { links: self.links.push(link), ..self }, Ok(PayloadView::Link(link)))
            },
            RequestView::UpdateLink { id, target_url } => if self.has_link(id) {
                let link = LinkView { id, target_url };
                (
                    Store { links: self.links.update(self.index_of(id), link), ..self },
                    Ok(PayloadView::Link(link)),
                )
            } else {
                (self, Err(StoreFailure::NotFound))
            },
            RequestView::InsertVisit { visit } => if self.has_link(visit.link_id) {
                (Store { visits: self.visits.push(visit), ..self }, Ok(PayloadView::VisitSaved))
            } else {
                (self, Err(StoreFailure::StoreError))
            },
            RequestView::FetchStatistics { link_id } => (
                self,
                Ok(PayloadView::Statistics(tally(self.visits, link_id))),
            ),
            RequestView::FetchGlobalSettings => match self.settings {
                Some(settings) => (self, Ok(PayloadView::Settings(settings))),
                None => (self, Err(StoreFailure::NotFound)),
            },
        }
    }

    /// The store after a request that may fail on the way: with a failure
    /// given, that is the reply and nothing is written.
    pub open spec fn perform_or_fail(self, request: RequestView, failure: Option<StoreFailure>) -> (
        Store,
        ReplyView,
    ) {
        match failure {
            Some(cause) => (self, Err(cause)),
            None => self.perform(request),
        }
    }
}

/// Whether a request names a target that the provisioner may write.
pub open spec fn writes_target(request: RequestView) -> bool {
    match request {
        RequestView::InsertLink { target_url, .. } => is_target(target_url),
        RequestView::UpdateLink { target_url, .. } => is_target(target_url),
        _ => true,
    }
}

/// No request breaks the store: identifiers stay unique and targets stay
/// URLs, as long as the request is well formed and writes a URL.
pub proof fn lemma_perform_keeps_store(store: Store, request: RequestView)
    requires
        store.well_formed(),
        request.well_formed(),
        writes_target(request),
    ensures
        store.perform(request).0.well_formed(),
        forall|id: Seq<char>| store.has_link(id) ==> store.perform(request).0.has_link(id),
{
    let after = store.perform(request).0;
    match request {
        RequestView::InsertLink { id, target_url } => {
            if !store.has_link(id) {
                assert forall|i: int, j: int| 0 <= i < j < after.links.len() implies after.links[i].id
                    != after.links[j].id by {
                    if j == store.links.len() {
                        assert(store.links[i].id != id);
                    }
                }
            }
        },
        RequestView::UpdateLink { id, target_url } => {
            if store.has_link(id) {
                let k = store.index_of(id);
                assert forall|i: int| 0 <= i < after.links.len() implies after.links[i].id
                    == store.links[i].id by {}
            }
        },
        _ => {},
    }
    assert forall|id: Seq<char>| store.has_link(id) implies after.has_link(id) by {
        let i = store.index_of(id);
        assert(after.links[i].id == id);
    }
}

/// Nothing is ever taken out of the store: every link stays under its
/// identifier and in its place, visits are only added behind those that
/// are there, and the settings are only read.
pub proof fn lemma_perform_only_adds(store: Store, request: RequestView)
    ensures
        store.perform(request).0.links.len() >= store.links.len(),
        forall|i: int|
            0 <= i < store.links.len() ==> (#[trigger] store.perform(request).0.links[i]).id
                == store.links[i].id,
        store.visits.is_prefix_of(store.perform(request).0.visits),
        store.perform(request).0.settings == store.settings,
{
}

/// In a well-formed store a fetch gives the one link that has the
/// identifier.
pub proof fn lemma_fetch_gives_the_link(store: Store, i: int)
    requires
        store.well_formed(),
        0 <= i < store.links.len(),
    ensures
        store.has_link(store.links[i].id),
        store.index_of(store.links[i].id) == i,
        store.perform(RequestView::FetchLink { id: store.links[i].id }) == (
            store,
            Ok::<PayloadView, StoreFailure>(PayloadView::Link(store.links[i])),
        ),
{
    let id = store.links[i].id;
    let k = store.index_of(id);
    if k < i {
        assert(store.links[k].id != store.links[i].id);
    } else if i < k {
        assert(store.links[i].id != store.links[k].id);
    }
}

/// A count that changes changes the total by as much.
proof fn lemma_total_update(counts: Seq<CountView>, i: int, count: CountView)
    requires
        0 <= i < counts.len(),
    ensures
        total(counts.update(i, count)) == total(counts) - amount_of(counts[i]) + amount_of(count),
    decreases counts.len(),
{
    let after = counts.update(i, count);
    if i == counts.len() - 1 {
        assert(after.drop_last() =~= counts.drop_last());
    } else {
        assert(after.drop_last() =~= counts.drop_last().update(i, count));
        lemma_total_update(counts.drop_last(), i, count);
    }
}

/// The counts that the store gives for a link are the counts of its
/// visits: one row for each pair of referer and user agent, each row's
/// amount the number of visits with its pair, and the amounts together the
/// number of the link's visits.
pub proof fn lemma_tally_counts_visits(visits: Seq<VisitView>, link_id: Seq<char>)
    ensures
        is_tally(tally(visits, link_id), visits, link_id),
    decreases visits.len(),
{
    if visits.len() > 0 {
        let before = visits.drop_last();
        let visit = visits.last();
        let old_counts = tally(before, link_id);
        let counts = tally(visits, link_id);
        lemma_tally_counts_visits(before, link_id);
        if visit.link_id == link_id {
            let (r, u) = (visit.referer, visit.user_agent);
            if has_row(old_counts, r, u) {
                let k = row_index(old_counts, r, u);
                lemma_total_update(old_counts, k, counts[k]);
                assert forall|i: int| 0 <= i < counts.len() implies (#[trigger] counts[i]).amount
                    == Some(
                    visits_with(visits, link_id, counts[i].referer, counts[i].user_agent) as int,
                ) && visits_with(visits, link_id, counts[i].referer, counts[i].user_agent)
                    >= 1 by {
                    if i < k {
                        assert(!is_row(old_counts[i], old_counts[k].referer, old_counts[k].user_agent));
                    } else if k < i {
                        assert(!is_row(old_counts[k], old_counts[i].referer, old_counts[i].user_agent));
                    }
                }
                assert forall|referer: Option<Seq<char>>, user_agent: Option<Seq<char>>|
                    visits_with(visits, link_id, referer, user_agent) >= 1 implies #[trigger] has_row(
                    counts,
                    referer,
                    user_agent,
                ) by {
                    if referer == r && user_agent == u {
                        assert(is_row(counts[k], referer, user_agent));
                    } else {
                        assert(has_row(old_counts, referer, user_agent));
                        let n = row_index(old_counts, referer, user_agent);
                        assert(is_row(counts[n], referer, user_agent));
                    }
                }
                assert forall|i: int, j: int| 0 <= i < j < counts.len() implies !is_row(
                    #[trigger] counts[i],
                    (#[trigger] counts[j]).referer,
                    counts[j].user_agent,
                ) by {
                    assert(!is_row(old_counts[i], old_counts[j].referer, old_counts[j].user_agent));
                }
            } else {
                let last = old_counts.len() as int;
                assert(counts.drop_last() =~= old_counts);
                assert(visits_with(before, link_id, r, u) == 0) by {
                    if visits_with(before, link_id, r, u) >= 1 {
                        assert(has_row(old_counts, r, u));
                    }
                }
                assert forall|i: int| 0 <= i < counts.len() implies (#[trigger] counts[i]).amount
                    == Some(
                    visits_with(visits, link_id, counts[i].referer, counts[i].user_agent) as int,
                ) && visits_with(visits, link_id, counts[i].referer, counts[i].user_agent)
                    >= 1 by {
                    if i < last {
                        assert(counts[i] == old_counts[i]);
                        assert(!is_row(old_counts[i], r, u));
                    }
                }
                assert forall|referer: Option<Seq<char>>, user_agent: Option<Seq<char>>|
                    visits_with(visits, link_id, referer, user_agent) >= 1 implies #[trigger] has_row(
                    counts,
                    referer,
                    user_agent,
                ) by {
                    if referer == r && user_agent == u {
                        assert(is_row(counts[last], referer, user_agent));
                    } else {
                        assert(has_row(old_counts, referer, user_agent));
                        let n = row_index(old_counts, referer, user_agent);
                        assert(is_row(counts[n], referer, user_agent));
                    }
                }
                assert forall|i: int, j: int| 0 <= i < j < counts.len() implies !is_row(
                    #[trigger] counts[i],
                    (#[trigger] counts[j]).referer,
                    counts[j].user_agent,
                ) by {
                    if j < last {
                        assert(!is_row(old_counts[i], old_counts[j].referer, old_counts[j].user_agent));
                    } else {
                        assert(counts[i] == old_counts[i]);
                        assert(!is_row(old_counts[i], r, u));
                    }
                }
            }
        } else {
            assert forall|referer: Option<Seq<char>>, user_agent: Option<Seq<char>>|
                visits_with(visits, link_id, referer, user_agent) >= 1 implies #[trigger] has_row(
                counts,
                referer,
                user_agent,
            ) by {
                assert(has_row(old_counts, referer, user_agent));
            }
        }
    }
}

/// A link without visits has no counts.
pub proof fn lemma_tally_of_no_visits(visits: Seq<VisitView>, link_id: Seq<char>)
    requires
        forall|i: int| 0 <= i < visits.len() ==> (#[trigger] visits[i]).link_id != link_id,
    ensures
        tally(visits, link_id) == Seq::<CountView>::empty(),
    decreases visits.len(),
{
    if visits.len() > 0 {
        assert(visits.last() == visits[visits.len() - 1]);
        lemma_tally_of_no_visits(visits.drop_last(), link_id);
    }
}

} // verus!
