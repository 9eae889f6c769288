//! The records that the service keeps and hands out, each with its
//! mathematical view: the same record with every text as a sequence of
//! characters.

use vstd::prelude::*;

verus! {

/// The view of an optional text.
pub open spec fn opt_text(text: Option<String>) -> Option<Seq<char>> {
    match text {
        Some(t) => Some(t@),
        None => None,
    }
}

/// A short identifier and the URL it stands for.
#[derive(Clone, Debug, PartialEq, Eq)]
pub struct Link {
    pub id: String,
    pub target_url: String,
}

/// The view of a [`Link`].
pub struct LinkView {
    pub id: Seq<char>,
    pub target_url: Seq<char>,
}

impl View for Link {
    type V = LinkView;

    open spec fn view(&self) -> LinkView {
        LinkView { id: self.id@, target_url: self.target_url@ }
    }
}

/// What a client sends to create or to update a link.
#[derive(Clone, Debug, PartialEq, Eq)]
pub struct LinkTarget {
    pub target_url: String,
}

impl View for LinkTarget {
    type V = Seq<char>;

    open spec fn view(&self) -> Seq<char> {
        self.target_url@
    }
}

/// One redirect as it is written down: which link, and from where and by
/// what it was followed, as far as the request said so.
#[derive(Clone, Debug, PartialEq, Eq)]
pub struct VisitRecord {
    pub link_id: String,
    pub referer: Option<String>,
    pub user_agent: Option<String>,
}

/// The view of a [`VisitRecord`].
pub struct VisitView {
    pub link_id: Seq<char>,
    pub referer: Option<Seq<char>>,
    pub user_agent: Option<Seq<char>>,
}

impl View for VisitRecord {
    type V = VisitView;

    open spec fn view(&self) -> VisitView {
        VisitView {
            link_id: self.link_id@,
            referer: opt_text(self.referer),
            user_agent: opt_text(self.user_agent),
        }
    }
}

/// How often a link was followed with one pair of referer and user agent.
#[derive(Clone, Debug, PartialEq, Eq)]
pub struct CountedLinkStatistic {
    pub amount: Option<i64>,
    pub referer: Option<String>,
    pub user_agent: Option<String>,
}

/// The view of a [`CountedLinkStatistic`].
pub struct CountView {
    pub amount: Option<int>,
    pub referer: Option<Seq<char>>,
    pub user_agent: Option<Seq<char>>,
}

impl View for CountedLinkStatistic {
    type V = CountView;

    open spec fn view(&self) -> CountView {
        CountView {
            amount: match self.amount {
                Some(a) => Some(a as int),
                None => None,
            },
            referer: opt_text(self.referer),
            user_agent: opt_text(self.user_agent),
        }
    }
}

/// The views of a list of counts, in the list's order.
pub open spec fn count_views(counts: Seq<CountedLinkStatistic>) -> Seq<CountView> {
    counts.map_values(|c: CountedLinkStatistic| c@)
}

/// The one settings record: the hash of the key that is accepted.
#[derive(Clone, Debug, PartialEq, Eq)]
pub struct Settings {
    pub id: String,
    pub encrypted_global_api_key: String,
}

/// The view of [`Settings`].
pub struct SettingsView {
    pub id: Seq<char>,
    pub encrypted_global_api_key: Seq<char>,
}

impl View for Settings {
    type V = SettingsView;

    open spec fn view(&self) -> SettingsView {
        SettingsView {
            id: self.id@,
            encrypted_global_api_key: self.encrypted_global_api_key@,
        }
    }
}

/// One header of a request. Names are compared without regard to ASCII
/// case. The value is `None` where the bytes that came are no visible
/// ASCII text.
#[derive(Clone, Debug, PartialEq, Eq)]
pub struct Header {
    pub name: String,
    pub value: Option<String>,
}

/// The view of a [`Header`].
pub struct HeaderView {
    pub name: Seq<char>,
    pub value: Option<Seq<char>>,
}

impl View for Header {
    type V = HeaderView;

    open spec fn view(&self) -> HeaderView {
        HeaderView { name: self.name@, value: opt_text(self.value) }
    }
}

} // verus!
