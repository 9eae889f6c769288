use link_shortener::auth::{auth, credential_hash, Authentication};
use link_shortener::error::{ServiceError, StoreFailure};
use link_shortener::gateway::{
    settle, Completion, Payload, StoreReply, StoreRequest, SETTINGS_ID,
};
use link_shortener::model::{
    CountedLinkStatistic, Header, Link, LinkTarget, Settings, VisitRecord,
};
use link_shortener::provision::{
    begin_creation, begin_update, create_link, creation_message, normal_form, update_link,
    Attempt, Creation, Update, MAX_ATTEMPTS,
};
use link_shortener::resolve::{
    get_header, get_link_statistics, names_match, redirect, RedirectTarget, Resolution,
    StatisticsQuery, DEFAULT_CACHE_CONTROL_HEADER_VALUE,
};

/// A store in memory that answers as a relational store would, and counts
/// what it is asked.
struct MemoryStore {
    links: Vec<Link>,
    visits: Vec<VisitRecord>,
    settings: Option<Settings>,
    requests: usize,
    writes: usize,
    failing_visits: Option<Completion>,
}

impl MemoryStore {
    fn new() -> MemoryStore {
        MemoryStore {
            links: Vec::new(),
            visits: Vec::new(),
            settings: None,
            requests: 0,
            writes: 0,
            failing_visits: None,
        }
    }

    fn with_key(key: &str) -> MemoryStore {
        let mut store = MemoryStore::new();
        store.settings = Some(Settings {
            id: SETTINGS_ID.to_string(),
            encrypted_global_api_key: credential_hash(key),
        });
        store
    }

    fn complete(&mut self, request: &StoreRequest) -> Completion {
        match request {
            StoreRequest::FetchLink { id } => match self.links.iter().find(|l| &l.id == id) {
                Some(link) => Completion::Returned(Payload::Link(link.clone())),
                None => Completion::NoRow,
            },
            StoreRequest::InsertLink { id, target_url } => {
                if self.links.iter().any(|l| &l.id == id) {
                    Completion::UniqueViolation
                } else {
                    let link = Link { id: id.clone(), target_url: target_url.clone() };
                    self.links.push(link.clone());
                    self.writes += 1;
                    Completion::Returned(Payload::Link(link))
                }
            }
            StoreRequest::UpdateLink { id, target_url } => {
                match self.links.iter_mut().find(|l| &l.id == id) {
                    Some(link) => {
                        link.target_url = target_url.clone();
                        self.writes += 1;
                        Completion::Returned(Payload::Link(link.clone()))
                    }
                    None => Completion::NoRow,
                }
            }
            StoreRequest::InsertVisit { visit } => {
                if let Some(failure) = &self.failing_visits {
                    return failure.clone();
                }
                self.visits.push(visit.clone());
                self.writes += 1;
                Completion::Returned(Payload::VisitSaved)
            }
            StoreRequest::FetchStatistics { link_id } => {
                let mut counts: Vec<CountedLinkStatistic> = Vec::new();
                for visit in self.visits.iter().filter(|v| &v.link_id == link_id) {
                    match counts
                        .iter_mut()
                        .find(|c| c.referer == visit.referer && c.user_agent == visit.user_agent)
                    {
                        Some(count) => count.amount = Some(count.amount.unwrap_or(0) + 1),
                        None => counts.push(CountedLinkStatistic {
                            amount: Some(1),
                            referer: visit.referer.clone(),
                            user_agent: visit.user_agent.clone(),
                        }),
                    }
                }
                Completion::Returned(Payload::Statistics(counts))
            }
            StoreRequest::FetchGlobalSettings => match &self.settings {
                Some(settings) => Completion::Returned(Payload::Settings(settings.clone())),
                None => Completion::NoRow,
            },
        }
    }

    fn perform(&mut self, request: StoreRequest) -> StoreReply {
        self.requests += 1;
        let completion = self.complete(&request);
        settle(request.operation(), completion)
    }
}

fn target(url: &str) -> LinkTarget {
    LinkTarget { target_url: url.to_string() }
}

fn header(name: &str, value: &str) -> Header {
    Header { name: name.to_string(), value: Some(value.to_string()) }
}

/// Creates a link with the identifiers of a stubbed generator, which are
/// taken from `ids` one by one.
fn create_with(store: &mut MemoryStore, url: &str, ids: &mut Vec<String>) -> Creation {
    let mut creation = begin_creation(normal_form(&target(url)), ids.remove(0));
    while let Some(request) = creation.request() {
        let reply = store.perform(request);
        let fresh = if creation.retries(&reply) { ids.remove(0) } else { String::new() };
        creation = creation.resume_with(reply, fresh);
    }
    creation
}

fn create(store: &mut MemoryStore, url: &str) -> Creation {
    let mut creation = create_link(&target(url));
    while let Some(request) = creation.request() {
        let reply = store.perform(request);
        creation = creation.resume(reply);
    }
    creation
}

fn update(store: &mut MemoryStore, id: &str, url: &str) -> Update {
    let mut update = update_link(id.to_string(), &target(url));
    while let Some(request) = update.request() {
        let reply = store.perform(request);
        update = update.resume(reply);
    }
    update
}

fn resolve(store: &mut MemoryStore, id: &str, headers: &Vec<Header>) -> Resolution {
    let mut resolution = redirect(id.to_string(), headers);
    while let Some(request) = resolution.request() {
        let reply = store.perform(request);
        resolution = resolution.resume(reply);
    }
    resolution
}

fn statistics(store: &mut MemoryStore, id: &str) -> StatisticsQuery {
    let mut query = get_link_statistics(id.to_string());
    while let Some(request) = query.request() {
        let reply = store.perform(request);
        query = query.resume(reply);
    }
    query
}

fn authenticate(store: &mut MemoryStore, headers: &Vec<Header>) -> Authentication {
    let mut check = auth(headers);
    while let Some(request) = check.request() {
        let reply = store.perform(request);
        check = check.resume(reply);
    }
    check
}

fn ids(list: &[&str]) -> Vec<String> {
    list.iter().map(|s| s.to_string()).collect()
}

fn redirect_to(url: &str) -> RedirectTarget {
    RedirectTarget {
        status: 307,
        location: url.to_string(),
        cache_control: DEFAULT_CACHE_CONTROL_HEADER_VALUE.to_string(),
    }
}

#[test]
fn normal_form_of_an_absolute_url() {
    assert_eq!(
        normal_form(&target("https://example.com/a")),
        Some("https://example.com/a".to_string())
    );
}

#[test]
fn normal_form_may_differ_from_the_input() {
    assert_eq!(
        normal_form(&target("https://example.com")),
        Some("https://example.com/".to_string())
    );
    assert_eq!(
        normal_form(&target("HTTPS://EXAMPLE.com/a b")),
        Some("https://example.com/a%20b".to_string())
    );
}

#[test]
fn normal_form_of_what_is_no_absolute_url() {
    assert_eq!(normal_form(&target("not a url")), None);
    assert_eq!(normal_form(&target("/relative/path")), None);
    assert_eq!(normal_form(&target("")), None);
    assert_eq!(normal_form(&target("example.com/a")), None);
}

#[test]
fn three_attempts_at_most() {
    assert_eq!(MAX_ATTEMPTS, 3);
}

#[test]
fn creation_begins_with_the_first_insert() {
    let creation = begin_creation(Some("https://example.com/a".to_string()), "MTIz".to_string());
    assert_eq!(
        creation,
        Creation::Inserting(Attempt {
            id: "MTIz".to_string(),
            target_url: "https://example.com/a".to_string(),
            number: 1,
        })
    );
    assert_eq!(
        creation.request(),
        Some(StoreRequest::InsertLink {
            id: "MTIz".to_string(),
            target_url: "https://example.com/a".to_string(),
        })
    );
}

#[test]
fn malformed_url_is_refused_before_the_store_is_asked() {
    let mut store = MemoryStore::new();
    let creation = create(&mut store, "not a url");
    assert_eq!(creation, Creation::Failed(ServiceError::MalformedInput));
    assert_eq!(store.requests, 0);

    let begun = create_link(&target("not a url"));
    assert_eq!(begun.request(), None);
}

#[test]
fn example_scenario_create_then_redirect() {
    let mut store = MemoryStore::new();
    let creation = create_with(&mut store, "https://example.com/a", &mut ids(&["MTIzNDU2"]));
    let link = match creation {
        Creation::Created(link) => link,
        other => panic!("no link: {:?}", other),
    };
    assert_eq!(link.id.len(), 8);
    assert_eq!(
        link,
        Link { id: "MTIzNDU2".to_string(), target_url: "https://example.com/a".to_string() }
    );

    let resolution = resolve(&mut store, &link.id, &vec![]);
    assert_eq!(
        resolution,
        Resolution::Redirected {
            target: RedirectTarget {
                status: 307,
                location: "https://example.com/a".to_string(),
                cache_control:
                    "public, max-age=300, s-maxage=300, stale-while-revalidate=300, stale-if-error=300"
                        .to_string(),
            },
            visit_failure: None,
        }
    );
}

#[test]
fn round_trip_with_drawn_identifiers() {
    let mut store = MemoryStore::new();
    for url in ["https://example.com/a", "https://example.org/b?c=d#e", "ftp://files.example/x"] {
        let link = match create(&mut store, url) {
            Creation::Created(link) => link,
            other => panic!("no link: {:?}", other),
        };
        assert_eq!(link.target_url, url);
        let resolution = resolve(&mut store, &link.id, &vec![]);
        assert_eq!(resolution.response(), Some(redirect_to(url)));
    }
}

#[test]
fn round_trip_gives_the_normal_form() {
    let mut store = MemoryStore::new();
    let link = match create(&mut store, "https://example.com") {
        Creation::Created(link) => link,
        other => panic!("no link: {:?}", other),
    };
    assert_eq!(link.target_url, "https://example.com/");
    let resolution = resolve(&mut store, &link.id, &vec![]);
    assert_eq!(resolution.response(), Some(redirect_to("https://example.com/")));
}

#[test]
fn conflict_leads_to_the_next_identifier() {
    let mut store = MemoryStore::new();
    create_with(&mut store, "https://example.com/1", &mut ids(&["a1"]));
    let creation = create_with(&mut store, "https://example.com/2", &mut ids(&["a1", "b2"]));
    assert_eq!(
        creation,
        Creation::Created(Link {
            id: "b2".to_string(),
            target_url: "https://example.com/2".to_string(),
        })
    );
    assert_eq!(store.links.len(), 2);
    assert_eq!(store.links[0].target_url, "https://example.com/1");
}

#[test]
fn third_identifier_is_the_last() {
    let mut store = MemoryStore::new();
    create_with(&mut store, "https://example.com/1", &mut ids(&["a1"]));
    create_with(&mut store, "https://example.com/2", &mut ids(&["b2"]));
    let creation =
        create_with(&mut store, "https://example.com/3", &mut ids(&["a1", "b2", "c3"]));
    assert_eq!(
        creation,
        Creation::Created(Link {
            id: "c3".to_string(),
            target_url: "https://example.com/3".to_string(),
        })
    );
}

#[test]
fn three_conflicts_exhaust_the_identifiers() {
    let mut store = MemoryStore::new();
    create_with(&mut store, "https://example.com/1", &mut ids(&["a1"]));
    let before = store.requests;
    let mut candidates = ids(&["a1", "a1", "a1", "zz"]);
    let creation = create_with(&mut store, "https://example.com/2", &mut candidates);
    assert_eq!(creation, Creation::Failed(ServiceError::ExhaustedIdSpace));
    assert_eq!(store.requests - before, 3);
    assert_eq!(candidates, ids(&["zz"]));
    assert_eq!(store.links.len(), 1);
    assert_eq!(store.links[0].target_url, "https://example.com/1");
}

#[test]
fn generator_with_two_values_never_gives_a_duplicate() {
    let mut store = MemoryStore::new();
    let mut created: Vec<String> = Vec::new();
    let mut exhausted = 0;
    for call in 0..5 {
        let url = format!("https://example.com/{}", call);
        let mut candidates = ids(&["aa", "bb", "aa"]);
        match create_with(&mut store, &url, &mut candidates) {
            Creation::Created(link) => created.push(link.id),
            Creation::Failed(error) => {
                assert_eq!(error, ServiceError::ExhaustedIdSpace);
                exhausted += 1;
            }
            other => panic!("not ended: {:?}", other),
        }
    }
    assert_eq!(created, ids(&["aa", "bb"]));
    assert_eq!(exhausted, 3);
    assert_eq!(store.links.len(), 2);
    assert_eq!(store.links[0].target_url, "https://example.com/0");
    assert_eq!(store.links[1].target_url, "https://example.com/1");
}

#[test]
fn created_ids_are_pairwise_distinct() {
    let mut store = MemoryStore::new();
    let mut seen: Vec<String> = Vec::new();
    for call in 0..50 {
        let url = format!("https://example.com/{}", call);
        if let Creation::Created(link) = create(&mut store, &url) {
            assert!(!seen.contains(&link.id));
            seen.push(link.id);
        }
    }
    assert_eq!(seen.len(), store.links.len());
}

#[test]
fn store_fault_ends_the_creation_at_once() {
    for (failure, cause) in [
        (Err(StoreFailure::Timeout), StoreFailure::Timeout),
        (Err(StoreFailure::StoreError), StoreFailure::StoreError),
        (Err(StoreFailure::NotFound), StoreFailure::NotFound),
    ] {
        let creation =
            begin_creation(Some("https://example.com/a".to_string()), "a1".to_string());
        assert!(!creation.retries(&failure));
        let next = creation.resume_with(failure, "b2".to_string());
        assert_eq!(next, Creation::Failed(ServiceError::InfrastructureFailure { cause }));
        assert_eq!(next.request(), None);
    }
}

#[test]
fn retry_counts_the_attempts() {
    let creation = begin_creation(Some("https://example.com/a".to_string()), "a1".to_string());
    let conflict: StoreReply = Err(StoreFailure::Conflict);
    assert!(creation.retries(&conflict));
    let second = creation.resume_with(conflict.clone(), "b2".to_string());
    assert_eq!(
        second,
        Creation::Inserting(Attempt {
            id: "b2".to_string(),
            target_url: "https://example.com/a".to_string(),
            number: 2,
        })
    );
    let third = second.resume_with(conflict.clone(), "c3".to_string());
    assert_eq!(
        third,
        Creation::Inserting(Attempt {
            id: "c3".to_string(),
            target_url: "https://example.com/a".to_string(),
            number: 3,
        })
    );
    assert!(!third.retries(&conflict));
    let end = third.resume_with(conflict, "d4".to_string());
    assert_eq!(end, Creation::Failed(ServiceError::ExhaustedIdSpace));
}

#[test]
fn resume_draws_an_identifier_on_conflict() {
    let creation = begin_creation(Some("https://example.com/a".to_string()), "a1".to_string());
    match creation.resume(Err(StoreFailure::Conflict)) {
        Creation::Inserting(attempt) => {
            assert_eq!(attempt.number, 2);
            assert_eq!(attempt.target_url, "https://example.com/a");
            assert!(attempt.id.len() >= 2);
        }
        other => panic!("no retry: {:?}", other),
    }
}

#[test]
fn answer_of_another_kind_fails_the_creation() {
    let creation = begin_creation(Some("https://example.com/a".to_string()), "a1".to_string());
    assert_eq!(
        creation.resume_with(Ok(Payload::VisitSaved), "b2".to_string()),
        Creation::Failed(ServiceError::InfrastructureFailure { cause: StoreFailure::StoreError })
    );
}

#[test]
fn ended_creation_stays_as_it_is() {
    let created = Creation::Created(Link { id: "a".to_string(), target_url: "u".to_string() });
    assert_eq!(created.clone().resume_with(Err(StoreFailure::Conflict), "b".to_string()), created);
    let failed = Creation::Failed(ServiceError::MalformedInput);
    assert_eq!(failed.clone().resume(Err(StoreFailure::Timeout)), failed);
}

#[test]
fn update_of_a_link_that_is_not_there() {
    let mut store = MemoryStore::new();
    create_with(&mut store, "https://example.com/1", &mut ids(&["a1"]));
    let writes = store.writes;
    let update = update(&mut store, "nope", "https://example.com/2");
    assert_eq!(update, Update::Failed(ServiceError::NotFoundClient));
    assert_eq!(store.writes, writes);
    assert_eq!(store.links.len(), 1);
    assert_eq!(store.links[0].target_url, "https://example.com/1");
}

#[test]
fn update_keeps_the_identifier() {
    let mut store = MemoryStore::new();
    create_with(&mut store, "https://example.com/1", &mut ids(&["a1"]));
    let update = update(&mut store, "a1", "https://example.com/2");
    assert_eq!(
        update,
        Update::Updated(Link {
            id: "a1".to_string(),
            target_url: "https://example.com/2".to_string(),
        })
    );
    assert_eq!(store.links.len(), 1);
    let resolution = resolve(&mut store, "a1", &vec![]);
    assert_eq!(resolution.response(), Some(redirect_to("https://example.com/2")));
}

#[test]
fn update_with_a_malformed_url_asks_nothing() {
    let mut store = MemoryStore::new();
    let update = update(&mut store, "a1", "nonsense");
    assert_eq!(update, Update::Failed(ServiceError::MalformedInput));
    assert_eq!(store.requests, 0);
}

#[test]
fn update_begins_with_the_normal_form() {
    let update = begin_update("a1".to_string(), Some("https://example.com/".to_string()));
    assert_eq!(
        update.request(),
        Some(StoreRequest::UpdateLink {
            id: "a1".to_string(),
            target_url: "https://example.com/".to_string(),
        })
    );
    assert_eq!(
        update_link("a1".to_string(), &target("https://example.com")),
        Update::Updating { id: "a1".to_string(), target_url: "https://example.com/".to_string() }
    );
}

#[test]
fn update_fails_with_the_store() {
    for cause in [StoreFailure::Timeout, StoreFailure::StoreError, StoreFailure::Conflict] {
        let update = begin_update("a1".to_string(), Some("https://example.com/".to_string()));
        assert_eq!(
            update.resume(Err(cause)),
            Update::Failed(ServiceError::InfrastructureFailure { cause })
        );
    }
}

#[test]
fn header_lookup_takes_the_first_of_a_name() {
    let headers = vec![
        header("accept", "*/*"),
        header("referer", "https://a.example/"),
        header("referer", "https://b.example/"),
    ];
    assert_eq!(get_header("referer", &headers), Some("https://a.example/".to_string()));
    assert_eq!(get_header("accept", &headers), Some("*/*".to_string()));
    assert_eq!(get_header("user-agent", &headers), None);
    assert_eq!(get_header("referer", &vec![]), None);
}

#[test]
fn header_names_are_compared_without_regard_to_case() {
    let headers = vec![header("referer", "https://a.example/"), header("User-Agent", "curl/8")];
    assert_eq!(get_header("Referer", &headers), Some("https://a.example/".to_string()));
    assert_eq!(get_header("REFERER", &headers), Some("https://a.example/".to_string()));
    assert_eq!(get_header("user-agent", &headers), Some("curl/8".to_string()));
    assert_eq!(get_header("refere", &headers), None);
    assert_eq!(get_header("referers", &headers), None);
}

#[test]
fn names_match_folds_ascii_letters_only() {
    assert!(names_match("x-api-key", "X-Api-Key"));
    assert!(names_match("", ""));
    assert!(names_match("az", "AZ"));
    assert!(!names_match("a", "b"));
    assert!(!names_match("a", "ab"));
    assert!(!names_match("@", "`"));
    assert!(!names_match("[", "{"));
    assert!(!names_match("\u{e4}", "\u{c4}"));
    assert!(names_match("\u{e4}", "\u{e4}"));
}

#[test]
fn capital_letters_in_header_names_reach_the_visit_and_the_key() {
    let mut store = MemoryStore::with_key("secret");
    create_with(&mut store, "https://example.com/1", &mut ids(&["a1"]));
    let headers = vec![
        header("Referer", "https://from.example/"),
        header("USER-AGENT", "curl/8"),
        header("X-API-Key", "secret"),
    ];
    assert_eq!(authenticate(&mut store, &headers), Authentication::Granted);
    resolve(&mut store, "a1", &headers);
    assert_eq!(
        store.visits,
        vec![VisitRecord {
            link_id: "a1".to_string(),
            referer: Some("https://from.example/".to_string()),
            user_agent: Some("curl/8".to_string()),
        }]
    );
}

#[test]
fn creation_tells_a_bad_url_in_its_own_words() {
    assert_eq!(creation_message(ServiceError::MalformedInput), "bad url");
    assert_eq!(ServiceError::MalformedInput.message(), "malformed url");
    assert_eq!(creation_message(ServiceError::ExhaustedIdSpace), "internal server error");
    assert_eq!(
        creation_message(ServiceError::InfrastructureFailure { cause: StoreFailure::Timeout }),
        "internal server error"
    );
    assert_eq!(creation_message(ServiceError::Unauthenticated), "unauthorized");
    assert_eq!(creation_message(ServiceError::NotFoundClient), "not found");
}

#[test]
fn header_without_text_reads_as_empty() {
    let headers = vec![Header { name: "user-agent".to_string(), value: None }];
    assert_eq!(get_header("user-agent", &headers), Some(String::new()));
}

#[test]
fn redirect_writes_the_visit_down() {
    let mut store = MemoryStore::new();
    create_with(&mut store, "https://example.com/1", &mut ids(&["a1"]));
    let headers = vec![
        header("user-agent", "curl/8"),
        header("referer", "https://from.example/"),
    ];
    let resolution = resolve(&mut store, "a1", &headers);
    assert_eq!(
        resolution,
        Resolution::Redirected { target: redirect_to("https://example.com/1"), visit_failure: None }
    );
    assert_eq!(
        store.visits,
        vec![VisitRecord {
            link_id: "a1".to_string(),
            referer: Some("https://from.example/".to_string()),
            user_agent: Some("curl/8".to_string()),
        }]
    );
}

#[test]
fn redirect_without_headers_writes_absent_values() {
    let mut store = MemoryStore::new();
    create_with(&mut store, "https://example.com/1", &mut ids(&["a1"]));
    resolve(&mut store, "a1", &vec![]);
    assert_eq!(
        store.visits,
        vec![VisitRecord { link_id: "a1".to_string(), referer: None, user_agent: None }]
    );
}

#[test]
fn redirect_stands_when_the_visit_cannot_be_written() {
    for (completion, cause) in [
        (Completion::Elapsed, StoreFailure::Timeout),
        (Completion::Fault, StoreFailure::StoreError),
        (Completion::UniqueViolation, StoreFailure::StoreError),
    ] {
        let mut store = MemoryStore::new();
        create_with(&mut store, "https://example.com/1", &mut ids(&["a1"]));
        store.failing_visits = Some(completion);
        let resolution = resolve(&mut store, "a1", &vec![header("referer", "r")]);
        assert_eq!(
            resolution,
            Resolution::Redirected {
                target: redirect_to("https://example.com/1"),
                visit_failure: Some(cause),
            }
        );
        assert_eq!(resolution.response(), Some(redirect_to("https://example.com/1")));
        assert!(store.visits.is_empty());
    }
}

#[test]
fn redirect_is_built_before_the_visit_is_written() {
    let mut store = MemoryStore::new();
    create_with(&mut store, "https://example.com/1", &mut ids(&["a1"]));
    let resolution = redirect("a1".to_string(), &vec![]);
    assert_eq!(resolution.response(), None);
    let request = resolution.request().unwrap();
    assert_eq!(request, StoreRequest::FetchLink { id: "a1".to_string() });
    let recording = resolution.resume(store.perform(request));
    assert_eq!(recording.response(), Some(redirect_to("https://example.com/1")));
    assert_eq!(
        recording.request(),
        Some(StoreRequest::InsertVisit {
            visit: VisitRecord { link_id: "a1".to_string(), referer: None, user_agent: None },
        })
    );
    assert!(store.visits.is_empty());
}

#[test]
fn unknown_link_is_not_found_and_no_visit_is_written() {
    let mut store = MemoryStore::new();
    let resolution = resolve(&mut store, "nope", &vec![]);
    assert_eq!(resolution, Resolution::Failed(ServiceError::NotFoundClient));
    assert_eq!(resolution.response(), None);
    assert_eq!(store.requests, 1);
    assert!(store.visits.is_empty());
}

#[test]
fn failed_fetch_is_no_missing_link() {
    for cause in [StoreFailure::Timeout, StoreFailure::StoreError] {
        let resolution = redirect("a1".to_string(), &vec![]);
        let next = resolution.resume(Err(cause));
        assert_eq!(next, Resolution::Failed(ServiceError::InfrastructureFailure { cause }));
        assert_eq!(next.request(), None);
    }
}

#[test]
fn statistics_of_a_link_without_visits_are_empty() {
    let mut store = MemoryStore::new();
    create_with(&mut store, "https://example.com/1", &mut ids(&["a1"]));
    assert_eq!(statistics(&mut store, "a1"), StatisticsQuery::Listed(vec![]));
}

#[test]
fn statistics_count_equal_visits_together() {
    let mut store = MemoryStore::new();
    create_with(&mut store, "https://example.com/1", &mut ids(&["a1"]));
    create_with(&mut store, "https://example.com/2", &mut ids(&["b2"]));
    let curl = vec![header("user-agent", "curl/8")];
    resolve(&mut store, "a1", &curl);
    resolve(&mut store, "a1", &curl);
    resolve(&mut store, "a1", &vec![]);
    resolve(&mut store, "b2", &curl);
    assert_eq!(
        statistics(&mut store, "a1"),
        StatisticsQuery::Listed(vec![
            CountedLinkStatistic {
                amount: Some(2),
                referer: None,
                user_agent: Some("curl/8".to_string()),
            },
            CountedLinkStatistic { amount: Some(1), referer: None, user_agent: None },
        ])
    );
}

#[test]
fn statistics_fail_with_the_store() {
    for cause in [StoreFailure::Timeout, StoreFailure::StoreError, StoreFailure::NotFound] {
        let query = get_link_statistics("a1".to_string());
        assert_eq!(
            query.request(),
            Some(StoreRequest::FetchStatistics { link_id: "a1".to_string() })
        );
        assert_eq!(
            query.resume(Err(cause)),
            StatisticsQuery::Failed(ServiceError::InfrastructureFailure { cause })
        );
    }
}

#[test]
fn call_without_a_key_is_turned_away_before_the_store_is_asked() {
    let mut store = MemoryStore::with_key("secret");
    let check = authenticate(&mut store, &vec![header("accept", "*/*")]);
    assert_eq!(check, Authentication::Denied(ServiceError::Unauthenticated));
    assert_eq!(store.requests, 0);
    assert_eq!(auth(&vec![]).request(), None);
}

#[test]
fn call_with_the_right_key_gets_through() {
    let mut store = MemoryStore::with_key("secret");
    let check = authenticate(&mut store, &vec![header("x-api-key", "secret")]);
    assert_eq!(check, Authentication::Granted);
    assert_eq!(store.requests, 1);
}

#[test]
fn call_with_any_other_key_is_turned_away() {
    for key in ["wrong", "", "secret ", "SECRET"] {
        let mut store = MemoryStore::with_key("secret");
        let check = authenticate(&mut store, &vec![header("x-api-key", key)]);
        assert_eq!(check, Authentication::Denied(ServiceError::Unauthenticated));
    }
}

#[test]
fn key_that_is_no_text_counts_as_the_empty_key() {
    let headers = vec![Header { name: "x-api-key".to_string(), value: None }];
    assert_eq!(auth(&headers), Authentication::Verifying { api_key: String::new() });
    let mut store = MemoryStore::with_key("");
    assert_eq!(authenticate(&mut store, &headers), Authentication::Granted);
    let mut store = MemoryStore::with_key("secret");
    assert_eq!(
        authenticate(&mut store, &headers),
        Authentication::Denied(ServiceError::Unauthenticated)
    );
}

#[test]
fn key_check_asks_for_the_settings() {
    let check = auth(&vec![header("x-api-key", "secret")]);
    assert_eq!(check, Authentication::Verifying { api_key: "secret".to_string() });
    assert_eq!(check.request(), Some(StoreRequest::FetchGlobalSettings));
}

#[test]
fn key_check_fails_closed() {
    for cause in [StoreFailure::Timeout, StoreFailure::StoreError, StoreFailure::NotFound] {
        let check = auth(&vec![header("x-api-key", "secret")]);
        assert_eq!(
            check.resume(Err(cause)),
            Authentication::Denied(ServiceError::InfrastructureFailure { cause })
        );
    }
    let mut store = MemoryStore::new();
    assert_eq!(
        authenticate(&mut store, &vec![header("x-api-key", "secret")]),
        Authentication::Denied(ServiceError::InfrastructureFailure {
            cause: StoreFailure::NotFound
        })
    );
}

#[test]
fn mutating_call_behind_the_key_check() {
    let mut store = MemoryStore::with_key("secret");
    let headers = vec![header("x-api-key", "nope")];
    if authenticate(&mut store, &headers) == Authentication::Granted {
        create(&mut store, "https://example.com/a");
    }
    assert!(store.links.is_empty());
    let headers = vec![header("x-api-key", "secret")];
    if authenticate(&mut store, &headers) == Authentication::Granted {
        create(&mut store, "https://example.com/a");
    }
    assert_eq!(store.links.len(), 1);
}
