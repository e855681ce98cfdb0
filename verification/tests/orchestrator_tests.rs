use faceted_search::error::ErrorKind;
use faceted_search::model::{Domain, Movie, Rating, SearchRequest, SearchResponse, WebResult};
use faceted_search::normalize::Documents;
use faceted_search::orchestrator::{
    attributes, configuration_failure, step, Action, AttributeSet, Event, Phase, Transition,
    INDEXING_GRACE_MS,
};
use faceted_search::query::{
    deliver_import, deliver_nothing, deliver_page, plan_search, read_back, IndexQuery, RawPage,
};
use faceted_search::web::{url_to_id, HttpStatus, MetasearchResult};
use std::collections::BTreeMap;

fn movie(id: i64) -> Movie {
    Movie {
        id,
        title: format!("Movie {}", id),
        title_en: None,
        description: format!("Description {}", id),
        director: format!("Director {}", id),
        year: 1990 + (id as i32),
        genres: vec!["Drama".to_string()],
        rating: Rating { millis: 7000 + id * 100 },
        poster_url: None,
        language: "ja".to_string(),
    }
}

fn request(index: &str, page: Option<usize>) -> SearchRequest {
    SearchRequest {
        query: String::new(),
        index: index.to_string(),
        genres: Vec::new(),
        year_min: None,
        year_max: None,
        rating_min: None,
        page,
        sort: None,
    }
}

fn finding(n: usize) -> MetasearchResult {
    MetasearchResult {
        title: format!("Result {}", n),
        url: format!("https://example.org/quantum/{}", n),
        content: Some(format!("Content {}", n)),
        engine: Some("google".to_string()),
        published_date: None,
        img_src: None,
    }
}

fn ok_status() -> HttpStatus {
    HttpStatus::new(200).unwrap()
}

/// An index engine that holds movies in ranking order and answers one page.
fn answer_from(index: &Vec<Movie>, query: &IndexQuery) -> RawPage {
    let from = query.offset.min(index.len());
    let to = (query.offset + query.limit).min(index.len());
    RawPage {
        documents: Documents::Movies(index[from..to].to_vec()),
        estimated_total_hits: Some(index.len()),
        processing_time_ms: 3,
    }
}

fn search_movies(index: &Vec<Movie>, page: usize) -> SearchResponse {
    let begun = step(Phase::Idle, Event::SearchRequested(request("movies", Some(page))));
    assert_eq!(begun.phase, Phase::Querying { page });
    let query = match begun.action {
        Action::Search(query) => query,
        other => panic!("the engine is not asked: {:?}", other),
    };
    let done = step(begun.phase, Event::Page(answer_from(index, &query)));
    assert_eq!(done.action, Action::Finish);
    match done.phase {
        Phase::Delivered(response) => response,
        other => panic!("nothing is delivered: {:?}", other),
    }
}

/// Performs the actions of an import against a web index kept in a map, and
/// gives the response together with the actions that were performed.
fn import_into(
    index: &mut BTreeMap<i64, WebResult>,
    query: &str,
    results: Vec<MetasearchResult>,
) -> (Phase, Vec<String>) {
    let mut log: Vec<String> = Vec::new();
    let mut results = Some(results);
    let mut transition = step(Phase::Idle, Event::ImportRequested(query.to_string()));
    loop {
        let event = match transition.action {
            Action::AskWeb(asked) => {
                log.push(format!("ask {}", asked));
                Event::WebStatus(ok_status())
            }
            Action::ReadWebResults => {
                log.push("read".to_string());
                Event::WebResults(results.take().unwrap())
            }
            Action::Configure { domain, set, attributes } => {
                log.push(format!("configure {:?} {:?} {}", domain, set, attributes.join(",")));
                Event::EngineDone
            }
            Action::Upsert { domain, documents, primary_key } => {
                log.push(format!("upsert {:?} {} by {}", domain, documents.len(), primary_key));
                for document in documents {
                    index.insert(document.id, document);
                }
                Event::EngineDone
            }
            Action::AwaitIndexing { grace_ms } => {
                log.push(format!("await {}", grace_ms));
                Event::EngineDone
            }
            Action::Search(read_back) => {
                log.push(format!("search {:?} limit {}", read_back.domain, read_back.limit));
                let held: Vec<WebResult> =
                    index.values().take(read_back.limit).cloned().collect();
                Event::Page(RawPage {
                    documents: Documents::Web(held),
                    estimated_total_hits: Some(index.len()),
                    processing_time_ms: 17,
                })
            }
            Action::Finish => return (transition.phase, log),
            Action::Ignore => panic!("an expected event was ignored"),
        };
        transition = step(transition.phase, event);
    }
}

#[test]
fn search_of_fourteen_documents_has_two_pages() {
    let index: Vec<Movie> = (1..=14).map(movie).collect();
    let first = search_movies(&index, 1);
    assert_eq!(first.total_hits, 14);
    assert_eq!(first.total_pages, 2);
    assert_eq!(first.page, 1);
    assert_eq!(first.hits.len(), 12);
    assert_eq!(first.processing_time_ms, 3);
    let ids: Vec<i64> = first.hits.iter().map(|h| h.id).collect();
    assert_eq!(ids, (1..=12).collect::<Vec<i64>>());
    let second = search_movies(&index, 2);
    assert_eq!(second.total_hits, 14);
    assert_eq!(second.total_pages, 2);
    assert_eq!(second.page, 2);
    let ids: Vec<i64> = second.hits.iter().map(|h| h.id).collect();
    assert_eq!(ids, vec![13, 14]);
}

#[test]
fn search_echoes_a_page_that_is_out_of_range() {
    let index: Vec<Movie> = (1..=14).map(movie).collect();
    let response = search_movies(&index, 5);
    assert_eq!(response.page, 5);
    assert_eq!(response.total_pages, 2);
    assert_eq!(response.total_hits, 14);
    assert!(response.hits.is_empty());
}

#[test]
fn search_with_empty_result_is_delivered_as_it_is() {
    let index: Vec<Movie> = Vec::new();
    let response = search_movies(&index, 1);
    assert_eq!(response.total_hits, 0);
    assert_eq!(response.total_pages, 0);
    assert!(response.hits.is_empty());
}

#[test]
fn plan_search_compiles_the_request() {
    let query = plan_search(
        Domain::Books,
        SearchRequest {
            query: "soseki".to_string(),
            index: "books".to_string(),
            genres: vec!["Novel".to_string()],
            year_min: Some(1900),
            year_max: None,
            rating_min: Some(Rating { millis: 7500 }),
            page: Some(3),
            sort: Some("year:desc".to_string()),
        },
    );
    assert_eq!(
        query,
        IndexQuery {
            domain: Domain::Books,
            query: "soseki".to_string(),
            filter: Some("(genres = \"Novel\") AND year >= 1900 AND rating >= 7.5".to_string()),
            sort: Some("year:desc".to_string()),
            offset: 24,
            limit: 12,
            show_ranking_score: true,
        }
    );
}

#[test]
fn plan_search_without_page_and_selection_asks_for_the_first_page_unfiltered() {
    let query = plan_search(Domain::Movies, request("movies", None));
    assert_eq!(query.offset, 0);
    assert_eq!(query.limit, 12);
    assert_eq!(query.filter, None);
    assert_eq!(query.sort, None);
    assert!(query.show_ranking_score);
}

#[test]
fn plan_search_passes_an_unknown_sort_through() {
    let mut wanted = request("movies", Some(1));
    wanted.sort = Some("colour:sideways".to_string());
    assert_eq!(plan_search(Domain::Movies, wanted).sort, Some("colour:sideways".to_string()));
}

#[test]
fn search_in_an_unknown_domain_fails_without_asking_the_engine() {
    let begun = step(Phase::Idle, Event::SearchRequested(request("music", Some(1))));
    assert_eq!(begun.action, Action::Finish);
    match begun.phase {
        Phase::Failed(error) => {
            assert_eq!(error.kind, ErrorKind::Query);
            assert_eq!(error.cause, None);
            assert_eq!(error.message, "Search failed: unknown index music");
        }
        other => panic!("the search did not fail: {:?}", other),
    }
}

#[test]
fn search_fails_when_the_engine_fails() {
    let begun = step(Phase::Idle, Event::SearchRequested(request("web", Some(1))));
    let done = step(begun.phase, Event::EngineFailed("invalid filter".to_string()));
    assert_eq!(done.action, Action::Finish);
    match done.phase {
        Phase::Failed(error) => {
            assert_eq!(error.kind, ErrorKind::Query);
            assert_eq!(error.message, "Search failed: invalid filter");
        }
        other => panic!("the search did not fail: {:?}", other),
    }
}

#[test]
fn deliver_page_counts_pages_of_the_estimate() {
    let raw = RawPage {
        documents: Documents::Movies(vec![movie(1), movie(2)]),
        estimated_total_hits: Some(25),
        processing_time_ms: 9,
    };
    let response = deliver_page(3, raw);
    assert_eq!(response.total_hits, 25);
    assert_eq!(response.total_pages, 3);
    assert_eq!(response.page, 3);
    assert_eq!(response.processing_time_ms, 9);
    assert_eq!(response.hits.len(), 2);
    let none = deliver_page(
        1,
        RawPage {
            documents: Documents::Books(Vec::new()),
            estimated_total_hits: None,
            processing_time_ms: 0,
        },
    );
    assert_eq!(none.total_hits, 0);
    assert_eq!(none.total_pages, 0);
}

#[test]
fn import_of_three_results_is_delivered_as_one_page() {
    let mut index: BTreeMap<i64, WebResult> = BTreeMap::new();
    let results = vec![finding(1), finding(2), finding(3)];
    let (phase, log) = import_into(&mut index, "quantum computing", results);
    let response = match phase {
        Phase::Delivered(response) => response,
        other => panic!("nothing is delivered: {:?}", other),
    };
    assert_eq!(response.total_hits, 3);
    assert_eq!(response.page, 1);
    assert_eq!(response.total_pages, 1);
    assert_eq!(response.processing_time_ms, 0);
    assert_eq!(response.hits.len(), 3);
    let mut ids: Vec<i64> = response.hits.iter().map(|h| h.id).collect();
    ids.sort();
    let mut expected: Vec<i64> = (1..=3)
        .map(|n| url_to_id(&format!("https://example.org/quantum/{}", n)))
        .collect();
    expected.sort();
    assert_eq!(ids, expected);
    for hit in &response.hits {
        assert_eq!(hit.id, url_to_id(&hit.creator));
        assert_eq!(hit.domain, Domain::Web);
        assert_eq!(hit.genres, vec!["web".to_string()]);
        assert_eq!(hit.rating, Rating { millis: 0 });
        assert_eq!(hit.language, "web");
        assert_eq!(hit.year, 0);
    }
    assert_eq!(
        log,
        vec![
            "ask quantum computing".to_string(),
            "read".to_string(),
            "configure Web Searchable title,description,url,source_engine".to_string(),
            "configure Web Filterable genres,year,rating,language".to_string(),
            "configure Web Sortable year,rating,title".to_string(),
            "upsert Web 3 by id".to_string(),
            "await 500".to_string(),
            "search Web limit 3".to_string(),
        ]
    );
}

#[test]
fn import_of_the_same_address_twice_keeps_one_document() {
    let mut index: BTreeMap<i64, WebResult> = BTreeMap::new();
    let (first, _) = import_into(&mut index, "quantum", vec![finding(1)]);
    assert!(matches!(first, Phase::Delivered(_)));
    assert_eq!(index.len(), 1);
    let mut again = finding(1);
    again.title = "Result 1, revised".to_string();
    let (second, _) = import_into(&mut index, "quantum", vec![again]);
    assert_eq!(index.len(), 1);
    let key = url_to_id("https://example.org/quantum/1");
    assert_eq!(index[&key].title, "Result 1, revised");
    match second {
        Phase::Delivered(response) => {
            assert_eq!(response.total_hits, 1);
            assert_eq!(response.hits[0].title, "Result 1, revised");
        }
        other => panic!("nothing is delivered: {:?}", other),
    }
}

#[test]
fn import_of_no_results_writes_nothing() {
    let mut index: BTreeMap<i64, WebResult> = BTreeMap::new();
    let (phase, log) = import_into(&mut index, "nothing at all", Vec::new());
    assert_eq!(
        phase,
        Phase::Delivered(SearchResponse {
            hits: Vec::new(),
            total_hits: 0,
            page: 1,
            total_pages: 0,
            processing_time_ms: 0,
        })
    );
    assert_eq!(log, vec!["ask nothing at all".to_string(), "read".to_string()]);
    assert!(index.is_empty());
    assert_eq!(deliver_nothing().total_pages, 0);
}

#[test]
fn import_reports_fewer_hits_when_the_engine_kept_fewer() {
    let raw = RawPage {
        documents: Documents::Web(Vec::new()),
        estimated_total_hits: Some(40),
        processing_time_ms: 12,
    };
    let response = deliver_import(raw);
    assert_eq!(response.total_hits, 0);
    assert_eq!(response.page, 1);
    assert_eq!(response.total_pages, 1);
    assert_eq!(response.processing_time_ms, 0);
}

fn failure_of(transition: Transition) -> (ErrorKind, Option<ErrorKind>, String) {
    assert_eq!(transition.action, Action::Finish);
    match transition.phase {
        Phase::Failed(error) => (error.kind, error.cause, error.message),
        other => panic!("the request did not fail: {:?}", other),
    }
}

fn fallback(answered: bool) -> Phase {
    Phase::EmptyFallback { query: "q".to_string(), answered }
}

#[test]
fn import_fails_when_the_web_cannot_be_reached() {
    let failed = step(fallback(false), Event::WebFailed("dns error".to_string()));
    assert_eq!(
        failure_of(failed),
        (ErrorKind::Import, None, "SearXNG request failed: dns error".to_string())
    );
}

#[test]
fn import_fails_on_a_status_that_is_no_success() {
    let failed = step(fallback(false), Event::WebStatus(HttpStatus::new(503).unwrap()));
    assert_eq!(
        failure_of(failed),
        (ErrorKind::Import, None, "SearXNG returned status: 503 Service Unavailable".to_string())
    );
    let failed = step(fallback(false), Event::WebStatus(HttpStatus::new(301).unwrap()));
    assert_eq!(
        failure_of(failed),
        (ErrorKind::Import, None, "SearXNG returned status: 301 Moved Permanently".to_string())
    );
}

#[test]
fn import_fails_when_the_answer_cannot_be_read() {
    let failed = step(fallback(true), Event::WebFailed("expected value at line 1".to_string()));
    assert_eq!(
        failure_of(failed),
        (
            ErrorKind::Import,
            None,
            "Failed to parse SearXNG response: expected value at line 1".to_string()
        )
    );
}

#[test]
fn import_fails_when_an_attribute_set_is_refused() {
    let cases = [
        (AttributeSet::Searchable, "Failed to set searchable attributes: no"),
        (AttributeSet::Filterable, "Failed to set filterable attributes: no"),
        (AttributeSet::Sortable, "Failed to set sortable attributes: no"),
    ];
    for (set, message) in cases {
        let phase = Phase::Configuring { set, query: "q".to_string(), documents: Vec::new() };
        let failed = step(phase, Event::EngineFailed("no".to_string()));
        assert_eq!(
            failure_of(failed),
            (ErrorKind::Import, Some(ErrorKind::Configuration), message.to_string())
        );
    }
}

#[test]
fn import_fails_when_the_write_fails() {
    let phase = Phase::Writing { query: "q".to_string(), count: 2 };
    let failed = step(phase, Event::EngineFailed("payload too large".to_string()));
    assert_eq!(
        failure_of(failed),
        (ErrorKind::Import, None, "Failed to index web results: payload too large".to_string())
    );
}

#[test]
fn import_fails_when_the_wait_fails() {
    let phase = Phase::Settling { query: "q".to_string(), count: 2 };
    let failed = step(phase, Event::EngineFailed("task failed".to_string()));
    assert_eq!(
        failure_of(failed),
        (ErrorKind::Import, None, "Failed waiting for web indexing: task failed".to_string())
    );
}

#[test]
fn import_fails_when_reading_back_fails() {
    let failed = step(Phase::ReadingBack, Event::EngineFailed("timeout".to_string()));
    assert_eq!(
        failure_of(failed),
        (ErrorKind::Import, Some(ErrorKind::Query), "Search failed: timeout".to_string())
    );
}

#[test]
fn configuration_failure_outside_an_import_has_its_own_kind() {
    let error = configuration_failure(AttributeSet::Filterable, "denied");
    assert_eq!(error.kind, ErrorKind::Configuration);
    assert_eq!(error.cause, None);
    assert_eq!(error.message, "Failed to set filterable attributes: denied");
}

#[test]
fn the_wait_after_a_write_has_the_grace_time() {
    assert_eq!(INDEXING_GRACE_MS, 500);
    let phase = Phase::Writing { query: "q".to_string(), count: 1 };
    let waiting = step(phase, Event::EngineDone);
    assert_eq!(waiting.phase, Phase::Settling { query: "q".to_string(), count: 1 });
    assert_eq!(waiting.action, Action::AwaitIndexing { grace_ms: 500 });
}

#[test]
fn reading_back_asks_the_web_index_for_what_was_written() {
    let phase = Phase::Settling { query: "quantum".to_string(), count: 7 };
    let reading = step(phase, Event::EngineDone);
    assert_eq!(reading.phase, Phase::ReadingBack);
    assert_eq!(
        reading.action,
        Action::Search(IndexQuery {
            domain: Domain::Web,
            query: "quantum".to_string(),
            filter: None,
            sort: None,
            offset: 0,
            limit: 7,
            show_ranking_score: true,
        })
    );
}

#[test]
fn read_back_is_unfiltered_and_from_the_start() {
    let query = read_back("q".to_string(), 4);
    assert_eq!(query.domain, Domain::Web);
    assert_eq!(query.query, "q");
    assert_eq!(query.filter, None);
    assert_eq!(query.sort, None);
    assert_eq!(query.offset, 0);
    assert_eq!(query.limit, 4);
    assert!(query.show_ranking_score);
}

#[test]
fn events_that_a_phase_does_not_wait_for_are_ignored() {
    let cases: Vec<(Phase, Event)> = vec![
        (Phase::Idle, Event::EngineDone),
        (Phase::Idle, Event::WebStatus(ok_status())),
        (Phase::Querying { page: 2 }, Event::EngineDone),
        (Phase::Querying { page: 2 }, Event::ImportRequested("q".to_string())),
        (fallback(false), Event::WebResults(vec![finding(1)])),
        (fallback(true), Event::WebStatus(ok_status())),
        (fallback(true), Event::EngineDone),
        (Phase::Writing { query: "q".to_string(), count: 1 }, Event::WebFailed("x".to_string())),
        (Phase::ReadingBack, Event::EngineDone),
        (Phase::Delivered(deliver_nothing()), Event::SearchRequested(request("movies", Some(1)))),
        (Phase::Delivered(deliver_nothing()), Event::EngineFailed("late".to_string())),
        (
            Phase::Failed(configuration_failure(AttributeSet::Sortable, "x")),
            Event::Page(RawPage {
                documents: Documents::Web(Vec::new()),
                estimated_total_hits: None,
                processing_time_ms: 0,
            }),
        ),
    ];
    for (phase, event) in cases {
        let before = phase.clone();
        let after = step(phase, event);
        assert_eq!(after.action, Action::Ignore);
        assert_eq!(after.phase, before);
    }
}

#[test]
fn attributes_of_each_set_and_domain() {
    assert_eq!(
        attributes(Domain::Movies, AttributeSet::Searchable),
        vec!["title", "title_en", "description", "director", "genres"]
    );
    assert_eq!(
        attributes(Domain::Books, AttributeSet::Searchable),
        vec!["title", "title_en", "description", "author", "genres"]
    );
    assert_eq!(
        attributes(Domain::Web, AttributeSet::Searchable),
        vec!["title", "description", "url", "source_engine"]
    );
    for domain in [Domain::Movies, Domain::Books, Domain::Web] {
        assert_eq!(
            attributes(domain, AttributeSet::Filterable),
            vec!["genres", "year", "rating", "language"]
        );
        assert_eq!(attributes(domain, AttributeSet::Sortable), vec!["year", "rating", "title"]);
    }
}
