use faceted_search::card::{
    creator_line, detail_path, shorten_description, shows_rating, DESCRIPTION_LIMIT,
};
use faceted_search::error::{document_not_found, ErrorKind, SearchError};
use faceted_search::model::{Domain, Rating, SearchHit, SearchRequest, SearchResponse};
use faceted_search::schema::{filterable, primary_key_name, searchable, sortable};
use faceted_search::selection::{
    chosen_sort, is_blank, offers_web_import, toggle_genre, QUERY_QUIESCENCE_MS,
};

fn hit(domain: Domain, millis: i64) -> SearchHit {
    SearchHit {
        id: 42,
        title: "Title".to_string(),
        title_en: None,
        description: "Description".to_string(),
        creator: "Creator".to_string(),
        year: 1988,
        genres: Vec::new(),
        rating: Rating { millis },
        image_url: None,
        language: "ja".to_string(),
        domain,
    }
}

fn blank_request() -> SearchRequest {
    SearchRequest {
        query: String::new(),
        index: "movies".to_string(),
        genres: Vec::new(),
        year_min: None,
        year_max: None,
        rating_min: None,
        page: Some(4),
        sort: Some("year:asc".to_string()),
    }
}

fn response_with(hits: Vec<SearchHit>) -> SearchResponse {
    let total_hits = hits.len();
    SearchResponse { hits, total_hits, page: 1, total_pages: 1, processing_time_ms: 1 }
}

#[test]
fn domains_have_their_collection_names() {
    assert_eq!(Domain::Movies.name(), "movies");
    assert_eq!(Domain::Books.name(), "books");
    assert_eq!(Domain::Web.name(), "web");
}

#[test]
fn domain_names_are_resolved_exactly() {
    assert_eq!(Domain::parse("movies"), Some(Domain::Movies));
    assert_eq!(Domain::parse("books"), Some(Domain::Books));
    assert_eq!(Domain::parse("web"), Some(Domain::Web));
    assert_eq!(Domain::parse("Movies"), None);
    assert_eq!(Domain::parse("movie"), None);
    assert_eq!(Domain::parse(""), None);
    for domain in [Domain::Movies, Domain::Books, Domain::Web] {
        assert_eq!(Domain::parse(domain.name()), Some(domain));
    }
}

#[test]
fn rating_zero_is_zero() {
    assert_eq!(Rating::zero(), Rating { millis: 0 });
}

#[test]
fn schema_lists_the_attribute_sets() {
    assert_eq!(searchable(Domain::Web), vec!["title", "description", "url", "source_engine"]);
    assert_eq!(filterable(), vec!["genres", "year", "rating", "language"]);
    assert_eq!(sortable(), vec!["year", "rating", "title"]);
    assert_eq!(primary_key_name(), "id");
}

#[test]
fn error_message_is_context_and_detail() {
    let error = SearchError::new(ErrorKind::Import, Some(ErrorKind::Query), "While x: ", "y");
    assert_eq!(error.kind, ErrorKind::Import);
    assert_eq!(error.cause, Some(ErrorKind::Query));
    assert_eq!(error.message, "While x: y");
}

#[test]
fn document_not_found_names_the_domain() {
    let cases = [
        (Domain::Movies, "Movie not found: gone"),
        (Domain::Books, "Book not found: gone"),
        (Domain::Web, "Web result not found: gone"),
    ];
    for (domain, message) in cases {
        let error = document_not_found(domain, "gone");
        assert_eq!(error.kind, ErrorKind::DocumentNotFound);
        assert_eq!(error.cause, None);
        assert_eq!(error.message, message);
    }
}

#[test]
fn toggle_adds_a_genre_that_is_not_selected() {
    let selected = vec!["Drama".to_string(), "Action".to_string()];
    assert_eq!(
        toggle_genre(&selected, "Anime"),
        vec!["Drama".to_string(), "Action".to_string(), "Anime".to_string()]
    );
    assert_eq!(toggle_genre(&Vec::new(), "Anime"), vec!["Anime".to_string()]);
}

#[test]
fn toggle_removes_a_genre_that_is_selected() {
    let selected = vec!["Drama".to_string(), "Action".to_string(), "Anime".to_string()];
    assert_eq!(toggle_genre(&selected, "Action"), vec!["Drama".to_string(), "Anime".to_string()]);
    let twice = vec!["a".to_string(), "b".to_string(), "a".to_string()];
    assert_eq!(toggle_genre(&twice, "a"), vec!["b".to_string()]);
    assert!(toggle_genre(&vec!["only".to_string()], "only").is_empty());
}

#[test]
fn toggle_twice_gives_the_selection_back() {
    let selected = vec!["Drama".to_string(), "Action".to_string()];
    assert_eq!(toggle_genre(&toggle_genre(&selected, "Anime"), "Anime"), selected);
}

#[test]
fn query_rests_for_300_milliseconds() {
    assert_eq!(QUERY_QUIESCENCE_MS, 300);
}

#[test]
fn empty_sort_choice_means_the_engine_ranking() {
    assert_eq!(chosen_sort(String::new()), None);
    assert_eq!(chosen_sort("year:desc".to_string()), Some("year:desc".to_string()));
    assert_eq!(chosen_sort("anything".to_string()), Some("anything".to_string()));
}

#[test]
fn blank_request_has_no_query_and_no_selection() {
    assert!(is_blank(&blank_request()));
    let mut with_query = blank_request();
    with_query.query = "a".to_string();
    assert!(!is_blank(&with_query));
    let mut with_genre = blank_request();
    with_genre.genres = vec!["Drama".to_string()];
    assert!(!is_blank(&with_genre));
    let mut with_year = blank_request();
    with_year.year_min = Some(2000);
    assert!(!is_blank(&with_year));
    let mut with_last_year = blank_request();
    with_last_year.year_max = Some(2000);
    assert!(!is_blank(&with_last_year));
    let mut with_rating = blank_request();
    with_rating.rating_min = Some(Rating { millis: 500 });
    assert!(!is_blank(&with_rating));
}

#[test]
fn web_import_is_offered_after_an_empty_local_search() {
    let nothing = response_with(Vec::new());
    let something = response_with(vec![hit(Domain::Movies, 8000)]);
    assert!(offers_web_import(Domain::Movies, &nothing, "quantum"));
    assert!(offers_web_import(Domain::Books, &nothing, "quantum"));
    assert!(!offers_web_import(Domain::Web, &nothing, "quantum"));
    assert!(!offers_web_import(Domain::Movies, &nothing, ""));
    assert!(!offers_web_import(Domain::Movies, &something, "quantum"));
}

#[test]
fn detail_path_depends_on_the_domain() {
    assert_eq!(detail_path(Domain::Movies, 42), "/movie/42");
    assert_eq!(detail_path(Domain::Books, 7), "/book/7");
    assert_eq!(detail_path(Domain::Web, 9007199254740993), "/web/9007199254740993");
    assert_eq!(detail_path(Domain::Web, 0), "/web/0");
    assert_eq!(detail_path(Domain::Movies, -3), "/movie/-3");
}

#[test]
fn creator_line_has_the_year_except_for_web_pages() {
    assert_eq!(creator_line(&hit(Domain::Movies, 0)), "Creator (1988)");
    assert_eq!(creator_line(&hit(Domain::Books, 0)), "Creator (1988)");
    assert_eq!(creator_line(&hit(Domain::Web, 0)), "Creator");
}

#[test]
fn rating_of_a_web_page_is_shown_only_above_zero() {
    assert!(shows_rating(&hit(Domain::Movies, 0)));
    assert!(shows_rating(&hit(Domain::Books, 0)));
    assert!(!shows_rating(&hit(Domain::Web, 0)));
    assert!(shows_rating(&hit(Domain::Web, 1)));
}

#[test]
fn description_is_shortened_past_the_limit() {
    assert_eq!(DESCRIPTION_LIMIT, 120);
    let exact = "x".repeat(120);
    assert_eq!(shorten_description(&exact), exact);
    let longer = "y".repeat(121);
    assert_eq!(shorten_description(&longer), format!("{}...", "y".repeat(120)));
    assert_eq!(shorten_description(""), "");
    let wide = "語".repeat(130);
    assert_eq!(shorten_description(&wide), format!("{}...", "語".repeat(120)));
}
