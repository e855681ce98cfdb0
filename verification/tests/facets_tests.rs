use faceted_search::error::ErrorKind;
use faceted_search::facets::{
    facet_failure, facet_query, parse_facets, plan_facets, FacetDimension,
};
use faceted_search::model::{Domain, FacetInfo, FacetValue};

fn value(value: &str, count: usize) -> FacetValue {
    FacetValue { value: value.to_string(), count }
}

fn dimension(name: &str, entries: Vec<FacetValue>) -> FacetDimension {
    FacetDimension { name: name.to_string(), entries }
}

#[test]
fn facet_query_asks_for_three_dimensions_and_no_hits() {
    for domain in [Domain::Movies, Domain::Books, Domain::Web] {
        let query = facet_query(domain);
        assert_eq!(query.domain, domain);
        assert_eq!(query.query, "");
        assert_eq!(query.limit, 0);
        assert_eq!(query.dimensions, vec!["genres", "year", "language"]);
    }
}

#[test]
fn plan_facets_resolves_the_collection_name() {
    assert_eq!(plan_facets("movies").unwrap().domain, Domain::Movies);
    assert_eq!(plan_facets("books").unwrap().domain, Domain::Books);
    assert_eq!(plan_facets("web").unwrap().domain, Domain::Web);
}

#[test]
fn plan_facets_fails_for_an_unknown_collection() {
    let error = plan_facets("music").unwrap_err();
    assert_eq!(error.kind, ErrorKind::Query);
    assert_eq!(error.cause, None);
    assert_eq!(error.message, "Facet query failed: unknown index music");
}

#[test]
fn facet_failure_carries_the_engine_words() {
    let error = facet_failure("connection refused");
    assert_eq!(error.kind, ErrorKind::Query);
    assert_eq!(error.message, "Facet query failed: connection refused");
}

#[test]
fn parse_facets_reshapes_each_dimension() {
    let info = parse_facets(Some(vec![
        dimension("language", vec![value("ja", 9), value("en", 5)]),
        dimension("genres", vec![value("Drama", 4), value("Action", 7), value("Anime", 3)]),
        dimension("year", vec![value("1954", 1), value("2001", 2)]),
    ]));
    assert_eq!(info.genres, vec![value("Drama", 4), value("Action", 7), value("Anime", 3)]);
    assert_eq!(info.years, vec![value("1954", 1), value("2001", 2)]);
    assert_eq!(info.languages, vec![value("ja", 9), value("en", 5)]);
}

#[test]
fn parse_facets_tolerates_a_missing_dimension() {
    let info = parse_facets(Some(vec![dimension("genres", vec![value("Drama", 4)])]));
    assert_eq!(info.genres, vec![value("Drama", 4)]);
    assert!(info.years.is_empty());
    assert!(info.languages.is_empty());
}

#[test]
fn parse_facets_tolerates_a_missing_distribution() {
    let info = parse_facets(None);
    assert!(info.genres.is_empty());
    assert!(info.years.is_empty());
    assert!(info.languages.is_empty());
    assert_eq!(info, FacetInfo::default());
    let info = parse_facets(Some(Vec::new()));
    assert_eq!(info, FacetInfo::default());
}

#[test]
fn parse_facets_passes_over_other_dimensions() {
    let info = parse_facets(Some(vec![
        dimension("rating", vec![value("8.5", 2)]),
        dimension("years", vec![value("1999", 1)]),
        dimension("year", vec![value("2000", 3)]),
    ]));
    assert!(info.genres.is_empty());
    assert_eq!(info.years, vec![value("2000", 3)]);
    assert!(info.languages.is_empty());
}

#[test]
fn parse_facets_takes_the_first_of_two_dimensions_with_one_name() {
    let info = parse_facets(Some(vec![
        dimension("genres", vec![value("first", 1)]),
        dimension("genres", vec![value("second", 2)]),
    ]));
    assert_eq!(info.genres, vec![value("first", 1)]);
}
