//! The data model: domains, ratings, the three document shapes, the unified
//! hit, requests and responses, each with its mathematical view.

use crate::text::same_text;
use vstd::prelude::*;
use vstd::string::*;

verus! {

/// One of the three document collections that the index engine manages.
#[derive(Clone, Copy, Debug, PartialEq, Eq, Structural)]
pub enum Domain {
    Movies,
    Books,
    Web,
}

/// The name under which the index engine knows a domain's collection.
pub open spec fn index_name(domain: Domain) -> Seq<char> {
    match domain {
        Domain::Movies => "movies"@,
        Domain::Books => "books"@,
        Domain::Web => "web"@,
    }
}

/// The domain that a collection name denotes, if any.
pub open spec fn domain_named(name: Seq<char>) -> Option<Domain> {
    if name == index_name(Domain::Movies) {
        Some(Domain::Movies)
    } else if name == index_name(Domain::Books) {
        Some(Domain::Books)
    } else if name == index_name(Domain::Web) {
        Some(Domain::Web)
    } else {
        None
    }
}

impl Domain {
    /// The collection name of this domain.
    pub fn name(self) -> (name: &'static str)
        ensures
            name@ == index_name(self),
    {
        match self {
            Domain::Movies => "movies",
            Domain::Books => "books",
            Domain::Web => "web",
        }
    }

    /// Resolves a collection name; `None` for a name that denotes no domain.
    pub fn parse(name: &str) -> (domain: Option<Domain>)
        ensures
            domain == domain_named(name@),
    {
        if same_text(name, "movies") {
            Some(Domain::Movies)
        } else if same_text(name, "books") {
            Some(Domain::Books)
        } else if same_text(name, "web") {
            Some(Domain::Web)
        } else {
            None
        }
    }
}

/// Every domain is found again under its own name: no two domains share one.
pub proof fn lemma_domain_names_distinct(domain: Domain)
    ensures
        domain_named(index_name(domain)) == Some(domain),
{
    reveal_strlit("movies");
    reveal_strlit("books");
    reveal_strlit("web");
    assert("books"@.len() == 5);
    assert("web"@.len() == 3);
}

/// A rating as a fixed-point number: thousandths of a rating point.
#[derive(Clone, Copy, Debug, PartialEq, Eq, Structural)]
pub struct Rating {
    pub millis: i64,
}

impl Rating {
    /// The rating of unrated content.
    pub fn zero() -> (rating: Rating)
        ensures
            rating.millis == 0,
    {
        Rating { millis: 0 }
    }
}

/// A movie as the index engine stores it.
#[derive(Clone, Debug, PartialEq, Eq)]
pub struct Movie {
    pub id: i64,
    pub title: String,
    pub title_en: Option<String>,
    pub description: String,
    pub director: String,
    pub year: i32,
    pub genres: Vec<String>,
    pub rating: Rating,
    pub poster_url: Option<String>,
    pub language: String,
}

/// The mathematical content of a [`Movie`].
pub struct MovieView {
    pub id: i64,
    pub title: Seq<char>,
    pub title_en: Option<Seq<char>>,
    pub description: Seq<char>,
    pub director: Seq<char>,
    pub year: i32,
    pub genres: Seq<Seq<char>>,
    pub rating: Rating,
    pub poster_url: Option<Seq<char>>,
    pub language: Seq<char>,
}

impl View for Movie {
    type V = MovieView;

    open spec fn view(&self) -> MovieView {
        MovieView {
            id: self.id,
            title: self.title@,
            title_en: self.title_en.deep_view(),
            description: self.description@,
            director: self.director@,
            year: self.year,
            genres: self.genres.deep_view(),
            rating: self.rating,
            poster_url: self.poster_url.deep_view(),
            language: self.language@,
        }
    }
}

impl DeepView for Movie {
    type V = MovieView;

    open spec fn deep_view(&self) -> MovieView {
        self@
    }
}

/// A book as the index engine stores it.
#[derive(Clone, Debug, PartialEq, Eq)]
pub struct Book {
    pub id: i64,
    pub title: String,
    pub title_en: Option<String>,
    pub description: String,
    pub author: String,
    pub year: i32,
    pub genres: Vec<String>,
    pub rating: Rating,
    pub cover_url: Option<String>,
    pub language: String,
    pub pages: Option<i32>,
}

/// The mathematical content of a [`Book`].
pub struct BookView {
    pub id: i64,
    pub title: Seq<char>,
    pub title_en: Option<Seq<char>>,
    pub description: Seq<char>,
    pub author: Seq<char>,
    pub year: i32,
    pub genres: Seq<Seq<char>>,
    pub rating: Rating,
    pub cover_url: Option<Seq<char>>,
    pub language: Seq<char>,
    pub pages: Option<i32>,
}

impl View for Book {
    type V = BookView;

    open spec fn view(&self) -> BookView {
        BookView {
            id: self.id,
            title: self.title@,
            title_en: self.title_en.deep_view(),
            description: self.description@,
            author: self.author@,
            year: self.year,
            genres: self.genres.deep_view(),
            rating: self.rating,
            cover_url: self.cover_url.deep_view(),
            language: self.language@,
            pages: self.pages,
        }
    }
}

impl DeepView for Book {
    type V = BookView;

    open spec fn deep_view(&self) -> BookView {
        self@
    }
}

/// A page found by the web metasearch, as the index engine stores it.
#[derive(Clone, Debug, PartialEq, Eq)]
pub struct WebResult {
    pub id: i64,
    pub title: String,
    pub title_en: Option<String>,
    pub description: String,
    pub url: String,
    pub source_engine: Option<String>,
    pub year: i32,
    pub genres: Vec<String>,
    pub rating: Rating,
    pub image_url: Option<String>,
    pub language: String,
    pub published_date: Option<String>,
}

/// The mathematical content of a [`WebResult`].
pub struct WebResultView {
    pub id: i64,
    pub title: Seq<char>,
    pub title_en: Option<Seq<char>>,
    pub description: Seq<char>,
    pub url: Seq<char>,
    pub source_engine: Option<Seq<char>>,
    pub year: i32,
    pub genres: Seq<Seq<char>>,
    pub rating: Rating,
    pub image_url: Option<Seq<char>>,
    pub language: Seq<char>,
    pub published_date: Option<Seq<char>>,
}

impl View for WebResult {
    type V = WebResultView;

    open spec fn view(&self) -> WebResultView {
        WebResultView {
            id: self.id,
            title: self.title@,
            title_en: self.title_en.deep_view(),
            description: self.description@,
            url: self.url@,
            source_engine: self.source_engine.deep_view(),
            year: self.year,
            genres: self.genres.deep_view(),
            rating: self.rating,
            image_url: self.image_url.deep_view(),
            language: self.language@,
            published_date: self.published_date.deep_view(),
        }
    }
}

impl DeepView for WebResult {
    type V = WebResultView;

    open spec fn deep_view(&self) -> WebResultView {
        self@
    }
}

/// The unified result shape that every domain's documents are projected to.
#[derive(Clone, Debug, PartialEq, Eq)]
pub struct SearchHit {
    pub id: i64,
    pub title: String,
    pub title_en: Option<String>,
    pub description: String,
    pub creator: String,
    pub year: i32,
    pub genres: Vec<String>,
    pub rating: Rating,
    pub image_url: Option<String>,
    pub language: String,
    pub domain: Domain,
}

/// The mathematical content of a [`SearchHit`].
pub struct SearchHitView {
    pub id: i64,
    pub title: Seq<char>,
    pub title_en: Option<Seq<char>>,
    pub description: Seq<char>,
    pub creator: Seq<char>,
    pub year: i32,
    pub genres: Seq<Seq<char>>,
    pub rating: Rating,
    pub image_url: Option<Seq<char>>,
    pub language: Seq<char>,
    pub domain: Domain,
}

impl View for SearchHit {
    type V = SearchHitView;

    open spec fn view(&self) -> SearchHitView {
        SearchHitView {
            id: self.id,
            title: self.title@,
            title_en: self.title_en.deep_view(),
            description: self.description@,
            creator: self.creator@,
            year: self.year,
            genres: self.genres.deep_view(),
            rating: self.rating,
            image_url: self.image_url.deep_view(),
            language: self.language@,
            domain: self.domain,
        }
    }
}

impl DeepView for SearchHit {
    type V = SearchHitView;

    open spec fn deep_view(&self) -> SearchHitView {
        self@
    }
}

/// A snapshot of the query text and the facet selections of one request.
#[derive(Clone, Debug, PartialEq, Eq)]
pub struct SearchRequest {
    pub query: String,
    pub index: String,
    pub genres: Vec<String>,
    pub year_min: Option<i32>,
    pub year_max: Option<i32>,
    pub rating_min: Option<Rating>,
    pub page: Option<usize>,
    pub sort: Option<String>,
}

/// The mathematical content of a [`SearchRequest`].
pub struct SearchRequestView {
    pub query: Seq<char>,
    pub index: Seq<char>,
    pub genres: Seq<Seq<char>>,
    pub year_min: Option<i32>,
    pub year_max: Option<i32>,
    pub rating_min: Option<Rating>,
    pub page: Option<usize>,
    pub sort: Option<Seq<char>>,
}

impl View for SearchRequest {
    type V = SearchRequestView;

    open spec fn view(&self) -> SearchRequestView {
        SearchRequestView {
            query: self.query@,
            index: self.index@,
            genres: self.genres.deep_view(),
            year_min: self.year_min,
            year_max: self.year_max,
            rating_min: self.rating_min,
            page: self.page,
            sort: self.sort.deep_view(),
        }
    }
}

impl DeepView for SearchRequest {
    type V = SearchRequestView;

    open spec fn deep_view(&self) -> SearchRequestView {
        self@
    }
}

/// One page of unified hits with the counts that describe the whole result.
#[derive(Clone, Debug, PartialEq, Eq)]
pub struct SearchResponse {
    pub hits: Vec<SearchHit>,
    pub total_hits: usize,
    pub page: usize,
    pub total_pages: usize,
    pub processing_time_ms: usize,
}

/// The mathematical content of a [`SearchResponse`].
pub struct SearchResponseView {
    pub hits: Seq<SearchHitView>,
    pub total_hits: usize,
    pub page: usize,
    pub total_pages: usize,
    pub processing_time_ms: usize,
}

impl View for SearchResponse {
    type V = SearchResponseView;

    open spec fn view(&self) -> SearchResponseView {
        SearchResponseView {
            hits: self.hits.deep_view(),
            total_hits: self.total_hits,
            page: self.page,
            total_pages: self.total_pages,
            processing_time_ms: self.processing_time_ms,
        }
    }
}

impl DeepView for SearchResponse {
    type V = SearchResponseView;

    open spec fn deep_view(&self) -> SearchResponseView {
        self@
    }
}

/// One value of a facet dimension with the number of documents that carry it.
#[derive(Clone, Debug, PartialEq, Eq)]
pub struct FacetValue {
    pub value: String,
    pub count: usize,
}

/// The mathematical content of a [`FacetValue`].
pub struct FacetValueView {
    pub value: Seq<char>,
    pub count: usize,
}

impl View for FacetValue {
    type V = FacetValueView;

    open spec fn view(&self) -> FacetValueView {
        FacetValueView { value: self.value@, count: self.count }
    }
}

impl DeepView for FacetValue {
    type V = FacetValueView;

    open spec fn deep_view(&self) -> FacetValueView {
        self@
    }
}

/// The facet distribution of one domain, reshaped for display.
#[derive(Clone, Debug, PartialEq, Eq)]
pub struct FacetInfo {
    pub genres: Vec<FacetValue>,
    pub years: Vec<FacetValue>,
    pub languages: Vec<FacetValue>,
}

/// The mathematical content of a [`FacetInfo`].
pub struct FacetInfoView {
    pub genres: Seq<FacetValueView>,
    pub years: Seq<FacetValueView>,
    pub languages: Seq<FacetValueView>,
}

impl View for FacetInfo {
    type V = FacetInfoView;

    open spec fn view(&self) -> FacetInfoView {
        FacetInfoView {
            genres: self.genres.deep_view(),
            years: self.years.deep_view(),
            languages: self.languages.deep_view(),
        }
    }
}

impl DeepView for FacetInfo {
    type V = FacetInfoView;

    open spec fn deep_view(&self) -> FacetInfoView {
        self@
    }
}

impl Default for FacetInfo {
    fn default() -> (info: FacetInfo)
        ensures
            info@.genres == Seq::<FacetValueView>::empty(),
            info@.years == Seq::<FacetValueView>::empty(),
            info@.languages == Seq::<FacetValueView>::empty(),
    {
        let info = FacetInfo { genres: Vec::new(), years: Vec::new(), languages: Vec::new() };
        info
    }
}

} // verus!
