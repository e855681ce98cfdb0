//! Queries for the index engine and the responses made of its answers: the
//! compilation of a request into a paged query, and the delivery of a page of
//! documents as a response.

use crate::filter::{build_filter, filter_expression};
use crate::model::{
    Domain, SearchRequest, SearchRequestView, SearchResponse, SearchResponseView,
};
use crate::normalize::{
    lemma_normalize_keeps_order, normalize, normalized, Documents, DocumentsView,
};
use crate::pagination::{
    offset_of, page_count, page_in_reach, page_offset, total_pages, HITS_PER_PAGE,
};
use vstd::prelude::*;
use vstd::string::*;

verus! {

/// A paged, filtered, sorted full-text query for the index engine.
#[derive(Clone, Debug, PartialEq, Eq)]
pub struct IndexQuery {
    pub domain: Domain,
    pub query: String,
    pub filter: Option<String>,
    pub sort: Option<String>,
    pub offset: usize,
    pub limit: usize,
    pub show_ranking_score: bool,
}

/// The mathematical content of an [`IndexQuery`].
pub struct IndexQueryView {
    pub domain: Domain,
    pub query: Seq<char>,
    pub filter: Option<Seq<char>>,
    pub sort: Option<Seq<char>>,
    pub offset: usize,
    pub limit: usize,
    pub show_ranking_score: bool,
}

impl View for IndexQuery {
    type V = IndexQueryView;

    open spec fn view(&self) -> IndexQueryView {
        IndexQueryView {
            domain: self.domain,
            query: self.query@,
            filter: self.filter.deep_view(),
            sort: self.sort.deep_view(),
            offset: self.offset,
            limit: self.limit,
            show_ranking_score: self.show_ranking_score,
        }
    }
}

impl DeepView for IndexQuery {
    type V = IndexQueryView;

    open spec fn deep_view(&self) -> IndexQueryView {
        self@
    }
}

/// What the index engine answers to a query: one page of documents in
/// ranking order, its estimate of the number of matches, and its time.
#[derive(Clone, Debug, PartialEq, Eq)]
pub struct RawPage {
    pub documents: Documents,
    pub estimated_total_hits: Option<usize>,
    pub processing_time_ms: usize,
}

/// The mathematical content of a [`RawPage`].
pub struct RawPageView {
    pub documents: DocumentsView,
    pub estimated_total_hits: Option<usize>,
    pub processing_time_ms: usize,
}

impl View for RawPage {
    type V = RawPageView;

    open spec fn view(&self) -> RawPageView {
        RawPageView {
            documents: self.documents@,
            estimated_total_hits: self.estimated_total_hits,
            processing_time_ms: self.processing_time_ms,
        }
    }
}

impl DeepView for RawPage {
    type V = RawPageView;

    open spec fn deep_view(&self) -> RawPageView {
        self@
    }
}

/// The page that a request asks for: the first where it names none.
pub open spec fn requested_page(request: SearchRequestView) -> usize {
    match request.page {
        Some(page) => page,
        None => 1,
    }
}

/// The query that a request is compiled to for `domain`: its text and sort
/// order as they are, its selections as a filter expression, one page of
/// hits at the page's offset, with ranking scores shown.
pub open spec fn planned_query(domain: Domain, request: SearchRequestView) -> IndexQueryView {
    IndexQueryView {
        domain,
        query: request.query,
        filter: filter_expression(
            request.genres,
            request.year_min,
            request.year_max,
            request.rating_min,
        ),
        sort: request.sort,
        offset: offset_of(requested_page(request) as int) as usize,
        limit: HITS_PER_PAGE,
        show_ranking_score: true,
    }
}

/// The number of matches that the engine estimates, none counting as zero.
pub open spec fn estimated_total(raw: RawPageView) -> usize {
    match raw.estimated_total_hits {
        Some(total) => total,
        None => 0,
    }
}

/// The response to a search for page `page` that the engine answered with
/// `raw`: the normalized hits, the engine's estimate and time, the page as it
/// was asked for, and the page count of the estimate.
pub open spec fn delivered_page(page: usize, raw: RawPageView) -> SearchResponseView {
    SearchResponseView {
        hits: normalized(raw.documents),
        total_hits: estimated_total(raw),
        page,
        total_pages: page_count(estimated_total(raw) as int) as usize,
        processing_time_ms: raw.processing_time_ms,
    }
}

/// The response to an import for which the web had no results.
pub open spec fn empty_import() -> SearchResponseView {
    SearchResponseView {
        hits: Seq::empty(),
        total_hits: 0,
        page: 1,
        total_pages: 0,
        processing_time_ms: 0,
    }
}

/// The response to an import whose documents the web index answered with
/// `raw`: all hits on a single page, with no time reported.
pub open spec fn delivered_import(raw: RawPageView) -> SearchResponseView {
    SearchResponseView {
        hits: normalized(raw.documents),
        total_hits: raw.documents.len() as usize,
        page: 1,
        total_pages: 1,
        processing_time_ms: 0,
    }
}

/// The query that reads imported documents back from the web index: the
/// import's query, unfiltered, from the start, for as many hits as documents
/// were written.
pub open spec fn read_back_query(query: Seq<char>, count: usize) -> IndexQueryView {
    IndexQueryView {
        domain: Domain::Web,
        query,
        filter: None,
        sort: None,
        offset: 0,
        limit: count,
        show_ranking_score: true,
    }
}

/// Compiles a request into the query for `domain`.
pub fn plan_search(domain: Domain, request: SearchRequest) -> (query: IndexQuery)
    requires
        page_in_reach(requested_page(request@)),
    ensures
        query@ == planned_query(domain, request@),
{
    let page: usize = match request.page {
        Some(page) => page,
        None => 1,
    };
    let filter = build_filter(
        &request.genres,
        request.year_min,
        request.year_max,
        request.rating_min,
    );
    IndexQuery {
        domain,
        query: request.query,
        filter,
        sort: request.sort,
        offset: page_offset(page),
        limit: HITS_PER_PAGE,
        show_ranking_score: true,
    }
}

/// Builds the response to a search for page `page` from the engine's answer.
pub fn deliver_page(page: usize, raw: RawPage) -> (response: SearchResponse)
    ensures
        response@ == delivered_page(page, raw@),
{
    let total_hits: usize = match raw.estimated_total_hits {
        Some(total) => total,
        None => 0,
    };
    SearchResponse {
        hits: normalize(raw.documents),
        total_hits,
        page,
        total_pages: total_pages(total_hits),
        processing_time_ms: raw.processing_time_ms,
    }
}

/// Builds the response to an import from what the web index answered.
pub fn deliver_import(raw: RawPage) -> (response: SearchResponse)
    ensures
        response@ == delivered_import(raw@),
{
    proof {
        lemma_normalize_keeps_order(raw.documents@);
    }
    let hits = normalize(raw.documents);
    let total_hits: usize = hits.len();
    SearchResponse { hits, total_hits, page: 1, total_pages: 1, processing_time_ms: 0 }
}

/// Builds the response to an import for which the web had no results.
pub fn deliver_nothing() -> (response: SearchResponse)
    ensures
        response@ == empty_import(),
{
    let response = SearchResponse {
        hits: Vec::new(),
        total_hits: 0,
        page: 1,
        total_pages: 0,
        processing_time_ms: 0,
    };
    assert(response@.hits =~= Seq::empty());
    response
}

/// Builds the query that reads imported documents back from the web index.
pub fn read_back(query: String, count: usize) -> (read: IndexQuery)
    ensures
        read@ == read_back_query(query@, count),
{
    IndexQuery {
        domain: Domain::Web,
        query,
        filter: None,
        sort: None,
        offset: 0,
        limit: count,
        show_ranking_score: true,
    }
}

/// An import that was read back has one hit for each document that the web
/// index returned, on page 1 of 1.
pub proof fn lemma_delivered_import_counts(raw: RawPageView)
    ensures
        delivered_import(raw).page == 1,
        delivered_import(raw).total_pages == 1,
        delivered_import(raw).hits.len() == raw.documents.len(),
{
    lemma_normalize_keeps_order(raw.documents);
}

/// A delivered search echoes the page that was asked for, in range or not,
/// reports the engine's estimate, counts the pages of that estimate, and has
/// one hit for each document of the engine's page.
pub proof fn lemma_delivered_page_counts(page: usize, raw: RawPageView)
    ensures
        delivered_page(page, raw).page == page,
        delivered_page(page, raw).total_hits == estimated_total(raw),
        delivered_page(page, raw).total_pages == page_count(estimated_total(raw) as int),
        delivered_page(page, raw).hits.len() == raw.documents.len(),
{
    lemma_normalize_keeps_order(raw.documents);
    let total = estimated_total(raw) as int;
    assert(0 <= page_count(total) <= usize::MAX);
}

} // verus!
