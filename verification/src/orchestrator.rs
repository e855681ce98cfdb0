//! The search orchestrator as a state machine.
//!
//! The orchestrator never talks to the index engine or to the metasearch
//! engine itself. Each step takes the phase that a request is in and the
//! event that just happened, and gives the next phase together with the one
//! action that the caller is to perform next. The caller performs the action
//! and reports its outcome as the next event.

use crate::error::{failure, ErrorKind, SearchError, SearchErrorView};
use crate::model::{
    domain_named, Domain, SearchRequest, SearchRequestView, SearchResponse, SearchResponseView,
    WebResult, WebResultView,
};
use crate::pagination::{page_count, page_in_reach};
use crate::query::{
    deliver_import, deliver_nothing, deliver_page, delivered_import, delivered_page,
    empty_import, lemma_delivered_import_counts, lemma_delivered_page_counts,
    plan_search, planned_query, read_back,
    read_back_query, requested_page, IndexQuery, IndexQueryView, RawPage, RawPageView,
};
use crate::schema::{
    filterable, filterable_attributes, primary_key, primary_key_name, searchable,
    searchable_attributes, sortable, sortable_attributes,
};
use crate::web::{
    import_results, imported_page, status_line, HttpStatus, MetasearchResult,
    MetasearchResultView,
};
use vstd::prelude::*;
use vstd::string::*;

verus! {

/// Time in milliseconds that the caller waits for the engine to index
/// imported documents when the engine offers nothing to wait on.
pub const INDEXING_GRACE_MS: u64 = 500;

/// The three attribute sets of an index, in the order in which they are set.
#[derive(Clone, Copy, Debug, PartialEq, Eq, Structural)]
pub enum AttributeSet {
    Searchable,
    Filterable,
    Sortable,
}

/// The phase that a request is in.
#[derive(Clone, Debug, PartialEq, Eq)]
pub enum Phase {
    /// Nothing has been requested yet.
    Idle,
    /// The index engine has been asked for page `page` of a search.
    Querying { page: usize },
    /// A web import has begun: the metasearch engine has been asked, and
    /// `answered` tells whether its status has been seen.
    EmptyFallback { query: String, answered: bool },
    /// Importing: the web index is being configured, attribute set `set` is
    /// under way, and `documents` wait to be written.
    Configuring { set: AttributeSet, query: String, documents: Vec<WebResult> },
    /// Importing: `count` documents have been handed to the engine.
    Writing { query: String, count: usize },
    /// Importing: the engine is given time to index what was written.
    Settling { query: String, count: usize },
    /// Importing: the web index has been asked for what it now holds.
    ReadingBack,
    /// The request has its result.
    Delivered(SearchResponse),
    /// The request has failed; there is no result, not even in part.
    Failed(SearchError),
}

/// The mathematical content of a [`Phase`].
pub enum PhaseView {
    Idle,
    Querying { page: usize },
    EmptyFallback { query: Seq<char>, answered: bool },
    Configuring { set: AttributeSet, query: Seq<char>, documents: Seq<WebResultView> },
    Writing { query: Seq<char>, count: usize },
    Settling { query: Seq<char>, count: usize },
    ReadingBack,
    Delivered(SearchResponseView),
    Failed(SearchErrorView),
}

impl View for Phase {
    type V = PhaseView;

    open spec fn view(&self) -> PhaseView {
        match self {
            Phase::Idle => PhaseView::Idle,
            Phase::Querying { page } => PhaseView::Querying { page: *page },
            Phase::EmptyFallback { query, answered } => PhaseView::EmptyFallback {
                query: query@,
                answered: *answered,
            },
            Phase::Configuring { set, query, documents } => PhaseView::Configuring {
                set: *set,
                query: query@,
                documents: documents.deep_view(),
            },
            Phase::Writing { query, count } => PhaseView::Writing { query: query@, count: *count },
            Phase::Settling { query, count } => PhaseView::Settling {
                query: query@,
                count: *count,
            },
            Phase::ReadingBack => PhaseView::ReadingBack,
            Phase::Delivered(response) => PhaseView::Delivered(response@),
            Phase::Failed(error) => PhaseView::Failed(error@),
        }
    }
}

impl DeepView for Phase {
    type V = PhaseView;

    open spec fn deep_view(&self) -> PhaseView {
        self@
    }
}

/// What can happen to a request: the caller asks for something, or an action
/// that the caller performed has an outcome.
#[derive(Clone, Debug, PartialEq, Eq)]
pub enum Event {
    /// The caller asks for a search.
    SearchRequested(SearchRequest),
    /// The caller asks for a web import with this query.
    ImportRequested(String),
    /// The index engine answered a query.
    Page(RawPage),
    /// The index engine did what it was asked to do.
    EngineDone,
    /// The index engine failed, with its own words.
    EngineFailed(String),
    /// The metasearch engine answered with this status.
    WebStatus(HttpStatus),
    /// The metasearch engine's answer held these results.
    WebResults(Vec<MetasearchResult>),
    /// The metasearch engine could not be reached or its answer could not be
    /// read, with the reason.
    WebFailed(String),
}

/// The mathematical content of an [`Event`].
pub enum EventView {
    SearchRequested(SearchRequestView),
    ImportRequested(Seq<char>),
    Page(RawPageView),
    EngineDone,
    EngineFailed(Seq<char>),
    WebStatus(u16),
    WebResults(Seq<MetasearchResultView>),
    WebFailed(Seq<char>),
}

impl View for Event {
    type V = EventView;

    open spec fn view(&self) -> EventView {
        match self {
            Event::SearchRequested(request) => EventView::SearchRequested(request@),
            Event::ImportRequested(query) => EventView::ImportRequested(query@),
            Event::Page(page) => EventView::Page(page@),
            Event::EngineDone => EventView::EngineDone,
            Event::EngineFailed(detail) => EventView::EngineFailed(detail@),
            Event::WebStatus(status) => EventView::WebStatus(status@),
            Event::WebResults(results) => EventView::WebResults(results.deep_view()),
            Event::WebFailed(detail) => EventView::WebFailed(detail@),
        }
    }
}

impl DeepView for Event {
    type V = EventView;

    open spec fn deep_view(&self) -> EventView {
        self@
    }
}

/// What the caller is to do next.
#[derive(Clone, Debug, PartialEq, Eq)]
pub enum Action {
    /// Send the query to the index engine; report `Page` or `EngineFailed`.
    Search(IndexQuery),
    /// Ask the metasearch engine for this query in JSON; report `WebStatus`
    /// or `WebFailed`.
    AskWeb(String),
    /// Read the results out of the metasearch engine's answer; report
    /// `WebResults` or `WebFailed`.
    ReadWebResults,
    /// Set one attribute set of a domain's index; report `EngineDone` or
    /// `EngineFailed`.
    Configure { domain: Domain, set: AttributeSet, attributes: Vec<&'static str> },
    /// Add or replace the documents in a domain's index, keyed by
    /// `primary_key`; report `EngineDone` or `EngineFailed`.
    Upsert { domain: Domain, documents: Vec<WebResult>, primary_key: &'static str },
    /// Wait until the engine has indexed what was written, or for the grace
    /// time; report `EngineDone` or `EngineFailed`.
    AwaitIndexing { grace_ms: u64 },
    /// Nothing is left to do: the phase holds the result or the failure.
    Finish,
    /// The event does not belong to the phase: nothing has changed, and the
    /// caller goes on with what it was doing.
    Ignore,
}

/// The mathematical content of an [`Action`].
pub enum ActionView {
    Search(IndexQueryView),
    AskWeb(Seq<char>),
    ReadWebResults,
    Configure { domain: Domain, set: AttributeSet, attributes: Seq<Seq<char>> },
    Upsert { domain: Domain, documents: Seq<WebResultView>, primary_key: Seq<char> },
    AwaitIndexing { grace_ms: u64 },
    Finish,
    Ignore,
}

impl View for Action {
    type V = ActionView;

    open spec fn view(&self) -> ActionView {
        match self {
            Action::Search(query) => ActionView::Search(query@),
            Action::AskWeb(query) => ActionView::AskWeb(query@),
            Action::ReadWebResults => ActionView::ReadWebResults,
            Action::Configure { domain, set, attributes } => ActionView::Configure {
                domain: *domain,
                set: *set,
                attributes: attributes.deep_view(),
            },
            Action::Upsert { domain, documents, primary_key } => ActionView::Upsert {
                domain: *domain,
                documents: documents.deep_view(),
                primary_key: primary_key@,
            },
            Action::AwaitIndexing { grace_ms } => ActionView::AwaitIndexing { grace_ms: *grace_ms },
            Action::Finish => ActionView::Finish,
            Action::Ignore => ActionView::Ignore,
        }
    }
}

impl DeepView for Action {
    type V = ActionView;

    open spec fn deep_view(&self) -> ActionView {
        self@
    }
}

/// The outcome of a step: the next phase and the action to perform.
#[derive(Clone, Debug, PartialEq, Eq)]
pub struct Transition {
    pub phase: Phase,
    pub action: Action,
}

/// The mathematical content of a [`Transition`].
pub struct TransitionView {
    pub phase: PhaseView,
    pub action: ActionView,
}

impl View for Transition {
    type V = TransitionView;

    open spec fn view(&self) -> TransitionView {
        TransitionView { phase: self.phase@, action: self.action@ }
    }
}

impl DeepView for Transition {
    type V = TransitionView;

    open spec fn deep_view(&self) -> TransitionView {
        self@
    }
}

/// The attributes of one attribute set of a domain's index.
pub open spec fn attributes_of(domain: Domain, set: AttributeSet) -> Seq<Seq<char>> {
    match set {
        AttributeSet::Searchable => searchable_attributes(domain),
        AttributeSet::Filterable => filterable_attributes(),
        AttributeSet::Sortable => sortable_attributes(),
    }
}

/// How the message of a failed configuration begins.
pub open spec fn configuration_context(set: AttributeSet) -> Seq<char> {
    match set {
        AttributeSet::Searchable => "Failed to set searchable attributes: "@,
        AttributeSet::Filterable => "Failed to set filterable attributes: "@,
        AttributeSet::Sortable => "Failed to set sortable attributes: "@,
    }
}

/// The transition that ends a request in failure.
pub open spec fn failed(error: SearchErrorView) -> TransitionView {
    TransitionView { phase: PhaseView::Failed(error), action: ActionView::Finish }
}

/// The transition that ends a request with its response.
pub open spec fn finished(response: SearchResponseView) -> TransitionView {
    TransitionView { phase: PhaseView::Delivered(response), action: ActionView::Finish }
}

/// The transition that leaves everything as it is.
pub open spec fn ignored(phase: PhaseView) -> TransitionView {
    TransitionView { phase, action: ActionView::Ignore }
}

/// The transition that begins the configuration of attribute set `set` of
/// the web index while `documents` wait to be written.
pub open spec fn configuring(
    set: AttributeSet,
    query: Seq<char>,
    documents: Seq<WebResultView>,
) -> TransitionView {
    TransitionView {
        phase: PhaseView::Configuring { set, query, documents },
        action: ActionView::Configure {
            domain: Domain::Web,
            set,
            attributes: attributes_of(Domain::Web, set),
        },
    }
}

/// Steps from `Idle`: a request begins. A search for a known domain is
/// compiled and sent to the engine; one for an unknown domain fails at once.
/// An import asks the web.
pub open spec fn after_idle(event: EventView) -> TransitionView {
    match event {
        EventView::SearchRequested(request) => match domain_named(request.index) {
            Some(domain) => TransitionView {
                phase: PhaseView::Querying { page: requested_page(request) },
                action: ActionView::Search(planned_query(domain, request)),
            },
            None => failed(
                failure(ErrorKind::Query, None, "Search failed: unknown index "@, request.index),
            ),
        },
        EventView::ImportRequested(query) => TransitionView {
            phase: PhaseView::EmptyFallback { query, answered: false },
            action: ActionView::AskWeb(query),
        },
        _ => ignored(PhaseView::Idle),
    }
}

/// Steps from `Querying`: the engine's page is delivered, be it empty or
/// not, and the engine's failure fails the request.
pub open spec fn after_querying(page: usize, event: EventView) -> TransitionView {
    match event {
        EventView::Page(raw) => finished(delivered_page(page, raw)),
        EventView::EngineFailed(detail) => failed(
            failure(ErrorKind::Query, None, "Search failed: "@, detail),
        ),
        _ => ignored(PhaseView::Querying { page }),
    }
}

/// Steps from `EmptyFallback`. Before the status is seen: a success status
/// lets the results be read, any other status fails the import, and so does
/// an engine that could not be reached. After it: no results end the import
/// with an empty response and nothing written; results are projected into
/// documents and the configuration of the web index begins; an answer that
/// cannot be read fails the import.
pub open spec fn after_fallback(query: Seq<char>, answered: bool, event: EventView)
    -> TransitionView {
    match event {
        EventView::WebStatus(status) if !answered => if 200 <= status <= 299 {
            TransitionView {
                phase: PhaseView::EmptyFallback { query, answered: true },
                action: ActionView::ReadWebResults,
            }
        } else {
            failed(
                failure(
                    ErrorKind::Import,
                    None,
                    "SearXNG returned status: "@,
                    status_line(status),
                ),
            )
        },
        EventView::WebResults(results) if answered => if results.len() == 0 {
            finished(empty_import())
        } else {
            configuring(
                AttributeSet::Searchable,
                query,
                results.map_values(|r: MetasearchResultView| imported_page(r)),
            )
        },
        EventView::WebFailed(detail) => if answered {
            failed(failure(ErrorKind::Import, None, "Failed to parse SearXNG response: "@, detail))
        } else {
            failed(failure(ErrorKind::Import, None, "SearXNG request failed: "@, detail))
        },
        _ => ignored(PhaseView::EmptyFallback { query, answered }),
    }
}

/// Steps from `Configuring`: each attribute set that the engine has accepted
/// is followed by the next, and the last by the writing of the documents. A
/// set that the engine refuses fails the import, with the configuration as
/// the cause.
pub open spec fn after_configuring(
    set: AttributeSet,
    query: Seq<char>,
    documents: Seq<WebResultView>,
    event: EventView,
) -> TransitionView {
    match event {
        EventView::EngineDone => match set {
            AttributeSet::Searchable => configuring(AttributeSet::Filterable, query, documents),
            AttributeSet::Filterable => configuring(AttributeSet::Sortable, query, documents),
            AttributeSet::Sortable => TransitionView {
                phase: PhaseView::Writing { query, count: documents.len() as usize },
                action: ActionView::Upsert {
                    domain: Domain::Web,
                    documents,
                    primary_key: primary_key(),
                },
            },
        },
        EventView::EngineFailed(detail) => failed(
            failure(
                ErrorKind::Import,
                Some(ErrorKind::Configuration),
                configuration_context(set),
                detail,
            ),
        ),
        _ => ignored(PhaseView::Configuring { set, query, documents }),
    }
}

/// Steps from `Writing`: once the engine has taken the documents it is given
/// time to index them; a failed write fails the import.
pub open spec fn after_writing(query: Seq<char>, count: usize, event: EventView)
    -> TransitionView {
    match event {
        EventView::EngineDone => TransitionView {
            phase: PhaseView::Settling { query, count },
            action: ActionView::AwaitIndexing { grace_ms: 500 },
        },
        EventView::EngineFailed(detail) => failed(
            failure(ErrorKind::Import, None, "Failed to index web results: "@, detail),
        ),
        _ => ignored(PhaseView::Writing { query, count }),
    }
}

/// Steps from `Settling`: after the wait the documents are read back from
/// the web index; a failed wait fails the import.
pub open spec fn after_settling(query: Seq<char>, count: usize, event: EventView)
    -> TransitionView {
    match event {
        EventView::EngineDone => TransitionView {
            phase: PhaseView::ReadingBack,
            action: ActionView::Search(read_back_query(query, count)),
        },
        EventView::EngineFailed(detail) => failed(
            failure(ErrorKind::Import, None, "Failed waiting for web indexing: "@, detail),
        ),
        _ => ignored(PhaseView::Settling { query, count }),
    }
}

/// Steps from `ReadingBack`: what the web index holds is delivered as a
/// single page; a failed query fails the import, with the query as the
/// cause.
pub open spec fn after_reading_back(event: EventView) -> TransitionView {
    match event {
        EventView::Page(raw) => finished(delivered_import(raw)),
        EventView::EngineFailed(detail) => failed(
            failure(ErrorKind::Import, Some(ErrorKind::Query), "Search failed: "@, detail),
        ),
        _ => ignored(PhaseView::ReadingBack),
    }
}

/// The transition function of the orchestrator. A phase that holds a result
/// or a failure is final: it ignores every event.
pub open spec fn next(phase: PhaseView, event: EventView) -> TransitionView {
    match phase {
        PhaseView::Idle => after_idle(event),
        PhaseView::Querying { page } => after_querying(page, event),
        PhaseView::EmptyFallback { query, answered } => after_fallback(query, answered, event),
        PhaseView::Configuring { set, query, documents } => after_configuring(
            set,
            query,
            documents,
            event,
        ),
        PhaseView::Writing { query, count } => after_writing(query, count, event),
        PhaseView::Settling { query, count } => after_settling(query, count, event),
        PhaseView::ReadingBack => after_reading_back(event),
        PhaseView::Delivered(response) => ignored(phase),
        PhaseView::Failed(error) => ignored(phase),
    }
}

/// What a step demands of its input: a search that begins asks for a page
/// whose offset can be computed.
pub open spec fn admissible(phase: PhaseView, event: EventView) -> bool {
    phase is Idle ==> (event matches EventView::SearchRequested(request) ==> page_in_reach(
        requested_page(request),
    ))
}

/// Lists the attributes of one attribute set of a domain's index.
pub fn attributes(domain: Domain, set: AttributeSet) -> (attributes: Vec<&'static str>)
    ensures
        attributes.deep_view() == attributes_of(domain, set),
{
    match set {
        AttributeSet::Searchable => searchable(domain),
        AttributeSet::Filterable => filterable(),
        AttributeSet::Sortable => sortable(),
    }
}

/// Tells how the message of a failed configuration begins.
pub fn configuration_context_of(set: AttributeSet) -> (context: &'static str)
    ensures
        context@ == configuration_context(set),
{
    match set {
        AttributeSet::Searchable => "Failed to set searchable attributes: ",
        AttributeSet::Filterable => "Failed to set filterable attributes: ",
        AttributeSet::Sortable => "Failed to set sortable attributes: ",
    }
}

/// Builds the failure for an attribute set that the engine refused outside of
/// an import, from the engine's own words.
pub fn configuration_failure(set: AttributeSet, detail: &str) -> (error: SearchError)
    ensures
        error@ == failure(ErrorKind::Configuration, None, configuration_context(set), detail@),
{
    SearchError::new(ErrorKind::Configuration, None, configuration_context_of(set), detail)
}

/// Ends a request in failure.
fn fail(kind: ErrorKind, cause: Option<ErrorKind>, context: &str, detail: &str) -> (transition:
    Transition)
    ensures
        transition@ == failed(failure(kind, cause, context@, detail@)),
{
    Transition {
        phase: Phase::Failed(SearchError::new(kind, cause, context, detail)),
        action: Action::Finish,
    }
}

/// Ends a request with its response.
fn finish(response: SearchResponse) -> (transition: Transition)
    ensures
        transition@ == finished(response@),
{
    Transition { phase: Phase::Delivered(response), action: Action::Finish }
}

/// Leaves everything as it is.
fn ignore(phase: Phase) -> (transition: Transition)
    ensures
        transition@ == ignored(phase@),
{
    Transition { phase, action: Action::Ignore }
}

/// Begins the configuration of one attribute set of the web index.
fn configure(set: AttributeSet, query: String, documents: Vec<WebResult>) -> (transition:
    Transition)
    ensures
        transition@ == configuring(set, query@, documents.deep_view()),
{
    Transition {
        phase: Phase::Configuring { set, query, documents },
        action: Action::Configure {
            domain: Domain::Web,
            set,
            attributes: attributes(Domain::Web, set),
        },
    }
}

/// Steps from `Idle`.
fn step_idle(event: Event) -> (transition: Transition)
    requires
        admissible(PhaseView::Idle, event@),
    ensures
        transition@ == after_idle(event@),
{
    match event {
        Event::SearchRequested(request) => match Domain::parse(request.index.as_str()) {
            Some(domain) => {
                let page: usize = match request.page {
                    Some(page) => page,
                    None => 1,
                };
                Transition {
                    phase: Phase::Querying { page },
                    action: Action::Search(plan_search(domain, request)),
                }
            },
            None => fail(
                ErrorKind::Query,
                None,
                "Search failed: unknown index ",
                request.index.as_str(),
            ),
        },
        Event::ImportRequested(query) => {
            let asked = query.clone();
            Transition {
                phase: Phase::EmptyFallback { query, answered: false },
                action: Action::AskWeb(asked),
            }
        },
        _ => ignore(Phase::Idle),
    }
}

/// Steps from `Querying`.
fn step_querying(page: usize, event: Event) -> (transition: Transition)
    ensures
        transition@ == after_querying(page, event@),
{
    match event {
        Event::Page(raw) => finish(deliver_page(page, raw)),
        Event::EngineFailed(detail) => fail(
            ErrorKind::Query,
            None,
            "Search failed: ",
            detail.as_str(),
        ),
        _ => ignore(Phase::Querying { page }),
    }
}

/// Steps from `EmptyFallback`.
fn step_fallback(query: String, answered: bool, event: Event) -> (transition: Transition)
    ensures
        transition@ == after_fallback(query@, answered, event@),
{
    match event {
        Event::WebStatus(status) => {
            if answered {
                ignore(Phase::EmptyFallback { query, answered })
            } else if status.is_success() {
                Transition {
                    phase: Phase::EmptyFallback { query, answered: true },
                    action: Action::ReadWebResults,
                }
            } else {
                let line = status.line();
                fail(ErrorKind::Import, None, "SearXNG returned status: ", line.as_str())
            }
        },
        Event::WebResults(results) => {
            if !answered {
                ignore(Phase::EmptyFallback { query, answered })
            } else if results.len() == 0 {
                finish(deliver_nothing())
            } else {
                configure(AttributeSet::Searchable, query, import_results(results))
            }
        },
        Event::WebFailed(detail) => {
            if answered {
                fail(
                    ErrorKind::Import,
                    None,
                    "Failed to parse SearXNG response: ",
                    detail.as_str(),
                )
            } else {
                fail(ErrorKind::Import, None, "SearXNG request failed: ", detail.as_str())
            }
        },
        _ => ignore(Phase::EmptyFallback { query, answered }),
    }
}

/// Steps from `Configuring`.
fn step_configuring(
    set: AttributeSet,
    query: String,
    documents: Vec<WebResult>,
    event: Event,
) -> (transition: Transition)
    ensures
        transition@ == after_configuring(set, query@, documents.deep_view(), event@),
{
    match event {
        Event::EngineDone => match set {
            AttributeSet::Searchable => configure(AttributeSet::Filterable, query, documents),
            AttributeSet::Filterable => configure(AttributeSet::Sortable, query, documents),
            AttributeSet::Sortable => {
                let count: usize = documents.len();
                Transition {
                    phase: Phase::Writing { query, count },
                    action: Action::Upsert {
                        domain: Domain::Web,
                        documents,
                        primary_key: primary_key_name(),
                    },
                }
            },
        },
        Event::EngineFailed(detail) => fail(
            ErrorKind::Import,
            Some(ErrorKind::Configuration),
            configuration_context_of(set),
            detail.as_str(),
        ),
        _ => ignore(Phase::Configuring { set, query, documents }),
    }
}

/// Steps from `Writing`.
fn step_writing(query: String, count: usize, event: Event) -> (transition: Transition)
    ensures
        transition@ == after_writing(query@, count, event@),
{
    match event {
        Event::EngineDone => Transition {
            phase: Phase::Settling { query, count },
            action: Action::AwaitIndexing { grace_ms: INDEXING_GRACE_MS },
        },
        Event::EngineFailed(detail) => fail(
            ErrorKind::Import,
            None,
            "Failed to index web results: ",
            detail.as_str(),
        ),
        _ => ignore(Phase::Writing { query, count }),
    }
}

/// Steps from `Settling`.
fn step_settling(query: String, count: usize, event: Event) -> (transition: Transition)
    ensures
        transition@ == after_settling(query@, count, event@),
{
    match event {
        Event::EngineDone => Transition {
            phase: Phase::ReadingBack,
            action: Action::Search(read_back(query, count)),
        },
        Event::EngineFailed(detail) => fail(
            ErrorKind::Import,
            None,
            "Failed waiting for web indexing: ",
            detail.as_str(),
        ),
        _ => ignore(Phase::Settling { query, count }),
    }
}

/// Steps from `ReadingBack`.
fn step_reading_back(event: Event) -> (transition: Transition)
    ensures
        transition@ == after_reading_back(event@),
{
    match event {
        Event::Page(raw) => finish(deliver_import(raw)),
        Event::EngineFailed(detail) => fail(
            ErrorKind::Import,
            Some(ErrorKind::Query),
            "Search failed: ",
            detail.as_str(),
        ),
        _ => ignore(Phase::ReadingBack),
    }
}

/// Takes one step: from the phase that a request is in and the event that
/// happened to the next phase and the action to perform.
///
/// A search runs `Idle`, `Querying`, `Delivered`. An import runs `Idle`,
/// `EmptyFallback`, then the importing phases `Configuring` (once for each
/// attribute set), `Writing`, `Settling` and `ReadingBack`, and `Delivered`.
/// Any failure that is reported on the way leads to `Failed`. An event that
/// the phase does not wait for is ignored.
pub fn step(phase: Phase, event: Event) -> (transition: Transition)
    requires
        admissible(phase@, event@),
    ensures
        transition@ == next(phase@, event@),
{
    match phase {
        Phase::Idle => step_idle(event),
        Phase::Querying { page } => step_querying(page, event),
        Phase::EmptyFallback { query, answered } => step_fallback(query, answered, event),
        Phase::Configuring { set, query, documents } => step_configuring(
            set,
            query,
            documents,
            event,
        ),
        Phase::Writing { query, count } => step_writing(query, count, event),
        Phase::Settling { query, count } => step_settling(query, count, event),
        Phase::ReadingBack => step_reading_back(event),
        Phase::Delivered(response) => ignore(Phase::Delivered(response)),
        Phase::Failed(error) => ignore(Phase::Failed(error)),
    }
}

/// The number of events that a phase can still accept at most before the
/// request is over.
pub open spec fn steps_left(phase: PhaseView) -> nat {
    match phase {
        PhaseView::Idle => 9,
        PhaseView::EmptyFallback { answered: false, .. } => 8,
        PhaseView::EmptyFallback { answered: true, .. } => 7,
        PhaseView::Configuring { set: AttributeSet::Searchable, .. } => 6,
        PhaseView::Configuring { set: AttributeSet::Filterable, .. } => 5,
        PhaseView::Configuring { set: AttributeSet::Sortable, .. } => 4,
        PhaseView::Writing { .. } => 3,
        PhaseView::Settling { .. } => 2,
        PhaseView::ReadingBack => 1,
        PhaseView::Querying { .. } => 1,
        PhaseView::Delivered(_) => 0,
        PhaseView::Failed(_) => 0,
    }
}

/// The phase that a sequence of events leads to, one step after the other.
pub open spec fn run(phase: PhaseView, events: Seq<EventView>) -> PhaseView
    decreases events.len(),
{
    if events.len() == 0 {
        phase
    } else {
        run(next(phase, events[0]).phase, events.drop_first())
    }
}

/// An event that is ignored changes nothing, and every other event brings
/// the request closer to its end: no request takes more than nine steps.
pub proof fn lemma_step_progress(phase: PhaseView, event: EventView)
    ensures
        next(phase, event).action is Ignore ==> next(phase, event).phase == phase,
        !(next(phase, event).action is Ignore) ==> steps_left(next(phase, event).phase)
            < steps_left(phase),
{
}

/// A request is over exactly when it has a result or has failed, and from
/// then on every event is ignored: a failure is final and never turns into a
/// result.
pub proof fn lemma_final_phases(phase: PhaseView, event: EventView)
    ensures
        steps_left(phase) == 0 <==> (phase is Delivered || phase is Failed),
        steps_left(phase) == 0 ==> next(phase, event) == ignored(phase),
        next(phase, event).action is Finish <==> (!(next(phase, event).action is Ignore)
            && steps_left(next(phase, event).phase) == 0),
{
}

/// Whatever fails while a request waits for it fails the request at once:
/// the next phase is `Failed`, of kind `Query` for a search and of kind
/// `Import` for an import, and nothing is left to do.
pub proof fn lemma_failure_fails_request(phase: PhaseView, detail: Seq<char>)
    ensures
        phase is Querying ==> (next(phase, EventView::EngineFailed(detail)).phase
            matches PhaseView::Failed(error) && error.kind == ErrorKind::Query),
        (phase is Configuring || phase is Writing || phase is Settling || phase is ReadingBack)
            ==> (next(phase, EventView::EngineFailed(detail)).phase matches PhaseView::Failed(error)
            && error.kind == ErrorKind::Import),
        phase is Configuring ==> (next(phase, EventView::EngineFailed(detail)).phase
            matches PhaseView::Failed(error) && error.cause == Some(ErrorKind::Configuration)),
        phase is EmptyFallback ==> (next(phase, EventView::WebFailed(detail)).phase
            matches PhaseView::Failed(error) && error.kind == ErrorKind::Import),
        phase matches PhaseView::EmptyFallback { answered: false, .. } ==> forall|status: u16|
            !(200 <= status <= 299) ==> #[trigger] next(
                phase,
                EventView::WebStatus(status),
            ).phase is Failed,
{
}

/// When the web has no results the import ends with the empty response and
/// no action: the web index is neither configured nor written.
pub proof fn lemma_empty_web_writes_nothing(query: Seq<char>)
    ensures
        next(
            PhaseView::EmptyFallback { query, answered: true },
            EventView::WebResults(Seq::empty()),
        ) == finished(empty_import()),
{
}

/// Documents are written only after all three attribute sets have been
/// accepted: the step that hands out the documents leaves the configuration
/// of the sortable attributes, and it hands out what the web results were
/// projected to, unchanged and in order.
pub proof fn lemma_write_follows_configuration(phase: PhaseView, event: EventView)
    requires
        next(phase, event).action is Upsert,
    ensures
        phase matches PhaseView::Configuring { set: AttributeSet::Sortable, documents, .. }
            && next(phase, event).action == (ActionView::Upsert {
            domain: Domain::Web,
            documents,
            primary_key: primary_key(),
        }),
        event is EngineDone,
{
}

/// A search for a known domain that the engine answers is delivered in two
/// steps. The response echoes the page that was asked for, in range or not,
/// reports the engine's estimate, and counts the pages of that estimate.
pub proof fn lemma_search_run(request: SearchRequestView, raw: RawPageView)
    requires
        domain_named(request.index) is Some,
    ensures
        run(PhaseView::Idle, seq![EventView::SearchRequested(request), EventView::Page(raw)])
            == PhaseView::Delivered(delivered_page(requested_page(request), raw)),
        delivered_page(requested_page(request), raw).page == requested_page(request),
        delivered_page(requested_page(request), raw).total_pages == page_count(
            delivered_page(requested_page(request), raw).total_hits as int,
        ),
        delivered_page(requested_page(request), raw).hits.len() == raw.documents.len(),
{
    let events = seq![EventView::SearchRequested(request), EventView::Page(raw)];
    let first = next(PhaseView::Idle, events[0]).phase;
    assert(events.drop_first() =~= seq![EventView::Page(raw)]);
    let second = next(first, EventView::Page(raw)).phase;
    assert(seq![EventView::Page(raw)].drop_first() =~= Seq::<EventView>::empty());
    assert(run(second, Seq::<EventView>::empty()) == second);
    assert(run(first, seq![EventView::Page(raw)]) == second);
    lemma_delivered_page_counts(requested_page(request), raw);
}

/// A search for a domain that does not exist fails at once with a failure of
/// kind `Query`, and the engine is not asked.
pub proof fn lemma_unknown_domain_fails(request: SearchRequestView)
    requires
        domain_named(request.index) is None,
    ensures
        next(PhaseView::Idle, EventView::SearchRequested(request)).phase matches PhaseView::Failed(
            error,
        ) && error.kind == ErrorKind::Query,
        next(PhaseView::Idle, EventView::SearchRequested(request)).action is Finish,
{
}

/// The events of an import in which everything succeeds: a success status,
/// the results, three accepted attribute sets, an accepted write, a wait that
/// ended, and the page read back.
pub open spec fn import_events(
    query: Seq<char>,
    status: u16,
    results: Seq<MetasearchResultView>,
    raw: RawPageView,
) -> Seq<EventView> {
    seq![
        EventView::ImportRequested(query),
        EventView::WebStatus(status),
        EventView::WebResults(results),
        EventView::EngineDone,
        EventView::EngineDone,
        EventView::EngineDone,
        EventView::EngineDone,
        EventView::EngineDone,
        EventView::Page(raw),
    ]
}

/// An import in which everything succeeds is delivered in nine steps: what
/// the web index answers when it is read back comes as a single page, page 1
/// of 1, with one hit for each document that it returned.
pub proof fn lemma_import_run(
    query: Seq<char>,
    status: u16,
    results: Seq<MetasearchResultView>,
    raw: RawPageView,
)
    requires
        200 <= status <= 299,
        results.len() > 0,
    ensures
        run(PhaseView::Idle, import_events(query, status, results, raw)) == PhaseView::Delivered(
            delivered_import(raw),
        ),
        delivered_import(raw).page == 1,
        delivered_import(raw).total_pages == 1,
        delivered_import(raw).hits.len() == raw.documents.len(),
{
    let events = import_events(query, status, results, raw);
    let phase0 = PhaseView::Idle;
    let phase1 = next(phase0, events[0]).phase;
    let phase2 = next(phase1, events[1]).phase;
    let phase3 = next(phase2, events[2]).phase;
    let phase4 = next(phase3, events[3]).phase;
    let phase5 = next(phase4, events[4]).phase;
    let phase6 = next(phase5, events[5]).phase;
    let phase7 = next(phase6, events[6]).phase;
    let phase8 = next(phase7, events[7]).phase;
    lemma_run_unfolds(phase0, events, 0);
    lemma_run_unfolds(phase1, events, 1);
    lemma_run_unfolds(phase2, events, 2);
    lemma_run_unfolds(phase3, events, 3);
    lemma_run_unfolds(phase4, events, 4);
    lemma_run_unfolds(phase5, events, 5);
    lemma_run_unfolds(phase6, events, 6);
    lemma_run_unfolds(phase7, events, 7);
    lemma_run_unfolds(phase8, events, 8);
    lemma_delivered_import_counts(raw);
}

/// Running the events from position `from` on is taking one step and running
/// the events behind it.
proof fn lemma_run_unfolds(phase: PhaseView, events: Seq<EventView>, from: int)
    requires
        0 <= from < events.len(),
    ensures
        run(phase, events.skip(from)) == run(next(phase, events[from]).phase, events.skip(from + 1)),
{
    assert(events.skip(from).drop_first() =~= events.skip(from + 1));
}

} // verus!
