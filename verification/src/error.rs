//! The tagged failures that the library reports.

use crate::model::Domain;
use vstd::prelude::*;
use vstd::string::*;

verus! {

/// The kinds of failure.
#[derive(Clone, Copy, Debug, PartialEq, Eq, Structural)]
pub enum ErrorKind {
    /// The index engine could not answer a query.
    Query,
    /// A document looked up by key is not in the index.
    DocumentNotFound,
    /// The web import could not be completed.
    Import,
    /// The attributes of an index could not be set.
    Configuration,
}

/// A failure: its kind, the kind of failure that caused it where there is
/// one, and a message for people.
#[derive(Clone, Debug, PartialEq, Eq)]
pub struct SearchError {
    pub kind: ErrorKind,
    pub cause: Option<ErrorKind>,
    pub message: String,
}

/// The mathematical content of a [`SearchError`].
pub struct SearchErrorView {
    pub kind: ErrorKind,
    pub cause: Option<ErrorKind>,
    pub message: Seq<char>,
}

impl View for SearchError {
    type V = SearchErrorView;

    open spec fn view(&self) -> SearchErrorView {
        SearchErrorView { kind: self.kind, cause: self.cause, message: self.message@ }
    }
}

impl DeepView for SearchError {
    type V = SearchErrorView;

    open spec fn deep_view(&self) -> SearchErrorView {
        self@
    }
}

/// The failure of kind `kind` caused by `cause`, whose message is `context`
/// followed by `detail`.
pub open spec fn failure(
    kind: ErrorKind,
    cause: Option<ErrorKind>,
    context: Seq<char>,
    detail: Seq<char>,
) -> SearchErrorView {
    SearchErrorView { kind, cause, message: context + detail }
}

impl SearchError {
    /// Builds a failure whose message is `context` followed by `detail`.
    pub fn new(kind: ErrorKind, cause: Option<ErrorKind>, context: &str, detail: &str) -> (error:
        SearchError)
        ensures
            error@ == failure(kind, cause, context@, detail@),
    {
        let mut message = String::from_str(context);
        message.append(detail);
        SearchError { kind, cause, message }
    }
}

/// How the message begins when a document of `domain` is not found.
pub open spec fn not_found_context(domain: Domain) -> Seq<char> {
    match domain {
        Domain::Movies => "Movie not found: "@,
        Domain::Books => "Book not found: "@,
        Domain::Web => "Web result not found: "@,
    }
}

/// Builds the failure for a document of `domain` that the engine could not
/// return, from the engine's own words.
pub fn document_not_found(domain: Domain, detail: &str) -> (error: SearchError)
    ensures
        error@ == failure(ErrorKind::DocumentNotFound, None, not_found_context(domain), detail@),
{
    let context: &'static str = match domain {
        Domain::Movies => "Movie not found: ",
        Domain::Books => "Book not found: ",
        Domain::Web => "Web result not found: ",
    };
    SearchError::new(ErrorKind::DocumentNotFound, None, context, detail)
}

} // verus!
