//! The rules of the filter state on the caller's side: toggling a genre,
//! telling a blank request, and offering the web import.

use crate::model::{Domain, SearchRequest, SearchRequestView, SearchResponse, SearchResponseView};
use crate::text::same_text;
use vstd::prelude::*;
use vstd::string::*;

verus! {

/// Time in milliseconds for which the query text must rest before a search
/// for it is sent.
pub const QUERY_QUIESCENCE_MS: u64 = 300;

/// The selection after `genre` was toggled: without it if it was selected,
/// with it at the end if it was not.
pub open spec fn toggled(selected: Seq<Seq<char>>, genre: Seq<char>) -> Seq<Seq<char>> {
    if selected.contains(genre) {
        selected.filter(|g: Seq<char>| g != genre)
    } else {
        selected.push(genre)
    }
}

/// A request that asks for nothing: no query text and no selection.
pub open spec fn blank(request: SearchRequestView) -> bool {
    &&& request.query.len() == 0
    &&& request.genres.len() == 0
    &&& request.year_min is None
    &&& request.year_max is None
    &&& request.rating_min is None
}

/// Whether the web import is offered after a search: the search was not in
/// the web domain itself, it found nothing, and there is a query to import.
pub open spec fn import_offered(domain: Domain, response: SearchResponseView, query: Seq<char>)
    -> bool {
    &&& domain != Domain::Web
    &&& response.hits.len() == 0
    &&& query.len() > 0
}

/// Toggles `genre` in the selection.
pub fn toggle_genre(selected: &Vec<String>, genre: &str) -> (selection: Vec<String>)
    ensures
        selection.deep_view() == toggled(selected.deep_view(), genre@),
{
    let ghost others = |g: Seq<char>| g != genre@;
    let mut selection: Vec<String> = Vec::new();
    let mut found: bool = false;
    let n: usize = selected.len();
    let mut i: usize = 0;
    proof {
        reveal(Seq::filter);
    }
    while i < n
        invariant
            n == selected.len(),
            i <= n,
            others == (|g: Seq<char>| g != genre@),
            found == selected.deep_view().take(i as int).contains(genre@),
            selection.deep_view() == selected.deep_view().take(i as int).filter(others),
        decreases n - i,
    {
        let ghost before = selected.deep_view().take(i as int);
        let ghost upto = selected.deep_view().take(i as int + 1);
        proof {
            reveal(Seq::filter);
            assert(upto.drop_last() =~= before);
        }
        if same_text(selected[i].as_str(), genre) {
            found = true;
            assert(upto[i as int] == genre@);
        } else {
            selection.push(selected[i].clone());
        }
        i = i + 1;
    }
    assert(selected.deep_view().take(n as int) =~= selected.deep_view());
    if !found {
        proof {
            lemma_filter_keeps_all(selected.deep_view(), others);
        }
        selection.push(String::from_str(genre));
    }
    selection
}

/// A filter that every element passes keeps the sequence as it is.
proof fn lemma_filter_keeps_all(s: Seq<Seq<char>>, pred: spec_fn(Seq<char>) -> bool)
    requires
        forall|i: int| 0 <= i < s.len() ==> pred(#[trigger] s[i]),
    ensures
        s.filter(pred) == s,
    decreases s.len(),
{
    reveal(Seq::filter);
    if s.len() > 0 {
        lemma_filter_keeps_all(s.drop_last(), pred);
    }
}

/// Reads the choice of a sort order: the empty choice stands for the
/// engine's own ranking, any other is passed on as it is.
pub fn chosen_sort(choice: String) -> (sort: Option<String>)
    ensures
        sort.deep_view() == if choice@.len() == 0 {
            None
        } else {
            Some(choice@)
        },
{
    if choice.as_str().is_empty() {
        None
    } else {
        Some(choice)
    }
}

/// Tells whether a request asks for nothing, so that no search is due.
pub fn is_blank(request: &SearchRequest) -> (nothing: bool)
    ensures
        nothing == blank(request@),
{
    request.query.as_str().is_empty() && request.genres.len() == 0 && request.year_min.is_none()
        && request.year_max.is_none() && request.rating_min.is_none()
}

/// Tells whether the web import is offered after a search in `domain` for
/// `query` that was answered with `response`.
pub fn offers_web_import(domain: Domain, response: &SearchResponse, query: &str) -> (offered: bool)
    ensures
        offered == import_offered(domain, response@, query@),
{
    let local: bool = match domain {
        Domain::Web => false,
        _ => true,
    };
    local && response.hits.len() == 0 && !query.is_empty()
}

} // verus!
