//! What a result card shows of a hit: the path of its detail page, its
//! creator line, its shortened description, and whether it shows a rating.

use crate::model::{Domain, SearchHit, SearchHitView};
use crate::text::{decimal, push_decimal};
use vstd::prelude::*;
use vstd::string::*;

verus! {

/// Longest description, in characters, that a card shows in full.
pub const DESCRIPTION_LIMIT: usize = 120;

/// The path under which the detail pages of a domain are found.
pub open spec fn detail_prefix(domain: Domain) -> Seq<char> {
    match domain {
        Domain::Movies => "/movie/"@,
        Domain::Books => "/book/"@,
        Domain::Web => "/web/"@,
    }
}

/// The path of the detail page of the document with key `id`.
pub open spec fn detail_path_of(domain: Domain, id: i64) -> Seq<char> {
    detail_prefix(domain) + decimal(id as int)
}

/// The creator line of a hit: the address alone for a web page, else the
/// creator with the year in parentheses.
pub open spec fn creator_line_of(hit: SearchHitView) -> Seq<char> {
    if hit.domain == Domain::Web {
        hit.creator
    } else {
        hit.creator + " ("@ + decimal(hit.year as int) + ")"@
    }
}

/// A description as a card shows it: in full up to the limit, else its first
/// characters up to the limit followed by three dots.
pub open spec fn shortened(description: Seq<char>) -> Seq<char> {
    if description.len() > 120 {
        description.take(120) + "..."@
    } else {
        description
    }
}

/// Whether a card shows the rating: always for movies and books, for a web
/// page only if it has a rating above zero.
pub open spec fn rating_shown(hit: SearchHitView) -> bool {
    hit.domain != Domain::Web || hit.rating.millis > 0
}

/// Builds the path of a document's detail page.
pub fn detail_path(domain: Domain, id: i64) -> (path: String)
    ensures
        path@ == detail_path_of(domain, id),
{
    let mut path = String::from_str(
        match domain {
            Domain::Movies => "/movie/",
            Domain::Books => "/book/",
            Domain::Web => "/web/",
        },
    );
    push_decimal(&mut path, id);
    path
}

/// Builds the creator line of a hit.
pub fn creator_line(hit: &SearchHit) -> (line: String)
    ensures
        line@ == creator_line_of(hit@),
{
    let mut line = hit.creator.clone();
    match hit.domain {
        Domain::Web => {},
        _ => {
            line.append(" (");
            push_decimal(&mut line, hit.year as i64);
            line.append(")");
        },
    }
    line
}

/// Shortens a description for a card.
pub fn shorten_description(description: &str) -> (shown: String)
    ensures
        shown@ == shortened(description@),
{
    if description.unicode_len() > DESCRIPTION_LIMIT {
        let mut shown = String::from_str(description.substring_char(0, DESCRIPTION_LIMIT));
        shown.append("...");
        shown
    } else {
        String::from_str(description)
    }
}

/// Tells whether a card shows the rating of a hit.
pub fn shows_rating(hit: &SearchHit) -> (shown: bool)
    ensures
        shown == rating_shown(hit@),
{
    match hit.domain {
        Domain::Web => hit.rating.millis > 0,
        _ => true,
    }
}

} // verus!
