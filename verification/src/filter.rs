//! Compiles facet selections into one expression of the index engine's
//! filter language.

use crate::model::Rating;
use crate::text::{
    decimal, decimal_thousandths, escape_quotes, join, joined, push_decimal,
    push_decimal_thousandths, push_escaped,
};
use vstd::prelude::*;
use vstd::string::*;

verus! {

/// The test that a document carries `genre`: an equality on the quoted,
/// escaped literal.
pub open spec fn genre_clause(genre: Seq<char>) -> Seq<char> {
    "genres = \""@ + escape_quotes(genre) + "\""@
}

/// The parenthesised alternative over all selected genres.
pub open spec fn genre_group(genres: Seq<Seq<char>>) -> Seq<char> {
    "("@ + joined(genres.map_values(|g: Seq<char>| genre_clause(g)), " OR "@) + ")"@
}

/// The condition on genres: none when no genre is selected.
pub open spec fn genre_conditions(genres: Seq<Seq<char>>) -> Seq<Seq<char>> {
    if genres.len() == 0 {
        Seq::empty()
    } else {
        seq![genre_group(genres)]
    }
}

/// The condition that a lower bound on the year contributes.
pub open spec fn year_min_conditions(year_min: Option<i32>) -> Seq<Seq<char>> {
    match year_min {
        Some(year) => seq!["year >= "@ + decimal(year as int)],
        None => Seq::empty(),
    }
}

/// The condition that an upper bound on the year contributes.
pub open spec fn year_max_conditions(year_max: Option<i32>) -> Seq<Seq<char>> {
    match year_max {
        Some(year) => seq!["year <= "@ + decimal(year as int)],
        None => Seq::empty(),
    }
}

/// The condition that a lower bound on the rating contributes.
pub open spec fn rating_conditions(rating_min: Option<Rating>) -> Seq<Seq<char>> {
    match rating_min {
        Some(rating) => seq!["rating >= "@ + decimal_thousandths(rating.millis as int)],
        None => Seq::empty(),
    }
}

/// All conditions of a selection, in their fixed order: genres, lowest year,
/// highest year, lowest rating.
pub open spec fn filter_conditions(
    genres: Seq<Seq<char>>,
    year_min: Option<i32>,
    year_max: Option<i32>,
    rating_min: Option<Rating>,
) -> Seq<Seq<char>> {
    genre_conditions(genres) + year_min_conditions(year_min) + year_max_conditions(year_max)
        + rating_conditions(rating_min)
}

/// The filter expression of a selection: its conditions joined by `AND`, or no
/// filter when there is no condition.
pub open spec fn filter_expression(
    genres: Seq<Seq<char>>,
    year_min: Option<i32>,
    year_max: Option<i32>,
    rating_min: Option<Rating>,
) -> Option<Seq<char>> {
    let conditions = filter_conditions(genres, year_min, year_max, rating_min);
    if conditions.len() == 0 {
        None
    } else {
        Some(joined(conditions, " AND "@))
    }
}

/// Builds the clause for one genre.
fn build_genre_clause(genre: &str) -> (clause: String)
    ensures
        clause@ == genre_clause(genre@),
{
    let mut clause = String::from_str("genres = \"");
    push_escaped(&mut clause, genre);
    clause.append("\"");
    clause
}

/// Builds the parenthesised alternative over `genres`.
fn build_genre_group(genres: &Vec<String>) -> (group: String)
    ensures
        group@ == genre_group(genres.deep_view()),
{
    let mut clauses: Vec<String> = Vec::new();
    let n: usize = genres.len();
    let mut i: usize = 0;
    while i < n
        invariant
            n == genres.len(),
            i <= n,
            clauses.len() == i,
            forall|j: int| 0 <= j < i ==> clauses[j]@ == genre_clause(#[trigger] genres[j]@),
        decreases n - i,
    {
        clauses.push(build_genre_clause(genres[i].as_str()));
        i = i + 1;
    }
    assert(clauses.deep_view() =~= genres.deep_view().map_values(
        |g: Seq<char>| genre_clause(g),
    ));
    let mut group = String::from_str("(");
    let alternatives = join(&clauses, " OR ");
    group.append(alternatives.as_str());
    group.append(")");
    group
}

/// Compiles a selection into the engine's filter expression.
///
/// Selected genres become one parenthesised `OR` group of equalities on
/// escaped literals; each bound that is present becomes a comparison. The
/// conditions are joined by `AND` in the order genres, lowest year, highest
/// year, lowest rating. The bounds are not compared with one another. The
/// result is `None` exactly when nothing is selected.
pub fn build_filter(
    genres: &Vec<String>,
    year_min: Option<i32>,
    year_max: Option<i32>,
    rating_min: Option<Rating>,
) -> (filter: Option<String>)
    ensures
        filter.deep_view() == filter_expression(
            genres.deep_view(),
            year_min,
            year_max,
            rating_min,
        ),
{
    let mut conditions: Vec<String> = Vec::new();
    if genres.len() > 0 {
        conditions.push(build_genre_group(genres));
    }
    if let Some(year) = year_min {
        let mut condition = String::from_str("year >= ");
        push_decimal(&mut condition, year as i64);
        conditions.push(condition);
    }
    assert(conditions.deep_view() =~= genre_conditions(genres.deep_view()) + year_min_conditions(
        year_min,
    ));
    if let Some(year) = year_max {
        let mut condition = String::from_str("year <= ");
        push_decimal(&mut condition, year as i64);
        conditions.push(condition);
    }
    assert(conditions.deep_view() =~= genre_conditions(genres.deep_view()) + year_min_conditions(
        year_min,
    ) + year_max_conditions(year_max));
    if let Some(rating) = rating_min {
        let mut condition = String::from_str("rating >= ");
        push_decimal_thousandths(&mut condition, rating.millis);
        conditions.push(condition);
    }
    assert(conditions.deep_view() =~= filter_conditions(
        genres.deep_view(),
        year_min,
        year_max,
        rating_min,
    ));
    if conditions.len() == 0 {
        None
    } else {
        Some(join(&conditions, " AND "))
    }
}

/// A selection compiles to no filter exactly when it selects nothing: no
/// genre and no bound.
pub proof fn lemma_no_filter_iff_nothing_selected(
    genres: Seq<Seq<char>>,
    year_min: Option<i32>,
    year_max: Option<i32>,
    rating_min: Option<Rating>,
)
    ensures
        filter_expression(genres, year_min, year_max, rating_min) is None <==> (genres.len() == 0
            && year_min is None && year_max is None && rating_min is None),
{
}

/// The number of conditions is the number of bounds that are present, and
/// one more if any genre is selected; they stand in the fixed order.
pub proof fn lemma_conditions_in_order(
    genres: Seq<Seq<char>>,
    year_min: i32,
    year_max: i32,
    rating_min: Rating,
)
    requires
        genres.len() > 0,
    ensures
        filter_conditions(genres, Some(year_min), Some(year_max), Some(rating_min)) == seq![
            genre_group(genres),
            "year >= "@ + decimal(year_min as int),
            "year <= "@ + decimal(year_max as int),
            "rating >= "@ + decimal_thousandths(rating_min.millis as int),
        ],
{
    assert(filter_conditions(genres, Some(year_min), Some(year_max), Some(rating_min)) =~= seq![
        genre_group(genres),
        "year >= "@ + decimal(year_min as int),
        "year <= "@ + decimal(year_max as int),
        "rating >= "@ + decimal_thousandths(rating_min.millis as int),
    ]);
}

/// In an escaped text every double quote has a backslash in front of it, so
/// that no quote of a genre ends the literal it is written in.
pub proof fn lemma_escaped_quotes_are_guarded(text: Seq<char>, position: int)
    requires
        0 <= position < escape_quotes(text).len(),
        escape_quotes(text)[position] == '"',
    ensures
        position > 0,
        escape_quotes(text)[position - 1] == '\\',
    decreases text.len(),
{
    if text.len() > 0 {
        let before = escape_quotes(text.drop_last());
        if position < before.len() {
            lemma_escaped_quotes_are_guarded(text.drop_last(), position);
        }
    }
}

} // verus!
