//! The attribute sets that each domain's index is configured with.

use crate::model::Domain;
use vstd::prelude::*;
use vstd::string::*;

verus! {

/// The attributes that full-text queries search, by domain, in order of
/// importance.
pub open spec fn searchable_attributes(domain: Domain) -> Seq<Seq<char>> {
    match domain {
        Domain::Movies => seq!["title"@, "title_en"@, "description"@, "director"@, "genres"@],
        Domain::Books => seq!["title"@, "title_en"@, "description"@, "author"@, "genres"@],
        Domain::Web => seq!["title"@, "description"@, "url"@, "source_engine"@],
    }
}

/// The attributes that filter expressions may test.
pub open spec fn filterable_attributes() -> Seq<Seq<char>> {
    seq!["genres"@, "year"@, "rating"@, "language"@]
}

/// The attributes that results may be sorted by.
pub open spec fn sortable_attributes() -> Seq<Seq<char>> {
    seq!["year"@, "rating"@, "title"@]
}

/// The attribute that holds a document's primary key.
pub open spec fn primary_key() -> Seq<char> {
    "id"@
}

/// Lists the searchable attributes of `domain`.
pub fn searchable(domain: Domain) -> (attributes: Vec<&'static str>)
    ensures
        attributes.deep_view() == searchable_attributes(domain),
{
    let mut attributes: Vec<&'static str> = Vec::new();
    match domain {
        Domain::Movies => {
            attributes.push("title");
            attributes.push("title_en");
            attributes.push("description");
            attributes.push("director");
            attributes.push("genres");
        },
        Domain::Books => {
            attributes.push("title");
            attributes.push("title_en");
            attributes.push("description");
            attributes.push("author");
            attributes.push("genres");
        },
        Domain::Web => {
            attributes.push("title");
            attributes.push("description");
            attributes.push("url");
            attributes.push("source_engine");
        },
    }
    attributes
}

/// Lists the filterable attributes, the same for every domain.
pub fn filterable() -> (attributes: Vec<&'static str>)
    ensures
        attributes.deep_view() == filterable_attributes(),
{
    let mut attributes: Vec<&'static str> = Vec::new();
    attributes.push("genres");
    attributes.push("year");
    attributes.push("rating");
    attributes.push("language");
    attributes
}

/// Lists the sortable attributes, the same for every domain.
pub fn sortable() -> (attributes: Vec<&'static str>)
    ensures
        attributes.deep_view() == sortable_attributes(),
{
    let mut attributes: Vec<&'static str> = Vec::new();
    attributes.push("year");
    attributes.push("rating");
    attributes.push("title");
    attributes
}

/// Names the primary key attribute.
pub fn primary_key_name() -> (name: &'static str)
    ensures
        name@ == primary_key(),
{
    "id"
}

} // verus!
