//! Facet aggregation: the request for a domain's facet distribution and the
//! reshaping of the engine's answer into lists of values with counts.

use crate::error::{failure, ErrorKind, SearchError, SearchErrorView};
use crate::model::{
    domain_named, Domain, FacetInfo, FacetInfoView, FacetValue, FacetValueView,
};
use crate::text::same_text;
use vstd::prelude::*;
use vstd::string::*;

verus! {

/// One dimension of a facet distribution: its name and, for each value that
/// occurs, the number of documents that carry it.
#[derive(Clone, Debug, PartialEq, Eq)]
pub struct FacetDimension {
    pub name: String,
    pub entries: Vec<FacetValue>,
}

/// The mathematical content of a [`FacetDimension`].
pub struct FacetDimensionView {
    pub name: Seq<char>,
    pub entries: Seq<FacetValueView>,
}

impl View for FacetDimension {
    type V = FacetDimensionView;

    open spec fn view(&self) -> FacetDimensionView {
        FacetDimensionView { name: self.name@, entries: self.entries.deep_view() }
    }
}

impl DeepView for FacetDimension {
    type V = FacetDimensionView;

    open spec fn deep_view(&self) -> FacetDimensionView {
        self@
    }
}

/// The request for the facet distribution of a domain.
#[derive(Clone, Debug, PartialEq, Eq)]
pub struct FacetQuery {
    pub domain: Domain,
    pub query: String,
    pub limit: usize,
    pub dimensions: Vec<&'static str>,
}

/// The mathematical content of a [`FacetQuery`].
pub struct FacetQueryView {
    pub domain: Domain,
    pub query: Seq<char>,
    pub limit: usize,
    pub dimensions: Seq<Seq<char>>,
}

impl View for FacetQuery {
    type V = FacetQueryView;

    open spec fn view(&self) -> FacetQueryView {
        FacetQueryView {
            domain: self.domain,
            query: self.query@,
            limit: self.limit,
            dimensions: self.dimensions.deep_view(),
        }
    }
}

impl DeepView for FacetQuery {
    type V = FacetQueryView;

    open spec fn deep_view(&self) -> FacetQueryView {
        self@
    }
}

/// The three facet dimensions that are aggregated.
pub open spec fn facet_dimensions() -> Seq<Seq<char>> {
    seq!["genres"@, "year"@, "language"@]
}

/// The facet request for `domain`: an empty query that asks for no hits and
/// for the three facet dimensions.
pub open spec fn facet_request(domain: Domain) -> FacetQueryView {
    FacetQueryView { domain, query: Seq::empty(), limit: 0, dimensions: facet_dimensions() }
}

/// The values of the first dimension called `name`, none if there is no such
/// dimension.
pub open spec fn dimension_values(
    distribution: Seq<FacetDimensionView>,
    name: Seq<char>,
) -> Seq<FacetValueView>
    decreases distribution.len(),
{
    if distribution.len() == 0 {
        Seq::empty()
    } else if distribution[0].name == name {
        distribution[0].entries
    } else {
        dimension_values(distribution.drop_first(), name)
    }
}

/// The facets that a distribution is reshaped to. A dimension that the engine
/// did not return, and a distribution that it did not return at all, give
/// empty lists.
pub open spec fn parsed_facets(distribution: Option<Seq<FacetDimensionView>>) -> FacetInfoView {
    match distribution {
        Some(dimensions) => FacetInfoView {
            genres: dimension_values(dimensions, "genres"@),
            years: dimension_values(dimensions, "year"@),
            languages: dimension_values(dimensions, "language"@),
        },
        None => FacetInfoView {
            genres: Seq::empty(),
            years: Seq::empty(),
            languages: Seq::empty(),
        },
    }
}

/// No two dimensions of a distribution share a name, as in the map that the
/// engine returns.
pub open spec fn distinct_names(distribution: Seq<FacetDimensionView>) -> bool {
    forall|i: int, j: int|
        0 <= i < j < distribution.len() ==> (#[trigger] distribution[i]).name != (
        #[trigger] distribution[j]).name
}

/// Builds the facet request for `domain`.
pub fn facet_query(domain: Domain) -> (query: FacetQuery)
    ensures
        query@ == facet_request(domain),
{
    let mut dimensions: Vec<&'static str> = Vec::new();
    dimensions.push("genres");
    dimensions.push("year");
    dimensions.push("language");
    assert(dimensions.deep_view() =~= facet_dimensions());
    FacetQuery { domain, query: String::new(), limit: 0, dimensions }
}

/// What a facet request for the collection called `index` is planned to: the
/// facet request of its domain, or a failure of kind `Query` where the name
/// denotes no domain.
pub open spec fn planned_facets(index: Seq<char>) -> Result<FacetQueryView, SearchErrorView> {
    match domain_named(index) {
        Some(domain) => Ok(facet_request(domain)),
        None => Err(failure(ErrorKind::Query, None, "Facet query failed: unknown index "@, index)),
    }
}

/// Plans the facet request for the collection called `index`.
pub fn plan_facets(index: &str) -> (plan: Result<FacetQuery, SearchError>)
    ensures
        match plan {
            Ok(query) => planned_facets(index@) == Ok::<FacetQueryView, SearchErrorView>(query@),
            Err(error) => planned_facets(index@) == Err::<FacetQueryView, SearchErrorView>(error@),
        },
{
    match Domain::parse(index) {
        Some(domain) => Ok(facet_query(domain)),
        None => Err(
            SearchError::new(ErrorKind::Query, None, "Facet query failed: unknown index ", index),
        ),
    }
}

/// Builds the failure for a facet request that the engine could not answer,
/// from the engine's own words.
pub fn facet_failure(detail: &str) -> (error: SearchError)
    ensures
        error@ == failure(ErrorKind::Query, None, "Facet query failed: "@, detail@),
{
    SearchError::new(ErrorKind::Query, None, "Facet query failed: ", detail)
}

/// Copies the values of a dimension.
fn copy_values(entries: &Vec<FacetValue>) -> (copy: Vec<FacetValue>)
    ensures
        copy.deep_view() == entries.deep_view(),
{
    let mut copy: Vec<FacetValue> = Vec::new();
    let n: usize = entries.len();
    let mut i: usize = 0;
    while i < n
        invariant
            n == entries.len(),
            i <= n,
            copy.len() == i,
            forall|j: int| 0 <= j < i ==> copy[j]@ == entries[j]@,
        decreases n - i,
    {
        copy.push(FacetValue { value: entries[i].value.clone(), count: entries[i].count });
        i = i + 1;
    }
    copy
}

/// Picks the values of the first dimension called `name`.
fn values_of(distribution: &Vec<FacetDimension>, name: &str) -> (values: Vec<FacetValue>)
    ensures
        values.deep_view() == dimension_values(distribution.deep_view(), name@),
{
    let n: usize = distribution.len();
    let mut i: usize = 0;
    assert(distribution.deep_view().skip(0) =~= distribution.deep_view());
    while i < n
        invariant
            n == distribution.len(),
            i <= n,
            dimension_values(distribution.deep_view(), name@) == dimension_values(
                distribution.deep_view().skip(i as int),
                name@,
            ),
        decreases n - i,
    {
        let ghost rest = distribution.deep_view().skip(i as int);
        if same_text(distribution[i].name.as_str(), name) {
            return copy_values(&distribution[i].entries);
        }
        assert(rest.drop_first() =~= distribution.deep_view().skip(i as int + 1));
        i = i + 1;
    }
    Vec::new()
}

/// Reshapes the engine's facet distribution.
///
/// The genres are the values of the dimension `genres`, the years those of
/// `year`, the languages those of `language`, each with its count and in the
/// order in which the distribution lists them. A missing dimension, or a
/// missing distribution, gives an empty list and no failure.
pub fn parse_facets(distribution: Option<Vec<FacetDimension>>) -> (info: FacetInfo)
    ensures
        info@ == parsed_facets(distribution.deep_view()),
{
    match distribution {
        Some(dimensions) => {
            let genres = values_of(&dimensions, "genres");
            let years = values_of(&dimensions, "year");
            let languages = values_of(&dimensions, "language");
            FacetInfo { genres, years, languages }
        },
        None => {
            let info = FacetInfo { genres: Vec::new(), years: Vec::new(), languages: Vec::new() };
            assert(info@.languages =~= Seq::empty());
            info
        },
    }
}

/// Where no two dimensions share a name, the values found under a name are
/// those of the one dimension that has it, wherever it stands.
pub proof fn lemma_dimension_found_anywhere(
    distribution: Seq<FacetDimensionView>,
    position: int,
)
    requires
        distinct_names(distribution),
        0 <= position < distribution.len(),
    ensures
        dimension_values(distribution, distribution[position].name)
            == distribution[position].entries,
    decreases distribution.len(),
{
    if position > 0 {
        let rest = distribution.drop_first();
        lemma_dimension_found_anywhere(rest, position - 1);
    }
}

/// A name that no dimension has gives no values.
pub proof fn lemma_missing_dimension_is_empty(
    distribution: Seq<FacetDimensionView>,
    name: Seq<char>,
)
    requires
        forall|i: int| 0 <= i < distribution.len() ==> (#[trigger] distribution[i]).name != name,
    ensures
        dimension_values(distribution, name).len() == 0,
    decreases distribution.len(),
{
    if distribution.len() > 0 {
        let rest = distribution.drop_first();
        lemma_missing_dimension_is_empty(rest, name);
    }
}

} // verus!
