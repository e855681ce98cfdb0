//! Web metasearch results: the stable key derived from a page's address, the
//! projection of results into the documents of the web index, and the status
//! of the metasearch engine's answer.

use crate::model::{Rating, WebResult, WebResultView};
use std::collections::hash_map::DefaultHasher;
use std::hash::Hasher;
use vstd::prelude::*;
use vstd::std_specs::hash::DefaultHasherAdditionalSpecFns;
use vstd::string::*;
use vstd::utf8::encode_utf8;

verus! {

/// The 64-bit digest of an address: what the standard hasher in its initial
/// state makes of the address's UTF-8 bytes followed by the byte `0xff`.
pub open spec fn url_digest(url: Seq<char>) -> u64 {
    DefaultHasher::spec_finish(seq![encode_utf8(url), seq![0xffu8]])
}

/// The key that a digest stands for: the digest read as a signed 64-bit
/// number, without its sign, and at most the largest signed number.
pub open spec fn id_of_digest(digest: u64) -> int {
    if digest <= i64::MAX {
        digest as int
    } else if 0x1_0000_0000_0000_0000 - digest <= i64::MAX {
        0x1_0000_0000_0000_0000 - digest
    } else {
        i64::MAX as int
    }
}

/// The primary key derived from a page's address.
pub open spec fn derived_id(url: Seq<char>) -> int {
    id_of_digest(url_digest(url))
}

/// Turns a digest into a key that is not negative.
pub fn digest_to_id(digest: u64) -> (id: i64)
    ensures
        id == id_of_digest(digest),
        id >= 0,
{
    if digest <= i64::MAX as u64 {
        digest as i64
    } else {
        let back: u64 = (u64::MAX - digest) + 1;
        if back <= i64::MAX as u64 {
            back as i64
        } else {
            i64::MAX
        }
    }
}

/// Derives the primary key of a web page from its address.
///
/// The key depends on the characters of the address alone, so that the same
/// address always gets the same key, and it is never negative.
pub fn url_to_id(url: &str) -> (id: i64)
    ensures
        id == derived_id(url@),
        id >= 0,
{
    let mut hasher = DefaultHasher::new();
    hasher.write(url.as_bytes());
    let end: [u8; 1] = [0xffu8];
    let end_bytes = end.as_slice();
    assert(end_bytes@ =~= seq![0xffu8]);
    hasher.write(end_bytes);
    assert(hasher@ =~= seq![encode_utf8(url@), seq![0xffu8]]);
    digest_to_id(hasher.finish())
}

/// One result of the web metasearch engine.
#[derive(Clone, Debug, PartialEq, Eq)]
pub struct MetasearchResult {
    pub title: String,
    pub url: String,
    pub content: Option<String>,
    pub engine: Option<String>,
    pub published_date: Option<String>,
    pub img_src: Option<String>,
}

/// The mathematical content of a [`MetasearchResult`].
pub struct MetasearchResultView {
    pub title: Seq<char>,
    pub url: Seq<char>,
    pub content: Option<Seq<char>>,
    pub engine: Option<Seq<char>>,
    pub published_date: Option<Seq<char>>,
    pub img_src: Option<Seq<char>>,
}

impl View for MetasearchResult {
    type V = MetasearchResultView;

    open spec fn view(&self) -> MetasearchResultView {
        MetasearchResultView {
            title: self.title@,
            url: self.url@,
            content: self.content.deep_view(),
            engine: self.engine.deep_view(),
            published_date: self.published_date.deep_view(),
            img_src: self.img_src.deep_view(),
        }
    }
}

impl DeepView for MetasearchResult {
    type V = MetasearchResultView;

    open spec fn deep_view(&self) -> MetasearchResultView {
        self@
    }
}

/// The text of an optional field, empty where the field is absent.
pub open spec fn text_or_empty(text: Option<Seq<char>>) -> Seq<char> {
    match text {
        Some(t) => t,
        None => Seq::empty(),
    }
}

/// The document that a metasearch result is stored as: keyed by its address,
/// with the fixed year, genre, rating and language of web content.
pub open spec fn imported_page(result: MetasearchResultView) -> WebResultView {
    WebResultView {
        id: derived_id(result.url) as i64,
        title: result.title,
        title_en: None,
        description: text_or_empty(result.content),
        url: result.url,
        source_engine: result.engine,
        year: 0,
        genres: seq!["web"@],
        rating: Rating { millis: 0 },
        image_url: result.img_src,
        language: "web"@,
        published_date: result.published_date,
    }
}

/// Every derived key is a signed 64-bit number that is not negative.
pub proof fn lemma_derived_id_in_range(url: Seq<char>)
    ensures
        0 <= derived_id(url) <= i64::MAX,
{
}

/// Projects one metasearch result into a document of the web index.
pub fn import_result(result: MetasearchResult) -> (page: WebResult)
    ensures
        page@ == imported_page(result@),
{
    let id: i64 = url_to_id(result.url.as_str());
    let description = match result.content {
        Some(content) => content,
        None => String::new(),
    };
    let mut genres: Vec<String> = Vec::new();
    genres.push(String::from_str("web"));
    assert(genres.deep_view() =~= seq!["web"@]);
    WebResult {
        id,
        title: result.title,
        title_en: None,
        description,
        url: result.url,
        source_engine: result.engine,
        year: 0,
        genres,
        rating: Rating::zero(),
        image_url: result.img_src,
        language: String::from_str("web"),
        published_date: result.published_date,
    }
}

/// Projects metasearch results, in order, into documents of the web index.
pub fn import_results(results: Vec<MetasearchResult>) -> (pages: Vec<WebResult>)
    ensures
        pages.deep_view() == results.deep_view().map_values(
            |r: MetasearchResultView| imported_page(r),
        ),
{
    let ghost all = results;
    let mut pages: Vec<WebResult> = Vec::new();
    for result in it: results.into_iter()
        invariant
            it.seq() == all@,
            pages.len() == it.index(),
            forall|j: int| 0 <= j < pages.len() ==> pages[j]@ == imported_page(#[trigger] all[j]@),
    {
        pages.push(import_result(result));
    }
    assert(pages.deep_view() =~= all.deep_view().map_values(
        |r: MetasearchResultView| imported_page(r),
    ));
    pages
}

/// What `reqwest::StatusCode` prints for the status with number `code`.
pub uninterp spec fn status_line(code: u16) -> Seq<char>;

/// Asks `reqwest::StatusCode::is_success` about the status with number
/// `code`. The contract claims what the crate's source shows: a number
/// outside 100 to 999 is no status, and a status reports success when its
/// number lies in the range from 200 to 299.
#[verifier::external_body]
fn status_is_success(code: u16) -> (success: Option<bool>)
    ensures
        success == if 100 <= code <= 999 {
            Some(200 <= code <= 299)
        } else {
            None
        },
{
    match reqwest::StatusCode::from_u16(code) {
        Ok(status) => Some(status.is_success()),
        Err(_) => None,
    }
}

/// Prints the status with number `code` through the `Display` of
/// `reqwest::StatusCode`: the number and the reason phrase that the crate
/// knows for it. The contract claims that a number outside 100 to 999 is no
/// status, and otherwise only gives the printed text its name.
#[verifier::external_body]
fn status_to_text(code: u16) -> (line: Option<String>)
    ensures
        line is Some <==> 100 <= code <= 999,
        line matches Some(text) ==> text@ == status_line(code),
{
    match reqwest::StatusCode::from_u16(code) {
        Ok(status) => Some(status.to_string()),
        Err(_) => None,
    }
}

/// The status of an HTTP answer: a number from 100 to 999.
#[derive(Clone, Copy, Debug, PartialEq, Eq)]
pub struct HttpStatus {
    code: u16,
}

impl View for HttpStatus {
    type V = u16;

    closed spec fn view(&self) -> u16 {
        self.code
    }
}

impl HttpStatus {
    #[verifier::type_invariant]
    spec fn in_range(self) -> bool {
        100 <= self.code <= 999
    }

    /// Accepts a number as a status if it lies between 100 and 999.
    pub fn new(code: u16) -> (status: Option<HttpStatus>)
        ensures
            status is Some <==> 100 <= code <= 999,
            status matches Some(s) ==> s@ == code,
    {
        if 100 <= code && code <= 999 {
            Some(HttpStatus { code })
        } else {
            None
        }
    }

    /// The number of the status.
    pub fn code(&self) -> (code: u16)
        ensures
            code == self@,
            100 <= code <= 999,
    {
        proof {
            use_type_invariant(self);
        }
        self.code
    }

    /// Tells whether the status reports success: a number from 200 to 299.
    pub fn is_success(&self) -> (success: bool)
        ensures
            success == (200 <= self@ <= 299),
    {
        proof {
            use_type_invariant(self);
        }
        match status_is_success(self.code) {
            Some(success) => success,
            None => false,
        }
    }

    /// The status as printed: its number and reason phrase.
    pub fn line(&self) -> (line: String)
        ensures
            line@ == status_line(self@),
    {
        proof {
            use_type_invariant(self);
        }
        match status_to_text(self.code) {
            Some(line) => line,
            None => String::new(),
        }
    }
}

/// The web index after `documents` have been added or replaced one after
/// the other, each under its primary key.
pub open spec fn upserted(index: Map<i64, WebResultView>, documents: Seq<WebResultView>) -> Map<
    i64,
    WebResultView,
>
    decreases documents.len(),
{
    if documents.len() == 0 {
        index
    } else {
        upserted(index, documents.drop_last()).insert(documents.last().id, documents.last())
    }
}

/// The last of `documents` that has the primary key `id`, if there is one.
pub open spec fn last_with_id(documents: Seq<WebResultView>, id: i64) -> Option<WebResultView>
    decreases documents.len(),
{
    if documents.len() == 0 {
        None
    } else if documents.last().id == id {
        Some(documents.last())
    } else {
        last_with_id(documents.drop_last(), id)
    }
}

/// Two results with the same address are stored under the same primary key.
pub proof fn lemma_same_address_same_key(first: MetasearchResultView, second: MetasearchResultView)
    requires
        first.url == second.url,
    ensures
        imported_page(first).id == imported_page(second).id,
        imported_page(first).id >= 0,
{
}

/// After documents have been written, the index holds under each key the
/// last document written with that key, and what it held before under every
/// other key: the last writer wins, document by document.
pub proof fn lemma_upsert_lookup(
    index: Map<i64, WebResultView>,
    documents: Seq<WebResultView>,
    id: i64,
)
    ensures
        upserted(index, documents).dom().contains(id) <==> (index.dom().contains(id)
            || last_with_id(documents, id) is Some),
        last_with_id(documents, id) matches Some(document) ==> upserted(index, documents)[id]
            == document,
        last_with_id(documents, id) is None ==> upserted(index, documents)[id] == index[id],
    decreases documents.len(),
{
    if documents.len() > 0 {
        lemma_upsert_lookup(index, documents.drop_last(), id);
    }
}

/// Importing the same documents again changes nothing: every address keeps
/// its one document, and no document is added.
pub proof fn lemma_reimport_changes_nothing(
    index: Map<i64, WebResultView>,
    documents: Seq<WebResultView>,
)
    ensures
        upserted(upserted(index, documents), documents) == upserted(index, documents),
{
    let once = upserted(index, documents);
    let twice = upserted(once, documents);
    assert forall|id: i64| once.dom().contains(id) == twice.dom().contains(id) by {
        lemma_upsert_lookup(index, documents, id);
        lemma_upsert_lookup(once, documents, id);
    }
    assert forall|id: i64| once.dom().contains(id) implies once[id] == twice[id] by {
        lemma_upsert_lookup(index, documents, id);
        lemma_upsert_lookup(once, documents, id);
    }
}

/// Importing a page whose address is already in the index adds no document:
/// the index holds the same keys as before, and under the page's key the
/// page as it was imported last.
pub proof fn lemma_same_address_single_document(
    index: Map<i64, WebResultView>,
    first: MetasearchResultView,
    second: MetasearchResultView,
)
    requires
        first.url == second.url,
    ensures
        upserted(index, seq![imported_page(first), imported_page(second)]).dom() == upserted(
            index,
            seq![imported_page(first)],
        ).dom(),
        upserted(index, seq![imported_page(first), imported_page(second)])[imported_page(
            first,
        ).id] == imported_page(second),
{
    let one = seq![imported_page(first)];
    let two = seq![imported_page(first), imported_page(second)];
    assert(two.drop_last() =~= one);
    assert(one.drop_last() =~= Seq::<WebResultView>::empty());
    assert(upserted(index, Seq::<WebResultView>::empty()) == index);
}

} // verus!
