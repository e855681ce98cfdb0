//! Projects the documents of each domain into the unified hit shape, keeping
//! their order.

use crate::model::{
    Book, BookView, Domain, Movie, MovieView, SearchHit, SearchHitView, WebResult, WebResultView,
};
use vstd::prelude::*;

verus! {

/// The hit that stands for a movie: its director is the creator, its poster
/// the image.
pub open spec fn movie_hit(movie: MovieView) -> SearchHitView {
    SearchHitView {
        id: movie.id,
        title: movie.title,
        title_en: movie.title_en,
        description: movie.description,
        creator: movie.director,
        year: movie.year,
        genres: movie.genres,
        rating: movie.rating,
        image_url: movie.poster_url,
        language: movie.language,
        domain: Domain::Movies,
    }
}

/// The hit that stands for a book: its author is the creator, its cover the
/// image.
pub open spec fn book_hit(book: BookView) -> SearchHitView {
    SearchHitView {
        id: book.id,
        title: book.title,
        title_en: book.title_en,
        description: book.description,
        creator: book.author,
        year: book.year,
        genres: book.genres,
        rating: book.rating,
        image_url: book.cover_url,
        language: book.language,
        domain: Domain::Books,
    }
}

/// The hit that stands for a web page: its address is the creator.
pub open spec fn web_hit(page: WebResultView) -> SearchHitView {
    SearchHitView {
        id: page.id,
        title: page.title,
        title_en: page.title_en,
        description: page.description,
        creator: page.url,
        year: page.year,
        genres: page.genres,
        rating: page.rating,
        image_url: page.image_url,
        language: page.language,
        domain: Domain::Web,
    }
}

/// Projects one movie.
pub fn normalize_movie(movie: Movie) -> (hit: SearchHit)
    ensures
        hit@ == movie_hit(movie@),
{
    SearchHit {
        id: movie.id,
        title: movie.title,
        title_en: movie.title_en,
        description: movie.description,
        creator: movie.director,
        year: movie.year,
        genres: movie.genres,
        rating: movie.rating,
        image_url: movie.poster_url,
        language: movie.language,
        domain: Domain::Movies,
    }
}

/// Projects movies in order.
pub fn normalize_movies(movies: Vec<Movie>) -> (hits: Vec<SearchHit>)
    ensures
        hits.deep_view() == movies.deep_view().map_values(|m: MovieView| movie_hit(m)),
{
    let ghost all = movies;
    let mut hits: Vec<SearchHit> = Vec::new();
    for movie in it: movies.into_iter()
        invariant
            it.seq() == all@,
            hits.len() == it.index(),
            forall|j: int| 0 <= j < hits.len() ==> hits[j]@ == movie_hit(#[trigger] all[j]@),
    {
        hits.push(normalize_movie(movie));
    }
    hits
}

/// Projects one book.
pub fn normalize_book(book: Book) -> (hit: SearchHit)
    ensures
        hit@ == book_hit(book@),
{
    SearchHit {
        id: book.id,
        title: book.title,
        title_en: book.title_en,
        description: book.description,
        creator: book.author,
        year: book.year,
        genres: book.genres,
        rating: book.rating,
        image_url: book.cover_url,
        language: book.language,
        domain: Domain::Books,
    }
}

/// Projects books in order.
pub fn normalize_books(books: Vec<Book>) -> (hits: Vec<SearchHit>)
    ensures
        hits.deep_view() == books.deep_view().map_values(|b: BookView| book_hit(b)),
{
    let ghost all = books;
    let mut hits: Vec<SearchHit> = Vec::new();
    for book in it: books.into_iter()
        invariant
            it.seq() == all@,
            hits.len() == it.index(),
            forall|j: int| 0 <= j < hits.len() ==> hits[j]@ == book_hit(#[trigger] all[j]@),
    {
        hits.push(normalize_book(book));
    }
    hits
}

/// Projects one web page.
pub fn normalize_web_result(page: WebResult) -> (hit: SearchHit)
    ensures
        hit@ == web_hit(page@),
{
    SearchHit {
        id: page.id,
        title: page.title,
        title_en: page.title_en,
        description: page.description,
        creator: page.url,
        year: page.year,
        genres: page.genres,
        rating: page.rating,
        image_url: page.image_url,
        language: page.language,
        domain: Domain::Web,
    }
}

/// Projects web pages in order.
pub fn normalize_web_results(pages: Vec<WebResult>) -> (hits: Vec<SearchHit>)
    ensures
        hits.deep_view() == pages.deep_view().map_values(|w: WebResultView| web_hit(w)),
{
    let ghost all = pages;
    let mut hits: Vec<SearchHit> = Vec::new();
    for page in it: pages.into_iter()
        invariant
            it.seq() == all@,
            hits.len() == it.index(),
            forall|j: int| 0 <= j < hits.len() ==> hits[j]@ == web_hit(#[trigger] all[j]@),
    {
        hits.push(normalize_web_result(page));
    }
    hits
}

/// The documents of one page of engine results, all of one domain, in the
/// engine's ranking order.
#[derive(Clone, Debug, PartialEq, Eq)]
pub enum Documents {
    Movies(Vec<Movie>),
    Books(Vec<Book>),
    Web(Vec<WebResult>),
}

/// The mathematical content of [`Documents`].
pub enum DocumentsView {
    Movies(Seq<MovieView>),
    Books(Seq<BookView>),
    Web(Seq<WebResultView>),
}

impl View for Documents {
    type V = DocumentsView;

    open spec fn view(&self) -> DocumentsView {
        match self {
            Documents::Movies(movies) => DocumentsView::Movies(movies.deep_view()),
            Documents::Books(books) => DocumentsView::Books(books.deep_view()),
            Documents::Web(pages) => DocumentsView::Web(pages.deep_view()),
        }
    }
}

impl DeepView for Documents {
    type V = DocumentsView;

    open spec fn deep_view(&self) -> DocumentsView {
        self@
    }
}

impl DocumentsView {
    /// The domain that the documents belong to.
    pub open spec fn domain(self) -> Domain {
        match self {
            DocumentsView::Movies(_) => Domain::Movies,
            DocumentsView::Books(_) => Domain::Books,
            DocumentsView::Web(_) => Domain::Web,
        }
    }

    /// The number of documents.
    pub open spec fn len(self) -> nat {
        match self {
            DocumentsView::Movies(movies) => movies.len(),
            DocumentsView::Books(books) => books.len(),
            DocumentsView::Web(pages) => pages.len(),
        }
    }

    /// The primary keys of the documents, in order.
    pub open spec fn ids(self) -> Seq<i64> {
        match self {
            DocumentsView::Movies(movies) => movies.map_values(|m: MovieView| m.id),
            DocumentsView::Books(books) => books.map_values(|b: BookView| b.id),
            DocumentsView::Web(pages) => pages.map_values(|w: WebResultView| w.id),
        }
    }
}

impl Documents {
    /// The domain that the documents belong to.
    pub fn domain(&self) -> (domain: Domain)
        ensures
            domain == self@.domain(),
    {
        match self {
            Documents::Movies(_) => Domain::Movies,
            Documents::Books(_) => Domain::Books,
            Documents::Web(_) => Domain::Web,
        }
    }

    /// The number of documents.
    pub fn len(&self) -> (count: usize)
        ensures
            count == self@.len(),
    {
        match self {
            Documents::Movies(movies) => movies.len(),
            Documents::Books(books) => books.len(),
            Documents::Web(pages) => pages.len(),
        }
    }
}

/// The hits of a page of documents: each document projected by the rule of
/// its domain, in the same order.
pub open spec fn normalized(documents: DocumentsView) -> Seq<SearchHitView> {
    match documents {
        DocumentsView::Movies(movies) => movies.map_values(|m: MovieView| movie_hit(m)),
        DocumentsView::Books(books) => books.map_values(|b: BookView| book_hit(b)),
        DocumentsView::Web(pages) => pages.map_values(|w: WebResultView| web_hit(w)),
    }
}

/// Projects a page of documents into unified hits.
///
/// Nothing is filtered and nothing is reordered: hit `i` is the projection of
/// document `i`. Optional fields that a document lacks stay absent.
pub fn normalize(documents: Documents) -> (hits: Vec<SearchHit>)
    ensures
        hits.deep_view() == normalized(documents@),
{
    match documents {
        Documents::Movies(movies) => normalize_movies(movies),
        Documents::Books(books) => normalize_books(books),
        Documents::Web(pages) => normalize_web_results(pages),
    }
}

/// Normalizing keeps the number of documents, their order and their domain:
/// hit `i` carries the primary key of document `i`.
pub proof fn lemma_normalize_keeps_order(documents: DocumentsView)
    ensures
        normalized(documents).len() == documents.len(),
        forall|i: int|
            0 <= i < documents.len() ==> (#[trigger] normalized(documents)[i]).id
                == documents.ids()[i],
        forall|i: int|
            0 <= i < documents.len() ==> (#[trigger] normalized(documents)[i]).domain
                == documents.domain(),
{
}

/// A movie's hit keeps its key, title and genres, names the director as
/// creator, and keeps each optional field as it was, present or absent.
pub proof fn lemma_movie_hit_preserves(movie: MovieView)
    ensures
        movie_hit(movie).id == movie.id,
        movie_hit(movie).title == movie.title,
        movie_hit(movie).genres.to_set() == movie.genres.to_set(),
        movie_hit(movie).creator == movie.director,
        movie_hit(movie).domain == Domain::Movies,
        movie_hit(movie).title_en == movie.title_en,
        movie_hit(movie).image_url == movie.poster_url,
{
}

/// A book's hit keeps its key, title and genres, names the author as creator,
/// and keeps each optional field as it was, present or absent.
pub proof fn lemma_book_hit_preserves(book: BookView)
    ensures
        book_hit(book).id == book.id,
        book_hit(book).title == book.title,
        book_hit(book).genres.to_set() == book.genres.to_set(),
        book_hit(book).creator == book.author,
        book_hit(book).domain == Domain::Books,
        book_hit(book).title_en == book.title_en,
        book_hit(book).image_url == book.cover_url,
{
}

/// A web page's hit keeps its key, title and genres, names the address as
/// creator, and keeps each optional field as it was, present or absent.
pub proof fn lemma_web_hit_preserves(page: WebResultView)
    ensures
        web_hit(page).id == page.id,
        web_hit(page).title == page.title,
        web_hit(page).genres.to_set() == page.genres.to_set(),
        web_hit(page).creator == page.url,
        web_hit(page).domain == Domain::Web,
        web_hit(page).title_en == page.title_en,
        web_hit(page).image_url == page.image_url,
{
}

} // verus!
