//! Page arithmetic: the fixed page size, page counts, offsets, and the window
//! of page numbers shown around the current page.

use vstd::prelude::*;

verus! {

/// Number of hits on one page of results.
pub const HITS_PER_PAGE: usize = 12;

/// Number of page links shown at once.
pub const WINDOW_SIZE: usize = 5;

/// Pages needed to show `total_hits` hits: the quotient by the page size,
/// rounded up.
pub open spec fn page_count(total_hits: int) -> int {
    if total_hits <= 0 {
        0
    } else {
        (total_hits - 1) / (HITS_PER_PAGE as int) + 1
    }
}

/// Number of hits that lie before the first hit of the 1-based `page`.
pub open spec fn offset_of(page: int) -> int {
    (page - 1) * HITS_PER_PAGE
}

/// The larger of two integers.
pub open spec fn larger(a: int, b: int) -> int {
    if a >= b {
        a
    } else {
        b
    }
}

/// The smaller of two integers.
pub open spec fn smaller(a: int, b: int) -> int {
    if a <= b {
        a
    } else {
        b
    }
}

/// Last page number of the window: a full window past a start that lies half
/// a window before the current page, but no further than the last page.
pub open spec fn window_end(current: int, total: int) -> int {
    smaller(larger(1, current - WINDOW_SIZE / 2) + (WINDOW_SIZE - 1), total)
}

/// First page number of the window, anchored again from its end so that the
/// window keeps its full size near the last page.
pub open spec fn window_start(current: int, total: int) -> int {
    larger(1, window_end(current, total) - (WINDOW_SIZE - 1))
}

/// The page numbers shown: none when there is at most one page, else the run
/// from `window_start` to `window_end`.
pub open spec fn window_pages(current: int, total: int) -> Seq<int> {
    if total <= 1 {
        Seq::empty()
    } else {
        Seq::new(
            (window_end(current, total) - window_start(current, total) + 1) as nat,
            |i: int| window_start(current, total) + i,
        )
    }
}

/// Whether a step back is offered.
pub open spec fn window_has_prev(current: int, total: int) -> bool {
    total > 1 && current > 1
}

/// Whether a step forward is offered.
pub open spec fn window_has_next(current: int, total: int) -> bool {
    total > 1 && current < total
}

/// The visible page numbers and whether steps back and forward are offered.
#[derive(Clone, Debug, PartialEq, Eq)]
pub struct PageWindow {
    pub pages: Vec<usize>,
    pub has_prev: bool,
    pub has_next: bool,
}

impl PageWindow {
    /// The page numbers as mathematical integers.
    pub open spec fn numbers(&self) -> Seq<int> {
        self.pages@.map_values(|p: usize| p as int)
    }
}

/// Computes the number of pages for `total_hits` hits.
pub fn total_pages(total_hits: usize) -> (pages: usize)
    ensures
        pages == page_count(total_hits as int),
{
    if total_hits == 0 {
        0
    } else {
        (total_hits - 1) / HITS_PER_PAGE + 1
    }
}

/// Tells whether `page` is a page number whose offset can be computed: it is
/// at least 1 and the hits before it can be counted.
pub open spec fn page_in_reach(page: usize) -> bool {
    page >= 1 && offset_of(page as int) <= usize::MAX
}

/// Decides `page_in_reach`.
pub fn is_page_in_reach(page: usize) -> (reachable: bool)
    ensures
        reachable == page_in_reach(page),
{
    page >= 1 && page - 1 <= usize::MAX / HITS_PER_PAGE
}

/// Computes the number of hits to skip before the 1-based `page`.
pub fn page_offset(page: usize) -> (offset: usize)
    requires
        page_in_reach(page),
    ensures
        offset == offset_of(page as int),
{
    (page - 1) * HITS_PER_PAGE
}

/// Computes the window of page numbers around `current_page`.
///
/// With at most one page nothing is shown and no step is offered. Otherwise
/// the window starts two before the current page (not before page 1), runs
/// for five pages (not past the last page), and is then anchored again from
/// its end, so that it keeps five entries near the last page whenever there
/// are that many pages.
pub fn page_window(current_page: usize, total_pages: usize) -> (window: PageWindow)
    ensures
        window.numbers() == window_pages(current_page as int, total_pages as int),
        window.has_prev == window_has_prev(current_page as int, total_pages as int),
        window.has_next == window_has_next(current_page as int, total_pages as int),
{
    if total_pages <= 1 {
        return PageWindow { pages: Vec::new(), has_prev: false, has_next: false };
    }
    let naive_start: usize = if current_page > 2 {
        current_page - 2
    } else {
        1
    };
    let end: usize = if naive_start <= total_pages && total_pages - naive_start >= 4 {
        naive_start + 4
    } else {
        total_pages
    };
    let start: usize = if end > 4 {
        end - 4
    } else {
        1
    };
    let count: usize = end - start + 1;
    let mut pages: Vec<usize> = Vec::new();
    let mut i: usize = 0;
    while i < count
        invariant
            count == end - start + 1,
            count <= 5,
            start <= end,
            i <= count,
            pages.len() == i,
            forall|j: int| 0 <= j < pages.len() ==> pages[j] == start + j,
        decreases count - i,
    {
        pages.push(start + i);
        i = i + 1;
    }
    PageWindow { pages, has_prev: current_page > 1, has_next: current_page < total_pages }
}

/// The page that a step back leads to, if there is one.
pub fn previous_page(current_page: usize) -> (target: Option<usize>)
    ensures
        target == if current_page > 1 {
            Some((current_page - 1) as usize)
        } else {
            None
        },
{
    if current_page > 1 {
        Some(current_page - 1)
    } else {
        None
    }
}

/// The page that a step forward leads to, if there is one.
pub fn next_page(current_page: usize, total_pages: usize) -> (target: Option<usize>)
    ensures
        target == if current_page < total_pages {
            Some((current_page + 1) as usize)
        } else {
            None
        },
{
    if current_page < total_pages {
        Some(current_page + 1)
    } else {
        None
    }
}

/// The page count is the quotient by the page size rounded up: it is the
/// least number of pages that hold all hits.
pub proof fn lemma_page_count_is_ceiling(total_hits: int)
    requires
        total_hits >= 0,
    ensures
        page_count(total_hits) * 12 >= total_hits,
        total_hits > 0 ==> (page_count(total_hits) - 1) * 12 < total_hits,
        total_hits == 0 ==> page_count(total_hits) == 0,
{
}

/// Number of hits that a page shows when there are `total_hits` hits: a full
/// page, or what is left behind the page's offset, or nothing.
pub open spec fn hits_on_page(total_hits: int, page: int) -> int {
    smaller(HITS_PER_PAGE as int, larger(0, total_hits - offset_of(page)))
}

/// The pages divide the hits among them: the hit at position `position` lies
/// on exactly one page, and that page is one of the counted pages.
pub proof fn lemma_pages_divide_hits(total_hits: int, position: int, page: int)
    requires
        0 <= position < total_hits,
    ensures
        1 <= position / 12 + 1 <= page_count(total_hits),
        (offset_of(page) <= position < offset_of(page) + HITS_PER_PAGE) <==> page == position / 12
            + 1,
{
}

/// The last page shows what the pages before it leave over, at least one hit
/// and at most a full page; every page before it is full, and a page behind
/// it shows nothing.
pub proof fn lemma_last_page_shows_the_rest(total_hits: int, page: int)
    requires
        total_hits > 0,
        page >= 1,
    ensures
        page < page_count(total_hits) ==> hits_on_page(total_hits, page) == HITS_PER_PAGE,
        page == page_count(total_hits) ==> hits_on_page(total_hits, page) == total_hits
            - HITS_PER_PAGE * (page - 1),
        page == page_count(total_hits) ==> 1 <= hits_on_page(total_hits, page) <= HITS_PER_PAGE,
        page > page_count(total_hits) ==> hits_on_page(total_hits, page) == 0,
{
}

/// Without pages there is no window and no step in either direction.
pub proof fn lemma_window_empty_without_pages(current: int, total: int)
    requires
        total <= 0,
    ensures
        window_pages(current, total).len() == 0,
        !window_has_prev(current, total),
        !window_has_next(current, total),
{
}

/// With two to five pages the window shows every page, wherever the current
/// page lies.
pub proof fn lemma_window_shows_all_of_few_pages(current: int, total: int)
    requires
        2 <= total <= 5,
    ensures
        window_pages(current, total) == Seq::new(total as nat, |i: int| 1 + i),
{
}

/// With more than five pages the window holds exactly five consecutive page
/// numbers within the page range, and it ends at the last page whenever the
/// current page is within two of it.
pub proof fn lemma_window_of_many_pages(current: int, total: int)
    requires
        total > 5,
    ensures
        window_pages(current, total).len() == 5,
        forall|i: int|
            0 <= i < 5 ==> #[trigger] window_pages(current, total)[i] == window_pages(
                current,
                total,
            )[0] + i,
        1 <= window_pages(current, total)[0],
        window_pages(current, total)[4] <= total,
        current >= total - 2 ==> window_pages(current, total).last() == total,
{
}

/// With more than five pages the window contains the current page, provided
/// that the current page is one of the pages.
pub proof fn lemma_window_contains_current(current: int, total: int)
    requires
        total > 5,
        1 <= current <= total,
    ensures
        window_pages(current, total).contains(current),
{
    let start = window_start(current, total);
    assert(window_pages(current, total)[current - start] == current);
}

} // verus!
