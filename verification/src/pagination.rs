//! Paging and search over the rows of any resource: which rows a search
//! keeps, which of them a page shows, and how many there are in all.

use vstd::prelude::*;
use vstd::string::*;

use crate::error::ServiceError;
use crate::record::Record;
use crate::text::opt_string;

verus! {

/// The page that a listing shows where the client names none.
pub const DEFAULT_PAGE: i32 = 1;

/// The number of rows on a page where the client names none.
pub const DEFAULT_PAGE_SIZE: i32 = 10;

/// Which page of a listing is asked for, and what the rows must hold.
#[derive(Debug, Clone, PartialEq)]
pub struct PageRequest {
    pub page: i32,
    pub page_size: i32,
    pub search: Option<String>,
}

/// The part of the matching rows that a page shows: `limit` rows at most,
/// after the first `offset`.
#[derive(Debug, Clone, Copy, PartialEq, Eq, Structural)]
pub struct PageWindow {
    pub offset: u64,
    pub limit: u64,
}

/// One page of a listing, with the number of all rows that match.
#[derive(Debug, PartialEq)]
pub struct PageResult<T> {
    pub items: Vec<T>,
    pub total_count: i64,
}

/// The number of matching rows before the first one of a page.
pub open spec fn spec_offset(page: int, page_size: int) -> int {
    (page - 1) * page_size
}

/// The rows that a search keeps: all of them without a term, else those
/// whose searched text holds the term, in the order of the store.
pub open spec fn spec_search<T: Record>(rows: Seq<T>, term: Option<Seq<char>>) -> Seq<T> {
    match term {
        Some(t) => rows.filter(|row: T| crate::text::is_substring(t, row.search_text())),
        None => rows,
    }
}

/// The index at which a window that skips `offset` rows starts among
/// `count` rows.
pub open spec fn spec_start(count: int, offset: int) -> int {
    if offset < count {
        offset
    } else {
        count
    }
}

/// The index at which a window of `limit` rows that skips `offset` rows ends
/// among `count` rows.
pub open spec fn spec_end(count: int, offset: int, limit: int) -> int {
    if spec_start(count, offset) + limit < count {
        spec_start(count, offset) + limit
    } else {
        count
    }
}

/// The rows of `rows` from index `offset` on, `limit` at most.
pub open spec fn spec_window<T>(rows: Seq<T>, offset: int, limit: int) -> Seq<T> {
    rows.subrange(
        spec_start(rows.len() as int, offset),
        spec_end(rows.len() as int, offset, limit),
    )
}

/// The rows of `rows` that page `page` shows.
pub open spec fn spec_page<T>(rows: Seq<T>, page: int, page_size: int) -> Seq<T> {
    spec_window(rows, spec_offset(page, page_size), page_size)
}

impl PageRequest {
    /// A request asks for a page that exists in principle: pages count from
    /// one, and a page holds at least one row.
    pub open spec fn wf(&self) -> bool {
        self.page >= 1 && self.page_size >= 1
    }

    /// The request for page `page` of `page_size` rows, if both are at
    /// least one.
    pub fn new(page: i32, page_size: i32, search: Option<String>) -> (request: Option<Self>)
        ensures
            request is Some <==> page >= 1 && page_size >= 1,
            request matches Some(r) ==> r.page == page && r.page_size == page_size && r.search
                == search,
    {
        if page >= 1 && page_size >= 1 {
            Some(PageRequest { page, page_size, search })
        } else {
            None
        }
    }

    /// The same as `new`, for a request that a client sent: one that asks
    /// for a page or a size below one fails validation.
    pub fn checked(page: i32, page_size: i32, search: Option<String>) -> (request: Result<
        Self,
        ServiceError,
    >)
        ensures
            request is Ok <==> page >= 1 && page_size >= 1,
            request matches Ok(r) ==> r.page == page && r.page_size == page_size && r.search
                == search,
            request matches Err(e) ==> (e matches ServiceError::ValidationFailed(text) && text@
                == "page and page_size must be at least 1"@),
    {
        match PageRequest::new(page, page_size, search) {
            Some(request) => Ok(request),
            None => Err(
                ServiceError::ValidationFailed(
                    String::from_str("page and page_size must be at least 1"),
                ),
            ),
        }
    }

    /// The window of this request.
    pub fn window(&self) -> (window: PageWindow)
        requires
            self.wf(),
        ensures
            window.offset == spec_offset(self.page as int, self.page_size as int),
            window.limit == self.page_size,
    {
        page_window(self.page, self.page_size)
    }
}

/// The window of page `page` where a page holds `page_size` rows.
pub fn page_window(page: i32, page_size: i32) -> (window: PageWindow)
    requires
        page >= 1,
        page_size >= 1,
    ensures
        window.offset == spec_offset(page as int, page_size as int),
        window.limit == page_size,
{
    let before: u64 = (page - 1) as u64;
    let size: u64 = page_size as u64;
    assert(before * size <= 0x7fff_ffff * 0x7fff_ffff) by (nonlinear_arith)
        requires
            before <= 0x7fff_ffff,
            size <= 0x7fff_ffff,
    ;
    PageWindow { offset: before * size, limit: size }
}

impl PageWindow {
    /// Where the window starts and ends among `count` rows.
    pub fn bounds(&self, count: usize) -> (bounds: (usize, usize))
        ensures
            bounds.0 <= bounds.1 <= count,
            bounds.0 == spec_start(count as int, self.offset as int),
            bounds.1 == spec_end(count as int, self.offset as int, self.limit as int),
    {
        let start: usize = if self.offset < count as u64 {
            self.offset as usize
        } else {
            count
        };
        let room: usize = count - start;
        let end: usize = if self.limit < room as u64 {
            start + self.limit as usize
        } else {
            count
        };
        (start, end)
    }
}

/// The rows that a search keeps, copied in the order of the store.
pub fn search<T: Record>(rows: &Vec<T>, term: &Option<String>) -> (kept: Vec<T>)
    ensures
        kept@ == spec_search(rows@, opt_string(*term)),
{
    let mut kept: Vec<T> = Vec::new();
    let mut i: usize = 0;
    match term {
        Some(t) => {
            let ghost keep = |row: T| crate::text::is_substring(t@, row.search_text());
            while i < rows.len()
                invariant
                    i <= rows.len(),
                    keep == |row: T| crate::text::is_substring(t@, row.search_text()),
                    kept@ == rows@.subrange(0, i as int).filter(keep),
                decreases rows.len() - i,
            {
                proof {
                    let upto = rows@.subrange(0, i + 1);
                    assert(upto.drop_last() =~= rows@.subrange(0, i as int));
                    assert(upto.last() == rows@[i as int]);
                    reveal_with_fuel(Seq::filter, 2);
                }
                if rows[i].matches(t.as_str()) {
                    kept.push(rows[i].duplicate());
                }
                i = i + 1;
            }
            assert(rows@.subrange(0, i as int) =~= rows@);
        },
        None => {
            while i < rows.len()
                invariant
                    i <= rows.len(),
                    kept@ == rows@.subrange(0, i as int),
                decreases rows.len() - i,
            {
                kept.push(rows[i].duplicate());
                assert(kept@ =~= rows@.subrange(0, i + 1));
                i = i + 1;
            }
            assert(rows@.subrange(0, i as int) =~= rows@);
        },
    }
    kept
}

/// The rows of `rows` that lie in `window`, copied in order.
pub fn window_of<T: Record>(rows: &Vec<T>, window: PageWindow) -> (items: Vec<T>)
    ensures
        items@ == spec_window(rows@, window.offset as int, window.limit as int),
{
    let (start, end) = window.bounds(rows.len());
    let mut items: Vec<T> = Vec::new();
    let mut i: usize = start;
    while i < end
        invariant
            start <= i <= end <= rows.len(),
            items@ == rows@.subrange(start as int, i as int),
        decreases end - i,
    {
        items.push(rows[i].duplicate());
        assert(items@ =~= rows@.subrange(start as int, i + 1));
        i = i + 1;
    }
    items
}

/// `items` and `total_count` are the listing of `rows` for a search and a
/// page: the rows of that page among those that the search keeps, and the
/// number of all rows that it keeps.
pub open spec fn is_listing<T: Record>(
    rows: Seq<T>,
    term: Option<Seq<char>>,
    page: int,
    page_size: int,
    items: Seq<T>,
    total_count: int,
) -> bool {
    &&& items == spec_page(spec_search(rows, term), page, page_size)
    &&& total_count == spec_search(rows, term).len()
}

/// One page of the rows that a search keeps, and the number of all rows
/// that it keeps.
pub fn list<T: Record>(rows: &Vec<T>, request: &PageRequest) -> (result: PageResult<T>)
    requires
        request.wf(),
        rows.len() <= i64::MAX,
    ensures
        is_listing(
            rows@,
            opt_string(request.search),
            request.page as int,
            request.page_size as int,
            result.items@,
            result.total_count as int,
        ),
        result.items@.len() <= request.page_size,
        result.items@.len() <= result.total_count,
{
    proof {
        lemma_page_bounds(
            spec_search(rows@, opt_string(request.search)),
            request.page as int,
            request.page_size as int,
        );
    }
    let kept = search(rows, &request.search);
    proof {
        lemma_search_len(rows@, opt_string(request.search));
    }
    let items = window_of(&kept, request.window());
    PageResult { items, total_count: kept.len() as i64 }
}

/// A search keeps no more rows than there are.
pub proof fn lemma_search_len<T: Record>(rows: Seq<T>, term: Option<Seq<char>>)
    ensures
        spec_search(rows, term).len() <= rows.len(),
{
    match term {
        Some(t) => {
            rows.lemma_filter_len(|row: T| crate::text::is_substring(t, row.search_text()));
        },
        None => {},
    }
}

/// The offset of a page is never negative, and a page never shows more
/// rows than it holds.
pub proof fn lemma_page_bounds<T>(rows: Seq<T>, page: int, page_size: int)
    requires
        page >= 1,
        page_size >= 1,
    ensures
        spec_offset(page, page_size) >= 0,
        spec_page(rows, page, page_size).len() <= page_size,
        spec_page(rows, page, page_size).len() <= rows.len(),
{
    assert(spec_offset(page, page_size) >= 0) by (nonlinear_arith)
        requires
            page >= 1,
            page_size >= 1,
    ;
}

/// The row at index `i` of a page is the matching row at index `offset + i`.
pub proof fn lemma_page_rows<T>(rows: Seq<T>, page: int, page_size: int, i: int)
    requires
        page >= 1,
        page_size >= 1,
        0 <= i < spec_page(rows, page, page_size).len(),
    ensures
        spec_offset(page, page_size) + i < rows.len(),
        spec_page(rows, page, page_size)[i] == rows[spec_offset(page, page_size) + i],
{
    lemma_page_bounds(rows, page, page_size);
}

/// The count of a listing is the number of rows that the search keeps,
/// whatever page is asked for: two listings of the same rows for the same
/// search report the same count.
pub proof fn lemma_total_ignores_page<T: Record>(
    rows: Seq<T>,
    term: Option<Seq<char>>,
    page: int,
    page_size: int,
    items: Seq<T>,
    total_count: int,
    other_page: int,
    other_page_size: int,
    other_items: Seq<T>,
    other_total_count: int,
)
    requires
        is_listing(rows, term, page, page_size, items, total_count),
        is_listing(rows, term, other_page, other_page_size, other_items, other_total_count),
    ensures
        total_count == other_total_count,
        total_count == spec_search(rows, term).len(),
        total_count <= rows.len(),
{
    lemma_search_len(rows, term);
}

/// The count of a listing is never less than the number of rows shown.
pub proof fn lemma_total_covers_items<T: Record>(
    rows: Seq<T>,
    term: Option<Seq<char>>,
    page: int,
    page_size: int,
    items: Seq<T>,
    total_count: int,
)
    requires
        page >= 1,
        page_size >= 1,
        is_listing(rows, term, page, page_size, items, total_count),
    ensures
        items.len() <= total_count,
        items.len() <= page_size,
{
    lemma_page_bounds(spec_search(rows, term), page, page_size);
}

/// A page beyond the last one shows no row, and its count is still the
/// number of rows that the search keeps.
pub proof fn lemma_page_beyond_last<T: Record>(
    rows: Seq<T>,
    term: Option<Seq<char>>,
    page: int,
    page_size: int,
    items: Seq<T>,
    total_count: int,
)
    requires
        page >= 1,
        page_size >= 1,
        is_listing(rows, term, page, page_size, items, total_count),
        spec_offset(page, page_size) >= spec_search(rows, term).len(),
    ensures
        items == Seq::<T>::empty(),
        total_count == spec_search(rows, term).len(),
{
    assert(items =~= Seq::<T>::empty());
}

/// A row that the search keeps is a row of the store whose searched text
/// holds the term.
pub proof fn lemma_search_keeps_matches<T: Record>(rows: Seq<T>, term: Seq<char>, i: int)
    requires
        0 <= i < spec_search(rows, Some(term)).len(),
    ensures
        crate::text::is_substring(term, spec_search(rows, Some(term))[i].search_text()),
        rows.contains(spec_search(rows, Some(term))[i]),
{
    let keep = |row: T| crate::text::is_substring(term, row.search_text());
    let kept = rows.filter(keep);
    rows.lemma_filter_pred(keep, i);
    assert(kept.contains(kept[i]));
    rows.lemma_filter_contains_rev(keep, kept[i]);
}

/// Every row of the store whose searched text holds the term is kept.
pub proof fn lemma_search_keeps_all<T: Record>(rows: Seq<T>, term: Seq<char>, k: int)
    requires
        0 <= k < rows.len(),
        crate::text::is_substring(term, rows[k].search_text()),
    ensures
        spec_search(rows, Some(term)).contains(rows[k]),
{
    rows.lemma_filter_contains(|row: T| crate::text::is_substring(term, row.search_text()), k);
}

} // verus!
