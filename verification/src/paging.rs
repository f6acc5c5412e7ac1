//! Cutting an ordered result into pages.
//!
//! A listing is read in two statements: a count, from which the number of
//! pages follows, and, if the requested page exists, the rows of its window.

use crate::error::{DatabaseError, ErrorView};
use crate::protocol::{
    internal, unexpected, unexpected_reply, Listing, ListingView, Reply, ReplyView, Statement,
    StatementView,
};
use vstd::prelude::*;

verus! {

/// Rows on a page of items or of users.
pub const CATALOG_PAGE_SIZE: i64 = 12;

/// Rows on a page of reviews.
pub const RATINGS_PAGE_SIZE: i64 = 3;

/// The largest page size the arithmetic is proved for.
pub const MAX_PAGE_SIZE: i64 = 0x1_0000_0000;

/// Pages needed for `count` rows at `size` rows a page: the quotient,
/// rounded up.
pub open spec fn pages_needed(count: int, size: int) -> int {
    if count % size == 0 {
        count / size
    } else {
        count / size + 1
    }
}

/// The count that a count reply stands for; no value counts as zero.
pub open spec fn counted(count: Option<i64>) -> int {
    match count {
        Some(rows) => rows as int,
        None => 0,
    }
}

/// The page asked for when none is named: the first.
pub open spec fn requested_page(page_number: Option<i32>) -> int {
    match page_number {
        Some(page) => page as int,
        None => 0,
    }
}

/// Whether a count can be paged: it is not negative and its pages can be
/// numbered in an `i32`.
pub open spec fn count_in_range(count: int, size: int) -> bool {
    0 <= count && pages_needed(count, size) <= i32::MAX
}

/// The cause recorded for a count that cannot be paged.
pub open spec fn count_out_of_range() -> Seq<char> {
    "the store reported a row count that cannot be paged"@
}

/// Where a paged read stands.
pub enum Paging {
    /// Run this statement next.
    Ask(Statement),
    /// The requested page does not exist.
    NoPage,
    /// The read failed.
    Failed(DatabaseError),
    /// The second reply of the transcript answers for the rows of page
    /// `page` out of `pages`.
    Window { page: i32, pages: i32 },
}

/// Mathematical value of a [`Paging`].
pub enum PagingView {
    Ask(StatementView),
    NoPage,
    Failed(ErrorView),
    Window { page: i32, pages: i32 },
}

impl DeepView for Paging {
    type V = PagingView;

    open spec fn deep_view(&self) -> PagingView {
        match self {
            Paging::Ask(statement) => PagingView::Ask(statement.deep_view()),
            Paging::NoPage => PagingView::NoPage,
            Paging::Failed(error) => PagingView::Failed(error.deep_view()),
            Paging::Window { page, pages } => PagingView::Window { page: *page, pages: *pages },
        }
    }
}

/// What a paged read does once the count is known.
pub open spec fn paging_after_count(
    listing: ListingView,
    size: i64,
    page_number: Option<i32>,
    count: int,
    rows_read: bool,
) -> PagingView {
    let page = requested_page(page_number);
    let pages = pages_needed(count, size as int);
    if !count_in_range(count, size as int) {
        PagingView::Failed(ErrorView::InternalError(count_out_of_range()))
    } else if !(0 <= page < pages) {
        PagingView::NoPage
    } else if !rows_read {
        PagingView::Ask(
            StatementView::List { listing, limit: size, offset: (size * page) as i64 },
        )
    } else {
        PagingView::Window { page: page as i32, pages: pages as i32 }
    }
}

/// What a paged read does next, given the replies so far.
pub open spec fn paging_step(
    listing: ListingView,
    size: i64,
    page_number: Option<i32>,
    transcript: Seq<ReplyView>,
) -> PagingView {
    if transcript.len() == 0 {
        PagingView::Ask(StatementView::Count { listing })
    } else {
        match transcript[0] {
            ReplyView::Count(count) => paging_after_count(
                listing,
                size,
                page_number,
                counted(count),
                transcript.len() > 1,
            ),
            ReplyView::Failed(failure) => PagingView::Failed(
                ErrorView::InternalError(failure.detail),
            ),
            _ => PagingView::Failed(ErrorView::InternalError(unexpected_reply())),
        }
    }
}

/// The number of pages for a count, or `None` for a count that cannot be
/// paged.
pub fn number_of_pages(count: i64, size: i64) -> (pages: Option<i32>)
    requires
        0 < size <= MAX_PAGE_SIZE,
    ensures
        pages is Some <==> count_in_range(count as int, size as int),
        pages is Some ==> pages->0 == pages_needed(count as int, size as int),
{
    if count < 0 {
        return None;
    }
    let full: i64 = count / size;
    let rest: i64 = count % size;
    let needed: i64 = if rest == 0 {
        full
    } else {
        assert(full < count) by (nonlinear_arith)
            requires
                0 <= count,
                0 < size,
                full == count / size,
                count % size != 0,
        ;
        full + 1
    };
    if needed > i32::MAX as i64 {
        None
    } else {
        Some(needed as i32)
    }
}

/// Decides the next step of a paged read of `listing`, `size` rows a page.
///
/// With no reply yet it asks for the count. A page index outside
/// `0..pages` gives [`Paging::NoPage`]; that includes every request against
/// an empty listing. Otherwise it asks for the window that starts at row
/// `size * page`, and after that points at the rows.
pub fn paging(listing: Listing, size: i64, page_number: Option<i32>, transcript: &Vec<Reply>) -> (next:
    Paging)
    requires
        0 < size <= MAX_PAGE_SIZE,
    ensures
        next.deep_view() == paging_step(
            listing.deep_view(),
            size,
            page_number,
            transcript.deep_view(),
        ),
        next matches Paging::Window { page, pages } ==> transcript.len() > 1 && 0 <= page < pages,
{
    if transcript.len() == 0 {
        return Paging::Ask(Statement::Count { listing });
    }
    let count: i64 = match &transcript[0] {
        Reply::Count(Some(rows)) => *rows,
        Reply::Count(None) => 0,
        Reply::Failed(failure) => {
            return Paging::Failed(internal(failure));
        },
        _ => {
            return Paging::Failed(unexpected());
        },
    };
    let page: i32 = match page_number {
        Some(page) => page,
        None => 0,
    };
    match number_of_pages(count, size) {
        None => Paging::Failed(
            DatabaseError::InternalError(
                "the store reported a row count that cannot be paged".to_owned(),
            ),
        ),
        Some(pages) => {
            if page < 0 || page >= pages {
                Paging::NoPage
            } else if transcript.len() == 1 {
                assert(0 <= size * page <= MAX_PAGE_SIZE * i32::MAX) by (nonlinear_arith)
                    requires
                        0 < size <= MAX_PAGE_SIZE,
                        0 <= page <= i32::MAX,
                ;
                Paging::Ask(Statement::List { listing, limit: size, offset: size * (page as i64) })
            } else {
                Paging::Window { page, pages }
            }
        },
    }
}

/// The rows the store returns for a window of an ordered result: up to
/// `limit` rows after the first `offset`.
pub open spec fn window<V>(all: Seq<V>, limit: int, offset: int) -> Seq<V> {
    let start = if offset < all.len() {
        offset
    } else {
        all.len() as int
    };
    let end = if offset + limit < all.len() {
        offset + limit
    } else {
        all.len() as int
    };
    all.subrange(start, end)
}

/// The rows of one page of an ordered result.
pub open spec fn page_rows<V>(all: Seq<V>, size: int, page: int) -> Seq<V> {
    window(all, size, size * page)
}

/// The first `pages` pages of an ordered result, one after the other.
pub open spec fn pages_joined<V>(all: Seq<V>, size: int, pages: nat) -> Seq<V>
    decreases pages,
{
    if pages == 0 {
        Seq::empty()
    } else {
        pages_joined(all, size, (pages - 1) as nat) + page_rows(all, size, pages - 1)
    }
}

/// The pages needed for a count are just enough: the last page is not
/// empty, and no row is left over.
pub proof fn lemma_pages_cover(count: int, size: int)
    requires
        0 <= count,
        0 < size,
    ensures
        0 <= pages_needed(count, size),
        pages_needed(count, size) == 0 <==> count == 0,
        size * (pages_needed(count, size) - 1) < count || count == 0,
        count <= size * pages_needed(count, size),
{
    assert(count == size * (count / size) + count % size && 0 <= count % size < size && 0 <= count
        / size) by (nonlinear_arith)
        requires
            0 <= count,
            0 < size,
    ;
    let pages = pages_needed(count, size);
    if count % size == 0 {
        assert(size * (pages - 1) == size * pages - size) by (nonlinear_arith);
    } else {
        assert(size * pages == size * (count / size) + size) by (nonlinear_arith)
            requires
                pages == count / size + 1,
        ;
        assert(size * (pages - 1) == size * (count / size)) by (nonlinear_arith)
            requires
                pages == count / size + 1,
        ;
    }
    if count == 0 {
        assert(0int / size == 0 && 0int % size == 0) by (nonlinear_arith)
            requires
                0 < size,
        ;
    }
}

/// Every existing page holds `size` rows, but for the last, which holds
/// what remains; no existing page is empty.
pub proof fn law_page_length<V>(all: Seq<V>, size: int, page: int)
    requires
        0 < size,
        0 <= page < pages_needed(all.len() as int, size),
    ensures
        page_rows(all, size, page).len() == if all.len() - size * page < size {
            all.len() - size * page
        } else {
            size
        },
        page_rows(all, size, page).len() > 0,
        page_rows(all, size, page) == all.subrange(
            size * page,
            size * page + page_rows(all, size, page).len(),
        ),
{
    let count = all.len() as int;
    let pages = pages_needed(count, size);
    lemma_pages_cover(count, size);
    assert(size * page <= size * (pages - 1) && 0 <= size * page) by (nonlinear_arith)
        requires
            0 < size,
            0 <= page <= pages - 1,
    ;
}

/// The first `pages` pages, joined, are the rows before the end of the
/// last of them.
proof fn lemma_pages_joined<V>(all: Seq<V>, size: int, pages: nat)
    requires
        0 < size,
        pages <= pages_needed(all.len() as int, size),
    ensures
        pages_joined(all, size, pages) == all.subrange(
            0,
            if size * pages < all.len() {
                size * pages
            } else {
                all.len() as int
            },
        ),
    decreases pages,
{
    let count = all.len() as int;
    lemma_pages_cover(count, size);
    if pages == 0 {
        assert(size * 0 == 0) by (nonlinear_arith);
        assert(pages_joined(all, size, pages) =~= all.subrange(0, 0));
    } else {
        let before = (pages - 1) as nat;
        lemma_pages_joined(all, size, before);
        law_page_length(all, size, before as int);
        assert(size * pages == size * before + size) by (nonlinear_arith)
            requires
                pages == before + 1,
        ;
        assert(size * before <= size * (pages_needed(count, size) - 1) && 0 <= size * before)
            by (nonlinear_arith)
            requires
                0 < size,
                0 <= before <= pages_needed(count, size) - 1,
        ;
        let end = if size * pages < count {
            size * pages
        } else {
            count
        };
        assert(pages_joined(all, size, pages) =~= all.subrange(0, end));
    }
}

/// The pages of an ordered result, taken in order, are that result: every
/// row is on exactly one page, and the rows keep their order.
pub proof fn law_pages_partition<V>(all: Seq<V>, size: int)
    requires
        0 < size,
    ensures
        pages_joined(all, size, pages_needed(all.len() as int, size) as nat) == all,
{
    let count = all.len() as int;
    lemma_pages_cover(count, size);
    lemma_pages_joined(all, size, pages_needed(count, size) as nat);
    assert(all.subrange(0, count) =~= all);
}

/// A request for a page that does not exist ends in "no page", whatever
/// the listing: a negative index, an index at or past the number of pages,
/// and so every index where the listing is empty.
pub proof fn law_no_page_outside(
    listing: ListingView,
    size: i64,
    page_number: Option<i32>,
    count: Option<i64>,
    rest: Seq<ReplyView>,
)
    requires
        0 < size,
        count_in_range(counted(count), size as int),
        !(0 <= requested_page(page_number) < pages_needed(counted(count), size as int)),
    ensures
        paging_step(listing, size, page_number, seq![ReplyView::Count(count)] + rest)
            == PagingView::NoPage,
        counted(count) == 0 ==> pages_needed(counted(count), size as int) == 0,
{
    lemma_pages_cover(counted(count), size as int);
}

/// A request for a page that exists asks the store for the window of that
/// page, and then points at the rows with the page's index and the number
/// of pages.
pub proof fn law_page_inside(
    listing: ListingView,
    size: i64,
    page: i32,
    count: i64,
    rows: ReplyView,
)
    requires
        0 < size <= MAX_PAGE_SIZE,
        count_in_range(count as int, size as int),
        0 <= page < pages_needed(count as int, size as int),
    ensures
        paging_step(listing, size, Some(page), seq![ReplyView::Count(Some(count))])
            == (PagingView::Ask(
            StatementView::List { listing, limit: size, offset: (size * page) as i64 },
        )),
        paging_step(listing, size, Some(page), seq![ReplyView::Count(Some(count)), rows])
            == (PagingView::Window {
            page,
            pages: pages_needed(count as int, size as int) as i32,
        }),
        0 <= size * page <= i64::MAX,
{
    assert(0 <= size * page <= MAX_PAGE_SIZE * i32::MAX) by (nonlinear_arith)
        requires
            0 < size <= MAX_PAGE_SIZE,
            0 <= page <= i32::MAX,
    ;
}

} // verus!
