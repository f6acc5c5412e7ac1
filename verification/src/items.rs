//! Reading and managing catalog items.

use crate::error::{DatabaseError, ErrorView};
use crate::model::{duplicate_items, Item, ItemView, Page, PageView};
use crate::paging::{
    count_in_range, counted, law_no_page_outside, law_page_inside, law_page_length, page_rows,
    pages_needed, paging, paging_step, requested_page, Paging, PagingView, CATALOG_PAGE_SIZE,
};
use crate::protocol::{
    finish_write, internal, unexpected, unexpected_reply, write_outcome, FailureKind, Listing,
    ListingView, Reply, ReplyView, Statement, StatementView, Step, StepView,
};
use crate::text::{
    given_blank, is_blank, is_blank_if_given, is_blank_text, is_identifier,
    matches_word_pattern, owned_if_given,
};
use vstd::prelude::*;

verus! {

/// Path of the item listing.
pub open spec fn items_target() -> Seq<char> {
    "/items"@
}

/// What looking up one item does next.
pub open spec fn get_item_step(locator: Seq<char>, transcript: Seq<ReplyView>) -> StepView<
    Option<ItemView>,
> {
    if transcript.len() == 0 {
        StepView::Ask(StatementView::FindItem { locator })
    } else {
        match transcript[0] {
            ReplyView::Item(row) => StepView::Done(Ok(Some(row))),
            ReplyView::Failed(failure) => if failure.kind == FailureKind::RowNotFound {
                StepView::Done(Ok(None))
            } else {
                StepView::Done(Err(ErrorView::InternalError(failure.detail)))
            },
            _ => StepView::Done(Err(ErrorView::InternalError(unexpected_reply()))),
        }
    }
}

/// Looks up one item by its locator. An item that does not exist is
/// `Ok(None)`, not an error.
pub fn get_item(locator: &str, transcript: &Vec<Reply>) -> (step: Step<Option<Item>>)
    ensures
        step.deep_view() == get_item_step(locator@, transcript.deep_view()),
{
    if transcript.len() == 0 {
        return Step::Ask(Statement::FindItem { locator: locator.to_owned() });
    }
    match &transcript[0] {
        Reply::Item(row) => Step::Done(Ok(Some(row.duplicate()))),
        Reply::Failed(failure) => match failure.kind {
            FailureKind::RowNotFound => Step::Done(Ok(None)),
            _ => Step::Done(Err(internal(failure))),
        },
        _ => Step::Done(Err(unexpected())),
    }
}

/// What listing a page of items does next.
pub open spec fn get_items_step(
    page_number: Option<i32>,
    query: Option<Seq<char>>,
    transcript: Seq<ReplyView>,
) -> StepView<Option<PageView<ItemView>>> {
    match paging_step(ListingView::Items { query }, CATALOG_PAGE_SIZE, page_number, transcript) {
        PagingView::Ask(statement) => StepView::Ask(statement),
        PagingView::NoPage => StepView::Done(Ok(None)),
        PagingView::Failed(error) => StepView::Done(Err(error)),
        PagingView::Window { page, pages } => match transcript[1] {
            ReplyView::Items(rows) => StepView::Done(
                Ok(
                    Some(
                        PageView {
                            target: items_target(),
                            items: rows,
                            current_page: page,
                            number_of_pages: pages,
                            query,
                        },
                    ),
                ),
            ),
            ReplyView::Failed(failure) => StepView::Done(
                Err(ErrorView::InternalError(failure.detail)),
            ),
            _ => StepView::Done(Err(ErrorView::InternalError(unexpected_reply()))),
        },
    }
}

/// Lists one page of twelve items: all items by descending score, or, with
/// a search text, the items whose title is similar to it. A page outside
/// the listing is `Ok(None)`.
pub fn get_items(page_number: Option<i32>, query: Option<&str>, transcript: &Vec<Reply>) -> (step:
    Step<Option<Page<Item>>>)
    ensures
        step.deep_view() == get_items_step(page_number, query.deep_view(), transcript.deep_view()),
        step matches Step::Done(Ok(Some(page))) ==> page.well_formed(),
{
    let listing = Listing::Items { query: owned_if_given(query) };
    match paging(listing, CATALOG_PAGE_SIZE, page_number, transcript) {
        Paging::Ask(statement) => Step::Ask(statement),
        Paging::NoPage => Step::Done(Ok(None)),
        Paging::Failed(error) => Step::Done(Err(error)),
        Paging::Window { page, pages } => match &transcript[1] {
            Reply::Items(rows) => Step::Done(
                Ok(
                    Some(
                        Page {
                            target: "/items".to_owned(),
                            items: duplicate_items(rows),
                            current_page: page,
                            number_of_pages: pages,
                            query: owned_if_given(query),
                        },
                    ),
                ),
            ),
            Reply::Failed(failure) => Step::Done(Err(internal(failure))),
            _ => Step::Done(Err(unexpected())),
        },
    }
}

/// Reading a page of items that exists takes two statements. Let `all` be
/// the ordered result in the store. After the count, the operation asks
/// for the twelve rows that follow the first `12 * page`; given those rows,
/// it returns them as the page, with the page's index and the number of
/// pages. The page holds twelve items, or what remains on the last page.
pub proof fn law_get_items_page(all: Seq<ItemView>, query: Option<Seq<char>>, page: i32)
    requires
        count_in_range(all.len() as int, CATALOG_PAGE_SIZE as int),
        0 <= page < pages_needed(all.len() as int, CATALOG_PAGE_SIZE as int),
    ensures
        ({
            let count = ReplyView::Count(Some(all.len() as i64));
            let rows = page_rows(all, CATALOG_PAGE_SIZE as int, page as int);
            &&& get_items_step(Some(page), query, seq![count]) == StepView::<
                Option<PageView<ItemView>>,
            >::Ask(
                StatementView::List {
                    listing: ListingView::Items { query },
                    limit: CATALOG_PAGE_SIZE,
                    offset: (CATALOG_PAGE_SIZE * page) as i64,
                },
            )
            &&& get_items_step(Some(page), query, seq![count, ReplyView::Items(rows)])
                == StepView::Done(
                Ok(
                    Some(
                        PageView {
                            target: items_target(),
                            items: rows,
                            current_page: page,
                            number_of_pages: pages_needed(
                                all.len() as int,
                                CATALOG_PAGE_SIZE as int,
                            ) as i32,
                            query,
                        },
                    ),
                ),
            )
            &&& rows.len() == if all.len() - CATALOG_PAGE_SIZE * page < CATALOG_PAGE_SIZE {
                all.len() - CATALOG_PAGE_SIZE * page
            } else {
                CATALOG_PAGE_SIZE as int
            }
        }),
{
    let count = all.len() as i64;
    let rows = ReplyView::Items(page_rows(all, CATALOG_PAGE_SIZE as int, page as int));
    law_page_inside(ListingView::Items { query }, CATALOG_PAGE_SIZE, page, count, rows);
    law_page_length(all, CATALOG_PAGE_SIZE as int, page as int);
}

/// Asking for a page of items that does not exist gives "no page": a
/// negative index, an index at or past the number of pages, and any index
/// at all where nothing matches.
pub proof fn law_get_items_no_page(
    page_number: Option<i32>,
    query: Option<Seq<char>>,
    count: Option<i64>,
    rest: Seq<ReplyView>,
)
    requires
        count_in_range(counted(count), CATALOG_PAGE_SIZE as int),
        !(0 <= requested_page(page_number) < pages_needed(
            counted(count),
            CATALOG_PAGE_SIZE as int,
        )),
    ensures
        get_items_step(page_number, query, seq![ReplyView::Count(count)] + rest) == StepView::<
            Option<PageView<ItemView>>,
        >::Done(Ok(None)),
{
    law_no_page_outside(ListingView::Items { query }, CATALOG_PAGE_SIZE, page_number, count, rest);
}

/// An item reads the same whether it is looked up or listed: both
/// operations hand on the row as the store gave it, aggregates included.
pub proof fn law_item_reads_alike(row: ItemView, query: Option<Seq<char>>)
    ensures
        get_item_step(row.locator, seq![ReplyView::Item(row)]) == StepView::Done(
            Ok(Some(row)),
        ),
        get_items_step(
            None,
            query,
            seq![ReplyView::Count(Some(1)), ReplyView::Items(seq![row])],
        ) matches StepView::Done(Ok(Some(page))) && page.items == seq![row],
{
}

/// What adding an item does next.
pub open spec fn add_item_step(
    locator: Seq<char>,
    title: Seq<char>,
    description: Seq<char>,
    transcript: Seq<ReplyView>,
) -> StepView<()> {
    if is_blank_text(locator) || is_blank_text(title) || is_blank_text(description) {
        StepView::Done(Err(ErrorView::EmptyFields))
    } else if !matches_word_pattern(locator) {
        StepView::Done(Err(ErrorView::IllegalLocator))
    } else if transcript.len() == 0 {
        StepView::Ask(StatementView::InsertItem { locator, title, description })
    } else {
        StepView::Done(write_outcome(transcript[0], Some(ErrorView::DuplicateItem)))
    }
}

/// Adds an item. Blank fields are refused first, then a locator that is
/// not an identifier; a taken locator is reported by the store.
pub fn add_item(locator: &str, title: &str, description: &str, transcript: &Vec<Reply>) -> (step:
    Step<()>)
    ensures
        step.deep_view() == add_item_step(locator@, title@, description@, transcript.deep_view()),
{
    if is_blank(locator) || is_blank(title) || is_blank(description) {
        return Step::Done(Err(DatabaseError::EmptyFields));
    }
    if !is_identifier(locator) {
        return Step::Done(Err(DatabaseError::IllegalLocator));
    }
    if transcript.len() == 0 {
        return Step::Ask(
            Statement::InsertItem {
                locator: locator.to_owned(),
                title: title.to_owned(),
                description: description.to_owned(),
            },
        );
    }
    finish_write(&transcript[0], Some(DatabaseError::DuplicateItem))
}

/// What editing an item does next.
pub open spec fn edit_item_step(
    locator: Seq<char>,
    new_locator: Option<Seq<char>>,
    new_title: Option<Seq<char>>,
    new_description: Option<Seq<char>>,
    transcript: Seq<ReplyView>,
) -> StepView<()> {
    if given_blank(new_locator) || given_blank(new_title) || given_blank(new_description) {
        StepView::Done(Err(ErrorView::EmptyFields))
    } else if new_locator is Some && !matches_word_pattern(new_locator->0) {
        StepView::Done(Err(ErrorView::IllegalLocator))
    } else if transcript.len() == 0 {
        StepView::Ask(
            StatementView::UpdateItem { locator, new_locator, new_title, new_description },
        )
    } else {
        StepView::Done(write_outcome(transcript[0], Some(ErrorView::DuplicateItem)))
    }
}

/// Edits an item. A field that is `None` keeps its value; a field that is
/// given must not be blank, and a new locator must be an identifier. A
/// locator taken by another item is reported by the store.
pub fn edit_item(
    locator: &str,
    new_locator: Option<&str>,
    new_title: Option<&str>,
    new_description: Option<&str>,
    transcript: &Vec<Reply>,
) -> (step: Step<()>)
    ensures
        step.deep_view() == edit_item_step(
            locator@,
            new_locator.deep_view(),
            new_title.deep_view(),
            new_description.deep_view(),
            transcript.deep_view(),
        ),
{
    if is_blank_if_given(new_locator) || is_blank_if_given(new_title) || is_blank_if_given(
        new_description,
    ) {
        return Step::Done(Err(DatabaseError::EmptyFields));
    }
    if let Some(text) = new_locator {
        if !is_identifier(text) {
            return Step::Done(Err(DatabaseError::IllegalLocator));
        }
    }
    if transcript.len() == 0 {
        return Step::Ask(
            Statement::UpdateItem {
                locator: locator.to_owned(),
                new_locator: owned_if_given(new_locator),
                new_title: owned_if_given(new_title),
                new_description: owned_if_given(new_description),
            },
        );
    }
    finish_write(&transcript[0], Some(DatabaseError::DuplicateItem))
}

/// What removing an item does next.
pub open spec fn remove_item_step(locator: Seq<char>, transcript: Seq<ReplyView>) -> StepView<()> {
    if transcript.len() == 0 {
        StepView::Ask(StatementView::DeleteItem { locator })
    } else {
        StepView::Done(write_outcome(transcript[0], None))
    }
}

/// Removes an item and its reviews. The caller has checked that the actor
/// may do so.
pub fn remove_item(locator: &str, transcript: &Vec<Reply>) -> (step: Step<()>)
    ensures
        step.deep_view() == remove_item_step(locator@, transcript.deep_view()),
{
    if transcript.len() == 0 {
        return Step::Ask(Statement::DeleteItem { locator: locator.to_owned() });
    }
    finish_write(&transcript[0], None)
}

} // verus!
