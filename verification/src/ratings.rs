//! Reviews: rating an item, withdrawing a rating, and reading ratings.

use crate::error::ErrorView;
use crate::model::{
    duplicate_item_ratings, duplicate_user_ratings, Page, PageView, RatingItem, RatingItemView,
    RatingUser, RatingUserView,
};
use crate::paging::{paging, paging_step, Paging, PagingView, RATINGS_PAGE_SIZE};
use crate::protocol::{
    finish_write, internal, unexpected, unexpected_reply, write_outcome, FailureKind, Listing,
    ListingView, Reply, ReplyView, Statement, StatementView, Step, StepView,
};
use vstd::prelude::*;
use vstd::string::StringExecFns;

verus! {

/// The lowest rating.
pub const MIN_RATING: i16 = 1;

/// The highest rating.
pub const MAX_RATING: i16 = 10;

/// A rating brought into the range from 1 to 10.
pub open spec fn clamped(rating: i16) -> i16 {
    if rating < MIN_RATING {
        MIN_RATING
    } else if rating > MAX_RATING {
        MAX_RATING
    } else {
        rating
    }
}

/// Brings a rating into the range from 1 to 10.
pub fn clamp_rating(rating: i16) -> (stored: i16)
    ensures
        stored == clamped(rating),
        MIN_RATING <= stored <= MAX_RATING,
{
    if rating < MIN_RATING {
        MIN_RATING
    } else if rating > MAX_RATING {
        MAX_RATING
    } else {
        rating
    }
}

/// What rating an item does next.
///
/// The review is inserted first. Only the store's refusal of a second
/// review for the same item and user turns the insert into an update; the
/// operation never looks for an existing review beforehand.
pub open spec fn rate_item_step(
    username: Seq<char>,
    locator: Seq<char>,
    rating: i16,
    transcript: Seq<ReplyView>,
) -> StepView<()> {
    if transcript.len() == 0 {
        StepView::Ask(StatementView::InsertReview { locator, username, rating: clamped(rating) })
    } else if transcript[0] matches ReplyView::Failed(failure) && failure.kind
        == FailureKind::UniqueViolation {
        if transcript.len() == 1 {
            StepView::Ask(
                StatementView::UpdateReview { locator, username, rating: clamped(rating) },
            )
        } else {
            StepView::Done(write_outcome(transcript[1], None))
        }
    } else {
        StepView::Done(write_outcome(transcript[0], None))
    }
}

/// Records the rating a user gives an item, replacing an earlier one.
pub fn rate_item(username: &str, item_locator: &str, rating: i16, transcript: &Vec<Reply>) -> (step:
    Step<()>)
    ensures
        step.deep_view() == rate_item_step(
            username@,
            item_locator@,
            rating,
            transcript.deep_view(),
        ),
{
    let rating = clamp_rating(rating);
    if transcript.len() == 0 {
        return Step::Ask(
            Statement::InsertReview {
                locator: item_locator.to_owned(),
                username: username.to_owned(),
                rating,
            },
        );
    }
    let conflict = match &transcript[0] {
        Reply::Failed(failure) => match failure.kind {
            FailureKind::UniqueViolation => true,
            _ => false,
        },
        _ => false,
    };
    if !conflict {
        finish_write(&transcript[0], None)
    } else if transcript.len() == 1 {
        Step::Ask(
            Statement::UpdateReview {
                locator: item_locator.to_owned(),
                username: username.to_owned(),
                rating,
            },
        )
    } else {
        finish_write(&transcript[1], None)
    }
}

/// What withdrawing a rating does next.
pub open spec fn remove_review_step(
    locator: Seq<char>,
    username: Seq<char>,
    transcript: Seq<ReplyView>,
) -> StepView<()> {
    if transcript.len() == 0 {
        StepView::Ask(StatementView::DeleteReview { locator, username })
    } else {
        StepView::Done(write_outcome(transcript[0], None))
    }
}

/// Withdraws the rating a user gave an item. Where there is none, the
/// store deletes nothing and the operation succeeds all the same.
pub fn remove_review(locator: &str, username: &str, transcript: &Vec<Reply>) -> (step: Step<()>)
    ensures
        step.deep_view() == remove_review_step(locator@, username@, transcript.deep_view()),
{
    if transcript.len() == 0 {
        return Step::Ask(
            Statement::DeleteReview { locator: locator.to_owned(), username: username.to_owned() },
        );
    }
    finish_write(&transcript[0], None)
}

/// What reading a user's rating of an item does next.
pub open spec fn get_item_rating_step(
    locator: Seq<char>,
    username: Seq<char>,
    transcript: Seq<ReplyView>,
) -> StepView<Option<i16>> {
    if transcript.len() == 0 {
        StepView::Ask(StatementView::FindRating { locator, username })
    } else {
        match transcript[0] {
            ReplyView::Rating(rating) => StepView::Done(Ok(Some(rating))),
            ReplyView::Failed(failure) => if failure.kind == FailureKind::RowNotFound {
                StepView::Done(Ok(None))
            } else {
                StepView::Done(Err(ErrorView::InternalError(failure.detail)))
            },
            _ => StepView::Done(Err(ErrorView::InternalError(unexpected_reply()))),
        }
    }
}

/// Reads the rating a user gave an item; `Ok(None)` where the user has not
/// rated it.
pub fn get_item_rating(locator: &str, username: &str, transcript: &Vec<Reply>) -> (step: Step<
    Option<i16>,
>)
    ensures
        step.deep_view() == get_item_rating_step(locator@, username@, transcript.deep_view()),
{
    if transcript.len() == 0 {
        return Step::Ask(
            Statement::FindRating { locator: locator.to_owned(), username: username.to_owned() },
        );
    }
    match &transcript[0] {
        Reply::Rating(rating) => Step::Done(Ok(Some(*rating))),
        Reply::Failed(failure) => match failure.kind {
            FailureKind::RowNotFound => Step::Done(Ok(None)),
            _ => Step::Done(Err(internal(failure))),
        },
        _ => Step::Done(Err(unexpected())),
    }
}

/// Path of an item's own page.
pub open spec fn item_target(locator: Seq<char>) -> Seq<char> {
    "/items/"@ + locator
}

/// Path of a user's own page.
pub open spec fn user_target(username: Seq<char>) -> Seq<char> {
    "/users/"@ + username
}

/// What listing a page of an item's reviews does next.
pub open spec fn get_item_ratings_step(
    page_number: Option<i32>,
    locator: Seq<char>,
    transcript: Seq<ReplyView>,
) -> StepView<Option<PageView<RatingItemView>>> {
    match paging_step(
        ListingView::ItemReviews { locator },
        RATINGS_PAGE_SIZE,
        page_number,
        transcript,
    ) {
        PagingView::Ask(statement) => StepView::Ask(statement),
        PagingView::NoPage => StepView::Done(Ok(None)),
        PagingView::Failed(error) => StepView::Done(Err(error)),
        PagingView::Window { page, pages } => match transcript[1] {
            ReplyView::ItemRatings(rows) => StepView::Done(
                Ok(
                    Some(
                        PageView {
                            target: item_target(locator),
                            items: rows,
                            current_page: page,
                            number_of_pages: pages,
                            query: None,
                        },
                    ),
                ),
            ),
            ReplyView::Failed(failure) => StepView::Done(
                Err(ErrorView::InternalError(failure.detail)),
            ),
            _ => StepView::Done(Err(ErrorView::InternalError(unexpected_reply()))),
        },
    }
}

/// Lists one page of three reviews of an item, most recent first. A page
/// outside the listing is `Ok(None)`.
pub fn get_item_ratings(page_number: Option<i32>, locator: &str, transcript: &Vec<Reply>) -> (step:
    Step<Option<Page<RatingItem>>>)
    ensures
        step.deep_view() == get_item_ratings_step(page_number, locator@, transcript.deep_view()),
        step matches Step::Done(Ok(Some(page))) ==> page.well_formed(),
{
    let listing = Listing::ItemReviews { locator: locator.to_owned() };
    match paging(listing, RATINGS_PAGE_SIZE, page_number, transcript) {
        Paging::Ask(statement) => Step::Ask(statement),
        Paging::NoPage => Step::Done(Ok(None)),
        Paging::Failed(error) => Step::Done(Err(error)),
        Paging::Window { page, pages } => match &transcript[1] {
            Reply::ItemRatings(rows) => Step::Done(
                Ok(
                    Some(
                        Page {
                            target: "/items/".to_owned().concat(locator),
                            items: duplicate_item_ratings(rows),
                            current_page: page,
                            number_of_pages: pages,
                            query: None,
                        },
                    ),
                ),
            ),
            Reply::Failed(failure) => Step::Done(Err(internal(failure))),
            _ => Step::Done(Err(unexpected())),
        },
    }
}

/// What listing a page of a user's reviews does next.
pub open spec fn get_user_ratings_step(
    page_number: Option<i32>,
    username: Seq<char>,
    transcript: Seq<ReplyView>,
) -> StepView<Option<PageView<RatingUserView>>> {
    match paging_step(
        ListingView::UserReviews { username },
        RATINGS_PAGE_SIZE,
        page_number,
        transcript,
    ) {
        PagingView::Ask(statement) => StepView::Ask(statement),
        PagingView::NoPage => StepView::Done(Ok(None)),
        PagingView::Failed(error) => StepView::Done(Err(error)),
        PagingView::Window { page, pages } => match transcript[1] {
            ReplyView::UserRatings(rows) => StepView::Done(
                Ok(
                    Some(
                        PageView {
                            target: user_target(username),
                            items: rows,
                            current_page: page,
                            number_of_pages: pages,
                            query: None,
                        },
                    ),
                ),
            ),
            ReplyView::Failed(failure) => StepView::Done(
                Err(ErrorView::InternalError(failure.detail)),
            ),
            _ => StepView::Done(Err(ErrorView::InternalError(unexpected_reply()))),
        },
    }
}

/// Lists one page of three reviews by a user, most recent first. A page
/// outside the listing is `Ok(None)`.
pub fn get_user_ratings(page_number: Option<i32>, username: &str, transcript: &Vec<Reply>) -> (step:
    Step<Option<Page<RatingUser>>>)
    ensures
        step.deep_view() == get_user_ratings_step(page_number, username@, transcript.deep_view()),
        step matches Step::Done(Ok(Some(page))) ==> page.well_formed(),
{
    let listing = Listing::UserReviews { username: username.to_owned() };
    match paging(listing, RATINGS_PAGE_SIZE, page_number, transcript) {
        Paging::Ask(statement) => Step::Ask(statement),
        Paging::NoPage => Step::Done(Ok(None)),
        Paging::Failed(error) => Step::Done(Err(error)),
        Paging::Window { page, pages } => match &transcript[1] {
            Reply::UserRatings(rows) => Step::Done(
                Ok(
                    Some(
                        Page {
                            target: "/users/".to_owned().concat(username),
                            items: duplicate_user_ratings(rows),
                            current_page: page,
                            number_of_pages: pages,
                            query: None,
                        },
                    ),
                ),
            ),
            Reply::Failed(failure) => Step::Done(Err(internal(failure))),
            _ => Step::Done(Err(unexpected())),
        },
    }
}

} // verus!
