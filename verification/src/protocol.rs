//! The conversation between an operation and the relational store.
//!
//! An operation never runs a statement itself. It returns a [`Step`]: either
//! a [`Statement`] for the caller to run, or its result. The caller appends
//! the store's [`Reply`] to the transcript and asks the operation again.

use crate::error::{DatabaseError, ErrorView};
use crate::model::{
    Item, ItemView, RatingItem, RatingItemView, RatingUser, RatingUserView, User, UserView,
};
use vstd::prelude::*;

verus! {

/// How a statement failed, as far as the operations tell failures apart.
#[derive(Debug, Clone, Copy, PartialEq, Eq, Structural)]
pub enum FailureKind {
    /// A single row was asked for and none matched.
    RowNotFound,
    /// The statement would have broken a uniqueness constraint.
    UniqueViolation,
    /// Anything else.
    Other,
}

/// A failed statement: its kind, and the store's own words for diagnostics.
#[derive(Debug, Clone, PartialEq, Eq)]
pub struct StoreFailure {
    pub kind: FailureKind,
    pub detail: String,
}

/// Mathematical value of a [`StoreFailure`].
pub struct FailureView {
    pub kind: FailureKind,
    pub detail: Seq<char>,
}

impl DeepView for StoreFailure {
    type V = FailureView;

    open spec fn deep_view(&self) -> FailureView {
        FailureView { kind: self.kind, detail: self.detail@ }
    }
}

/// An ordered result that is read page by page.
#[derive(Debug, Clone, PartialEq, Eq)]
pub enum Listing {
    /// All items by descending score; with a search text, the items whose
    /// title is similar to it, by descending similarity, then score.
    Items { query: Option<String> },
    /// All users in the store's order; with a search text, the users whose
    /// name is similar to it, by descending similarity.
    Users { query: Option<String> },
    /// The reviews of an item, most recent first.
    ItemReviews { locator: String },
    /// The reviews by a user, most recent first.
    UserReviews { username: String },
}

/// Mathematical value of a [`Listing`].
pub enum ListingView {
    Items { query: Option<Seq<char>> },
    Users { query: Option<Seq<char>> },
    ItemReviews { locator: Seq<char> },
    UserReviews { username: Seq<char> },
}

impl DeepView for Listing {
    type V = ListingView;

    open spec fn deep_view(&self) -> ListingView {
        match self {
            Listing::Items { query } => ListingView::Items { query: query.deep_view() },
            Listing::Users { query } => ListingView::Users { query: query.deep_view() },
            Listing::ItemReviews { locator } => ListingView::ItemReviews { locator: locator@ },
            Listing::UserReviews { username } => ListingView::UserReviews { username: username@ },
        }
    }
}

/// What an operation asks the store to do.
#[derive(Debug, Clone, PartialEq, Eq)]
pub enum Statement {
    /// Read the stored credentials and profile of one user.
    FindCredentials { username: String },
    /// Create a user; fails on a taken username.
    InsertUser { username: String, password_hash: String },
    /// Change a user; a field that is `None` keeps its value.
    UpdateUser {
        username: String,
        new_username: Option<String>,
        has_avatar: Option<bool>,
        new_password_hash: Option<String>,
    },
    /// Delete a user and, with it, the user's reviews.
    DeleteUser { username: String },
    /// Read one user.
    FindUser { username: String },
    /// Read one item with its aggregates.
    FindItem { locator: String },
    /// Create an item; fails on a taken locator.
    InsertItem { locator: String, title: String, description: String },
    /// Change an item; a field that is `None` keeps its value.
    UpdateItem {
        locator: String,
        new_locator: Option<String>,
        new_title: Option<String>,
        new_description: Option<String>,
    },
    /// Delete an item and, with it, its reviews.
    DeleteItem { locator: String },
    /// Create a review dated now; fails if the user has reviewed the item.
    InsertReview { locator: String, username: String, rating: i16 },
    /// Set the rating of an existing review and date it now.
    UpdateReview { locator: String, username: String, rating: i16 },
    /// Delete a review, if there is one.
    DeleteReview { locator: String, username: String },
    /// Read the rating a user gave an item.
    FindRating { locator: String, username: String },
    /// Count the rows of a listing.
    Count { listing: Listing },
    /// Read `limit` rows of a listing after skipping `offset` rows.
    List { listing: Listing, limit: i64, offset: i64 },
}

/// Mathematical value of a [`Statement`].
pub enum StatementView {
    FindCredentials { username: Seq<char> },
    InsertUser { username: Seq<char>, password_hash: Seq<char> },
    UpdateUser {
        username: Seq<char>,
        new_username: Option<Seq<char>>,
        has_avatar: Option<bool>,
        new_password_hash: Option<Seq<char>>,
    },
    DeleteUser { username: Seq<char> },
    FindUser { username: Seq<char> },
    FindItem { locator: Seq<char> },
    InsertItem { locator: Seq<char>, title: Seq<char>, description: Seq<char> },
    UpdateItem {
        locator: Seq<char>,
        new_locator: Option<Seq<char>>,
        new_title: Option<Seq<char>>,
        new_description: Option<Seq<char>>,
    },
    DeleteItem { locator: Seq<char> },
    InsertReview { locator: Seq<char>, username: Seq<char>, rating: i16 },
    UpdateReview { locator: Seq<char>, username: Seq<char>, rating: i16 },
    DeleteReview { locator: Seq<char>, username: Seq<char> },
    FindRating { locator: Seq<char>, username: Seq<char> },
    Count { listing: ListingView },
    List { listing: ListingView, limit: i64, offset: i64 },
}

impl DeepView for Statement {
    type V = StatementView;

    open spec fn deep_view(&self) -> StatementView {
        match self {
            Statement::FindCredentials { username } => StatementView::FindCredentials {
                username: username@,
            },
            Statement::InsertUser { username, password_hash } => StatementView::InsertUser {
                username: username@,
                password_hash: password_hash@,
            },
            Statement::UpdateUser { username, new_username, has_avatar, new_password_hash } =>
                StatementView::UpdateUser {
                    username: username@,
                    new_username: new_username.deep_view(),
                    has_avatar: *has_avatar,
                    new_password_hash: new_password_hash.deep_view(),
                },
            Statement::DeleteUser { username } => StatementView::DeleteUser { username: username@ },
            Statement::FindUser { username } => StatementView::FindUser { username: username@ },
            Statement::FindItem { locator } => StatementView::FindItem { locator: locator@ },
            Statement::InsertItem { locator, title, description } => StatementView::InsertItem {
                locator: locator@,
                title: title@,
                description: description@,
            },
            Statement::UpdateItem { locator, new_locator, new_title, new_description } =>
                StatementView::UpdateItem {
                    locator: locator@,
                    new_locator: new_locator.deep_view(),
                    new_title: new_title.deep_view(),
                    new_description: new_description.deep_view(),
                },
            Statement::DeleteItem { locator } => StatementView::DeleteItem { locator: locator@ },
            Statement::InsertReview { locator, username, rating } => StatementView::InsertReview {
                locator: locator@,
                username: username@,
                rating: *rating,
            },
            Statement::UpdateReview { locator, username, rating } => StatementView::UpdateReview {
                locator: locator@,
                username: username@,
                rating: *rating,
            },
            Statement::DeleteReview { locator, username } => StatementView::DeleteReview {
                locator: locator@,
                username: username@,
            },
            Statement::FindRating { locator, username } => StatementView::FindRating {
                locator: locator@,
                username: username@,
            },
            Statement::Count { listing } => StatementView::Count { listing: listing.deep_view() },
            Statement::List { listing, limit, offset } => StatementView::List {
                listing: listing.deep_view(),
                limit: *limit,
                offset: *offset,
            },
        }
    }
}

/// The row that [`Statement::FindCredentials`] reads.
#[derive(Debug, Clone, PartialEq, Eq)]
pub struct Credentials {
    pub password_hash: String,
    pub is_admin: bool,
    pub avatar_hue: i16,
    pub has_avatar: bool,
}

/// Mathematical value of [`Credentials`].
pub struct CredentialsView {
    pub password_hash: Seq<char>,
    pub is_admin: bool,
    pub avatar_hue: i16,
    pub has_avatar: bool,
}

impl DeepView for Credentials {
    type V = CredentialsView;

    open spec fn deep_view(&self) -> CredentialsView {
        CredentialsView {
            password_hash: self.password_hash@,
            is_admin: self.is_admin,
            avatar_hue: self.avatar_hue,
            has_avatar: self.has_avatar,
        }
    }
}

/// What the store answered to a statement.
#[derive(Debug, Clone, PartialEq, Eq)]
pub enum Reply {
    /// An insert, update or delete was carried out.
    Done,
    /// A count; the store may answer a count with no value.
    Count(Option<i64>),
    Credentials(Credentials),
    User(User),
    Item(Item),
    Rating(i16),
    Users(Vec<User>),
    Items(Vec<Item>),
    ItemRatings(Vec<RatingItem>),
    UserRatings(Vec<RatingUser>),
    Failed(StoreFailure),
}

/// Mathematical value of a [`Reply`].
pub enum ReplyView {
    Done,
    Count(Option<i64>),
    Credentials(CredentialsView),
    User(UserView),
    Item(ItemView),
    Rating(i16),
    Users(Seq<UserView>),
    Items(Seq<ItemView>),
    ItemRatings(Seq<RatingItemView>),
    UserRatings(Seq<RatingUserView>),
    Failed(FailureView),
}

impl DeepView for Reply {
    type V = ReplyView;

    open spec fn deep_view(&self) -> ReplyView {
        match self {
            Reply::Done => ReplyView::Done,
            Reply::Count(count) => ReplyView::Count(*count),
            Reply::Credentials(row) => ReplyView::Credentials(row.deep_view()),
            Reply::User(row) => ReplyView::User(row.deep_view()),
            Reply::Item(row) => ReplyView::Item(row.deep_view()),
            Reply::Rating(rating) => ReplyView::Rating(*rating),
            Reply::Users(rows) => ReplyView::Users(rows.deep_view()),
            Reply::Items(rows) => ReplyView::Items(rows.deep_view()),
            Reply::ItemRatings(rows) => ReplyView::ItemRatings(rows.deep_view()),
            Reply::UserRatings(rows) => ReplyView::UserRatings(rows.deep_view()),
            Reply::Failed(failure) => ReplyView::Failed(failure.deep_view()),
        }
    }
}

/// What an operation does next.
#[derive(Debug, PartialEq, Eq)]
pub enum Step<T> {
    /// Run this statement and come back with the store's reply.
    Ask(Statement),
    /// The operation is over.
    Done(Result<T, DatabaseError>),
}

/// Mathematical value of a [`Step`].
pub enum StepView<V> {
    Ask(StatementView),
    Done(Result<V, ErrorView>),
}

impl<T: DeepView> DeepView for Step<T> {
    type V = StepView<T::V>;

    open spec fn deep_view(&self) -> StepView<T::V> {
        match self {
            Step::Ask(statement) => StepView::Ask(statement.deep_view()),
            Step::Done(Ok(value)) => StepView::Done(Ok(value.deep_view())),
            Step::Done(Err(error)) => StepView::Done(Err(error.deep_view())),
        }
    }
}

/// The cause recorded when the store answers a statement with a reply of
/// the wrong shape.
pub open spec fn unexpected_reply() -> Seq<char> {
    "the store answered with a reply of the wrong shape"@
}

/// The error for a reply of the wrong shape.
pub fn unexpected() -> (error: DatabaseError)
    ensures
        error.deep_view() == ErrorView::InternalError(unexpected_reply()),
{
    DatabaseError::InternalError("the store answered with a reply of the wrong shape".to_owned())
}

/// The internal error that records a failed statement.
pub fn internal(failure: &StoreFailure) -> (error: DatabaseError)
    ensures
        error.deep_view() == ErrorView::InternalError(failure.detail@),
{
    DatabaseError::InternalError(failure.detail.clone())
}

/// How an insert, update or delete ended. A broken uniqueness constraint is
/// reported as `conflict` where the operation names one; every other
/// failure is internal.
pub open spec fn write_outcome(reply: ReplyView, conflict: Option<ErrorView>) -> Result<
    (),
    ErrorView,
> {
    match reply {
        ReplyView::Done => Ok(()),
        ReplyView::Failed(failure) => if failure.kind == FailureKind::UniqueViolation
            && conflict is Some {
            Err(conflict->0)
        } else {
            Err(ErrorView::InternalError(failure.detail))
        },
        _ => Err(ErrorView::InternalError(unexpected_reply())),
    }
}

/// Mathematical value of the outcome of a write.
pub open spec fn outcome_view(outcome: Result<(), DatabaseError>) -> Result<(), ErrorView> {
    match outcome {
        Ok(_) => Ok(()),
        Err(error) => Err(error.deep_view()),
    }
}

/// Reads the reply to an insert, update or delete.
pub fn written(reply: &Reply, conflict: Option<DatabaseError>) -> (outcome: Result<
    (),
    DatabaseError,
>)
    ensures
        outcome_view(outcome) == write_outcome(reply.deep_view(), conflict.deep_view()),
{
    match reply {
        Reply::Done => Ok(()),
        Reply::Failed(failure) => {
            match (failure.kind, conflict) {
                (FailureKind::UniqueViolation, Some(error)) => Err(error),
                _ => Err(internal(failure)),
            }
        },
        _ => Err(unexpected()),
    }
}

/// The step that ends an operation with the outcome of its one write.
pub fn finish_write(reply: &Reply, conflict: Option<DatabaseError>) -> (step: Step<()>)
    ensures
        step.deep_view() == StepView::<()>::Done(
            write_outcome(reply.deep_view(), conflict.deep_view()),
        ),
{
    Step::Done(written(reply, conflict))
}

} // verus!
