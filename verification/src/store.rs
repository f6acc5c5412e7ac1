//! An abstract relational store, and what the operations achieve when they
//! are run against it.
//!
//! The model keeps what the constraints of the real store guarantee: one
//! user per name, one item per locator, one review per item and user, and
//! no review without its item and its user. It answers the statements that
//! write users, items and reviews and that read a rating; it does not model
//! what else the store keeps of a user, nor the order of listings.

use crate::credentials::threads_bounded;
use crate::error::ErrorView;
use crate::items::{add_item_step, edit_item_step, remove_item_step};
use crate::model::UserView;
use crate::protocol::{FailureKind, FailureView, ReplyView, StatementView, StepView};
use crate::ratings::{clamped, get_item_rating_step, rate_item_step, remove_review_step};
use crate::text::{given_blank, is_blank_text, matches_word_pattern, merged};
use crate::users::{
    edit_user_hashed_step, login_step, register_after_insert, register_hashed_step,
    remove_user_step,
};
use vstd::prelude::*;

verus! {

/// What the store keeps of an item besides its locator.
pub struct ItemRow {
    pub title: Seq<char>,
    pub description: Seq<char>,
}

/// What the store keeps of a review besides its item and its user.
pub struct ReviewRow {
    pub rating: i16,
    /// When the review was last written.
    pub date: int,
}

/// The state of the store.
pub struct Shelf {
    /// The names of the users.
    pub users: Set<Seq<char>>,
    /// The items, by locator.
    pub items: Map<Seq<char>, ItemRow>,
    /// The reviews, by locator and username.
    pub reviews: Map<(Seq<char>, Seq<char>), ReviewRow>,
}

/// The failure the store reports for a broken uniqueness constraint.
pub open spec fn conflict() -> FailureView {
    FailureView { kind: FailureKind::UniqueViolation, detail: "duplicate key"@ }
}

/// The failure the store reports for a review of a missing item or user.
pub open spec fn dangling() -> FailureView {
    FailureView { kind: FailureKind::Other, detail: "missing item or user"@ }
}

/// The failure the store reports where a single row was asked for and
/// none matched.
pub open spec fn missing() -> FailureView {
    FailureView { kind: FailureKind::RowNotFound, detail: "no rows"@ }
}

impl Shelf {
    /// Every review belongs to an item and a user of the store.
    pub open spec fn well_formed(self) -> bool {
        forall|key: (Seq<char>, Seq<char>)| #[trigger]
            self.reviews.contains_key(key) ==> self.items.contains_key(key.0)
                && self.users.contains(key.1)
    }

    /// The reviews after the item `from` took the locator `to`.
    pub open spec fn reviews_moved(self, from: Seq<char>, to: Seq<char>) -> Map<
        (Seq<char>, Seq<char>),
        ReviewRow,
    > {
        Map::new(
            |key: (Seq<char>, Seq<char>)|
                if key.0 == to {
                    self.reviews.contains_key((from, key.1))
                } else {
                    key.0 != from && self.reviews.contains_key(key)
                },
            |key: (Seq<char>, Seq<char>)|
                if key.0 == to {
                    self.reviews[(from, key.1)]
                } else {
                    self.reviews[key]
                },
        )
    }

    /// The reviews after the user `from` took the name `to`.
    pub open spec fn reviews_handed(self, from: Seq<char>, to: Seq<char>) -> Map<
        (Seq<char>, Seq<char>),
        ReviewRow,
    > {
        Map::new(
            |key: (Seq<char>, Seq<char>)|
                if key.1 == to {
                    self.reviews.contains_key((key.0, from))
                } else {
                    key.1 != from && self.reviews.contains_key(key)
                },
            |key: (Seq<char>, Seq<char>)|
                if key.1 == to {
                    self.reviews[(key.0, from)]
                } else {
                    self.reviews[key]
                },
        )
    }

    /// The store after a statement, and its reply; `None` for a statement
    /// that the model does not cover. `now` is the store's clock.
    pub open spec fn answer(self, statement: StatementView, now: int) -> Option<
        (Shelf, ReplyView),
    > {
        match statement {
            StatementView::InsertUser { username, password_hash } => Some(
                if self.users.contains(username) {
                    (self, ReplyView::Failed(conflict()))
                } else {
                    (Shelf { users: self.users.insert(username), ..self }, ReplyView::Done)
                },
            ),
            StatementView::UpdateUser { username, new_username, has_avatar, new_password_hash } => {
                let target = merged(username, new_username);
                Some(
                    if !self.users.contains(username) {
                        (self, ReplyView::Done)
                    } else if target != username && self.users.contains(target) {
                        (self, ReplyView::Failed(conflict()))
                    } else {
                        (
                            Shelf {
                                users: self.users.remove(username).insert(target),
                                reviews: self.reviews_handed(username, target),
                                ..self
                            },
                            ReplyView::Done,
                        )
                    },
                )
            },
            StatementView::DeleteUser { username } => Some(
                (
                    Shelf {
                        users: self.users.remove(username),
                        reviews: self.reviews.restrict(
                            Set::new(|key: (Seq<char>, Seq<char>)| key.1 != username),
                        ),
                        ..self
                    },
                    ReplyView::Done,
                ),
            ),
            StatementView::InsertItem { locator, title, description } => Some(
                if self.items.contains_key(locator) {
                    (self, ReplyView::Failed(conflict()))
                } else {
                    (
                        Shelf {
                            items: self.items.insert(locator, ItemRow { title, description }),
                            ..self
                        },
                        ReplyView::Done,
                    )
                },
            ),
            StatementView::UpdateItem { locator, new_locator, new_title, new_description } => {
                let target = merged(locator, new_locator);
                Some(
                    if !self.items.contains_key(locator) {
                        (self, ReplyView::Done)
                    } else if target != locator && self.items.contains_key(target) {
                        (self, ReplyView::Failed(conflict()))
                    } else {
                        let row = ItemRow {
                            title: merged(self.items[locator].title, new_title),
                            description: merged(
                                self.items[locator].description,
                                new_description,
                            ),
                        };
                        (
                            Shelf {
                                items: self.items.remove(locator).insert(target, row),
                                reviews: self.reviews_moved(locator, target),
                                ..self
                            },
                            ReplyView::Done,
                        )
                    },
                )
            },
            StatementView::DeleteItem { locator } => Some(
                (
                    Shelf {
                        items: self.items.remove(locator),
                        reviews: self.reviews.restrict(
                            Set::new(|key: (Seq<char>, Seq<char>)| key.0 != locator),
                        ),
                        ..self
                    },
                    ReplyView::Done,
                ),
            ),
            StatementView::InsertReview { locator, username, rating } => Some(
                if !self.items.contains_key(locator) || !self.users.contains(username) {
                    (self, ReplyView::Failed(dangling()))
                } else if self.reviews.contains_key((locator, username)) {
                    (self, ReplyView::Failed(conflict()))
                } else {
                    (
                        Shelf {
                            reviews: self.reviews.insert(
                                (locator, username),
                                ReviewRow { rating, date: now },
                            ),
                            ..self
                        },
                        ReplyView::Done,
                    )
                },
            ),
            StatementView::UpdateReview { locator, username, rating } => Some(
                if self.reviews.contains_key((locator, username)) {
                    (
                        Shelf {
                            reviews: self.reviews.insert(
                                (locator, username),
                                ReviewRow { rating, date: now },
                            ),
                            ..self
                        },
                        ReplyView::Done,
                    )
                } else {
                    (self, ReplyView::Done)
                },
            ),
            StatementView::DeleteReview { locator, username } => Some(
                (
                    Shelf { reviews: self.reviews.remove((locator, username)), ..self },
                    ReplyView::Done,
                ),
            ),
            StatementView::FindRating { locator, username } => Some(
                if self.reviews.contains_key((locator, username)) {
                    (self, ReplyView::Rating(self.reviews[(locator, username)].rating))
                } else {
                    (self, ReplyView::Failed(missing()))
                },
            ),
            _ => None,
        }
    }
}

/// Runs an operation against the store as a caller does: while the
/// operation asks, the statement is answered and the reply appended to the
/// transcript. The result is `None` if the operation is not over after
/// `rounds` statements, or asks what the model does not cover.
pub open spec fn drive<V>(
    operation: spec_fn(Seq<ReplyView>) -> StepView<V>,
    shelf: Shelf,
    transcript: Seq<ReplyView>,
    now: int,
    rounds: nat,
) -> (Shelf, Option<Result<V, ErrorView>>)
    decreases rounds,
{
    match operation(transcript) {
        StepView::Done(result) => (shelf, Some(result)),
        StepView::Ask(statement) => if rounds == 0 {
            (shelf, None)
        } else {
            match shelf.answer(statement, now) {
                None => (shelf, None),
                Some((next, reply)) => drive(
                    operation,
                    next,
                    transcript.push(reply),
                    now,
                    (rounds - 1) as nat,
                ),
            }
        },
    }
}

/// The store and the result after a user rates an item.
pub open spec fn rated(
    shelf: Shelf,
    username: Seq<char>,
    locator: Seq<char>,
    rating: i16,
    now: int,
) -> (Shelf, Option<Result<(), ErrorView>>) {
    drive(
        |transcript: Seq<ReplyView>| rate_item_step(username, locator, rating, transcript),
        shelf,
        Seq::empty(),
        now,
        2,
    )
}

/// The store and the result after a user withdraws a rating.
pub open spec fn unrated(shelf: Shelf, locator: Seq<char>, username: Seq<char>, now: int) -> (
    Shelf,
    Option<Result<(), ErrorView>>,
) {
    drive(
        |transcript: Seq<ReplyView>| remove_review_step(locator, username, transcript),
        shelf,
        Seq::empty(),
        now,
        1,
    )
}

/// The store and the result after a user's rating of an item is read.
pub open spec fn rating_read(shelf: Shelf, locator: Seq<char>, username: Seq<char>, now: int) -> (
    Shelf,
    Option<Result<Option<i16>, ErrorView>>,
) {
    drive(
        |transcript: Seq<ReplyView>| get_item_rating_step(locator, username, transcript),
        shelf,
        Seq::empty(),
        now,
        1,
    )
}

/// The store and the result after an item is added.
pub open spec fn item_added(
    shelf: Shelf,
    locator: Seq<char>,
    title: Seq<char>,
    description: Seq<char>,
    now: int,
) -> (Shelf, Option<Result<(), ErrorView>>) {
    drive(
        |transcript: Seq<ReplyView>| add_item_step(locator, title, description, transcript),
        shelf,
        Seq::empty(),
        now,
        1,
    )
}

/// The store and the result after an item is edited.
pub open spec fn item_edited(
    shelf: Shelf,
    locator: Seq<char>,
    new_locator: Option<Seq<char>>,
    new_title: Option<Seq<char>>,
    new_description: Option<Seq<char>>,
    now: int,
) -> (Shelf, Option<Result<(), ErrorView>>) {
    drive(
        |transcript: Seq<ReplyView>|
            edit_item_step(locator, new_locator, new_title, new_description, transcript),
        shelf,
        Seq::empty(),
        now,
        1,
    )
}

/// Whatever statement the store answers, every review still belongs to an
/// item and a user afterwards.
pub proof fn law_answers_keep_reviews_attached(shelf: Shelf, statement: StatementView, now: int)
    requires
        shelf.well_formed(),
        shelf.answer(statement, now) is Some,
    ensures
        shelf.answer(statement, now) matches Some(answered) && answered.0.well_formed(),
{
}

/// Rating an item again replaces the rating: after two ratings in a row
/// the item has exactly the reviews it had after the first, and the one by
/// this user carries the second rating, brought into range, and the time of
/// the second rating.
pub proof fn law_rating_twice_keeps_one_review(
    shelf: Shelf,
    username: Seq<char>,
    locator: Seq<char>,
    first: i16,
    second: i16,
    earlier: int,
    later: int,
)
    requires
        shelf.items.contains_key(locator),
        shelf.users.contains(username),
    ensures
        ({
            let once = rated(shelf, username, locator, first, earlier);
            let twice = rated(once.0, username, locator, second, later);
            &&& once.1 == Some(Ok::<(), ErrorView>(()))
            &&& twice.1 == Some(Ok::<(), ErrorView>(()))
            &&& twice.0.reviews.dom() == shelf.reviews.dom().insert((locator, username))
            &&& twice.0.reviews[(locator, username)] == ReviewRow {
                rating: clamped(second),
                date: later,
            }
            &&& forall|key: (Seq<char>, Seq<char>)|
                key != (locator, username) && shelf.reviews.contains_key(key)
                    ==> twice.0.reviews[key] == shelf.reviews[key]
            &&& twice.0.items == shelf.items
            &&& twice.0.users == shelf.users
        }),
{
    reveal_with_fuel(drive, 3);
    let once = rated(shelf, username, locator, first, earlier);
    law_rating_stores_review(shelf, username, locator, first, earlier);
    law_rating_stores_review(once.0, username, locator, second, later);
}

/// Whatever the store held, after a rating it holds the user's review of
/// the item with that rating and date, and nothing else has changed.
pub proof fn law_rating_stores_review(
    shelf: Shelf,
    username: Seq<char>,
    locator: Seq<char>,
    rating: i16,
    now: int,
)
    requires
        shelf.items.contains_key(locator),
        shelf.users.contains(username),
    ensures
        rated(shelf, username, locator, rating, now).1 == Some(Ok::<(), ErrorView>(())),
        rated(shelf, username, locator, rating, now).0 == (Shelf {
            reviews: shelf.reviews.insert(
                (locator, username),
                ReviewRow { rating: clamped(rating), date: now },
            ),
            ..shelf
        }),
{
    reveal_with_fuel(drive, 3);
}

/// Withdrawing a rating always succeeds and leaves the user without a
/// review of the item. Where there was none, the store is unchanged.
pub proof fn law_unrate_is_idempotent(
    shelf: Shelf,
    locator: Seq<char>,
    username: Seq<char>,
    now: int,
)
    ensures
        unrated(shelf, locator, username, now).1 == Some(Ok::<(), ErrorView>(())),
        unrated(shelf, locator, username, now).0 == (Shelf {
            reviews: shelf.reviews.remove((locator, username)),
            ..shelf
        }),
        !shelf.reviews.contains_key((locator, username)) ==> unrated(
            shelf,
            locator,
            username,
            now,
        ).0 == shelf,
        unrated(unrated(shelf, locator, username, now).0, locator, username, now) == unrated(
            shelf,
            locator,
            username,
            now,
        ),
{
    reveal_with_fuel(drive, 2);
    let key = (locator, username);
    if !shelf.reviews.contains_key(key) {
        assert(shelf.reviews.remove(key) =~= shelf.reviews);
    }
    assert(shelf.reviews.remove(key).remove(key) =~= shelf.reviews.remove(key));
}

/// A user's rating of an item reads back as the rating brought into range.
pub proof fn law_rating_reads_back(
    shelf: Shelf,
    username: Seq<char>,
    locator: Seq<char>,
    rating: i16,
    now: int,
)
    requires
        shelf.items.contains_key(locator),
        shelf.users.contains(username),
    ensures
        rating_read(rated(shelf, username, locator, rating, now).0, locator, username, now).1
            == Some(Ok::<Option<i16>, ErrorView>(Some(clamped(rating)))),
        rating_read(unrated(shelf, locator, username, now).0, locator, username, now).1 == Some(
            Ok::<Option<i16>, ErrorView>(None),
        ),
{
    law_rating_stores_review(shelf, username, locator, rating, now);
    law_unrate_is_idempotent(shelf, locator, username, now);
    reveal_with_fuel(drive, 2);
}

/// The store and the result after an item is removed.
pub open spec fn item_removed(shelf: Shelf, locator: Seq<char>, now: int) -> (
    Shelf,
    Option<Result<(), ErrorView>>,
) {
    drive(
        |transcript: Seq<ReplyView>| remove_item_step(locator, transcript),
        shelf,
        Seq::empty(),
        now,
        1,
    )
}

/// The store and the result after a user is removed.
pub open spec fn user_removed(shelf: Shelf, username: Seq<char>, now: int) -> (
    Shelf,
    Option<Result<(), ErrorView>>,
) {
    drive(
        |transcript: Seq<ReplyView>| remove_user_step(username, transcript),
        shelf,
        Seq::empty(),
        now,
        1,
    )
}

/// Removing an item removes it and every review of it; removing a user
/// removes the user and every review by them. Nothing else changes.
pub proof fn law_removal_takes_reviews(
    shelf: Shelf,
    locator: Seq<char>,
    username: Seq<char>,
    now: int,
)
    ensures
        item_removed(shelf, locator, now).1 == Some(Ok::<(), ErrorView>(())),
        !item_removed(shelf, locator, now).0.items.contains_key(locator),
        forall|key: (Seq<char>, Seq<char>)|
            item_removed(shelf, locator, now).0.reviews.contains_key(key) <==> key.0 != locator
                && shelf.reviews.contains_key(key),
        user_removed(shelf, username, now).1 == Some(Ok::<(), ErrorView>(())),
        !user_removed(shelf, username, now).0.users.contains(username),
        forall|key: (Seq<char>, Seq<char>)|
            user_removed(shelf, username, now).0.reviews.contains_key(key) <==> key.1 != username
                && shelf.reviews.contains_key(key),
{
    reveal_with_fuel(drive, 2);
}

/// A registration under a name that is taken ends with `DuplicateUser`,
/// whatever hash it sends, and changes nothing; under a free name the
/// store takes the user in and the registration goes on to sign them in.
pub proof fn law_taken_username_is_duplicate(
    shelf: Shelf,
    username: Seq<char>,
    password: Seq<char>,
    password_hash: Seq<char>,
    now: int,
)
    requires
        threads_bounded(password_hash),
    ensures
        register_hashed_step(username, Ok(password_hash)) matches StepView::Ask(statement)
            && shelf.answer(statement, now) matches Some(answered) && {
            if shelf.users.contains(username) {
                &&& answered.0 == shelf
                &&& register_after_insert(username, password, seq![answered.1])
                    == StepView::<UserView>::Done(Err(ErrorView::DuplicateUser))
            } else {
                &&& answered.0.users == shelf.users.insert(username)
                &&& register_after_insert(username, password, seq![answered.1])
                    == login_step(username, password, Seq::empty())
            }
        },
{
    let statement = StatementView::InsertUser { username, password_hash };
    let answered = shelf.answer(statement, now).unwrap();
    assert(seq![answered.1].skip(1) =~= Seq::empty());
}

/// Renaming a user to a name that another user has ends with
/// `DuplicateUser` and changes nothing; renaming a user to their own name
/// is no conflict.
pub proof fn law_rename_of_user(
    shelf: Shelf,
    username: Seq<char>,
    new_username: Seq<char>,
    has_avatar: Option<bool>,
    now: int,
)
    requires
        shelf.users.contains(username),
    ensures
        edit_user_hashed_step(username, Some(new_username), has_avatar, None) matches StepView::Ask(
            statement,
        ) && shelf.answer(statement, now) matches Some(answered) && {
            if new_username != username && shelf.users.contains(new_username) {
                answered == (shelf, ReplyView::Failed(conflict()))
            } else {
                &&& answered.1 == ReplyView::Done
                &&& answered.0.users == shelf.users.remove(username).insert(new_username)
                &&& new_username == username ==> answered.0 == shelf
            }
        },
{
    if new_username == username {
        assert(shelf.users.remove(username).insert(username) =~= shelf.users);
        assert(shelf.reviews_handed(username, username) =~= shelf.reviews);
    }
}

/// Whether the fields of a new item pass the checks made before the store
/// is asked.
pub open spec fn item_fields_accepted(
    locator: Seq<char>,
    title: Seq<char>,
    description: Seq<char>,
) -> bool {
    !is_blank_text(locator) && !is_blank_text(title) && !is_blank_text(description)
        && matches_word_pattern(locator)
}

/// Adding an item under a free locator stores it; adding an item under a
/// taken locator fails with `DuplicateItem` and changes nothing. So the
/// second of two additions under one locator always fails.
pub proof fn law_second_addition_is_duplicate(
    shelf: Shelf,
    locator: Seq<char>,
    title: Seq<char>,
    description: Seq<char>,
    second_title: Seq<char>,
    second_description: Seq<char>,
    now: int,
)
    requires
        item_fields_accepted(locator, title, description),
        item_fields_accepted(locator, second_title, second_description),
    ensures
        ({
            let once = item_added(shelf, locator, title, description, now);
            let twice = item_added(once.0, locator, second_title, second_description, now);
            &&& !shelf.items.contains_key(locator) ==> once.1 == Some(Ok::<(), ErrorView>(()))
                && once.0.items == shelf.items.insert(locator, ItemRow { title, description })
            &&& shelf.items.contains_key(locator) ==> once.1 == Some(
                Err::<(), ErrorView>(ErrorView::DuplicateItem),
            ) && once.0 == shelf
            &&& twice.1 == Some(Err::<(), ErrorView>(ErrorView::DuplicateItem))
            &&& twice.0 == once.0
        }),
{
    reveal_with_fuel(drive, 2);
}

/// Renaming an item to the locator it already has is no conflict: the edit
/// succeeds, whatever else it changes, and changes nothing if that is all
/// it asks for.
pub proof fn law_rename_to_self_is_no_conflict(
    shelf: Shelf,
    locator: Seq<char>,
    new_title: Option<Seq<char>>,
    new_description: Option<Seq<char>>,
    now: int,
)
    requires
        !is_blank_text(locator),
        matches_word_pattern(locator),
        !given_blank(new_title),
        !given_blank(new_description),
    ensures
        item_edited(shelf, locator, Some(locator), new_title, new_description, now).1 == Some(
            Ok::<(), ErrorView>(()),
        ),
        item_edited(shelf, locator, Some(locator), None, None, now).0 == shelf,
{
    reveal_with_fuel(drive, 2);
    if shelf.items.contains_key(locator) {
        assert(shelf.items.remove(locator).insert(locator, shelf.items[locator])
            =~= shelf.items);
        assert(shelf.reviews_moved(locator, locator) =~= shelf.reviews);
    }
}

/// Renaming an item to a locator that another item has fails with
/// `DuplicateItem` and changes nothing.
pub proof fn law_rename_to_taken_locator_conflicts(
    shelf: Shelf,
    locator: Seq<char>,
    new_locator: Seq<char>,
    now: int,
)
    requires
        !is_blank_text(new_locator),
        matches_word_pattern(new_locator),
        new_locator != locator,
        shelf.items.contains_key(locator),
        shelf.items.contains_key(new_locator),
    ensures
        item_edited(shelf, locator, Some(new_locator), None, None, now) == (
            shelf,
            Some(Err::<(), ErrorView>(ErrorView::DuplicateItem)),
        ),
{
    reveal_with_fuel(drive, 2);
}

} // verus!
