//! The operations run end to end against a small store kept in memory.

use catalog::error::DatabaseError;
use catalog::items::{add_item, edit_item, get_item, get_items, remove_item};
use catalog::model::{Item, RatingItem, RatingUser, User};
use catalog::protocol::{
    Credentials, FailureKind, Listing, Reply, Statement, Step, StoreFailure,
};
use catalog::ratings::{
    get_item_rating, get_item_ratings, get_user_ratings, rate_item, remove_review,
};
use catalog::users::{edit_user, get_user, get_users, login_user, register_user, remove_user};

struct Account {
    username: String,
    password_hash: String,
    is_admin: bool,
    avatar_hue: i16,
    has_avatar: bool,
}

struct Entry {
    locator: String,
    title: String,
    description: String,
}

struct Review {
    locator: String,
    username: String,
    rating: i16,
    date: i64,
}

struct MemoryStore {
    accounts: Vec<Account>,
    entries: Vec<Entry>,
    reviews: Vec<Review>,
    clock: i64,
    statements: usize,
}

fn failure(kind: FailureKind, detail: &str) -> Reply {
    Reply::Failed(StoreFailure { kind, detail: detail.to_string() })
}

fn matches_query(text: &str, query: &Option<String>) -> bool {
    match query {
        Some(wanted) => text.to_lowercase().contains(&wanted.to_lowercase()),
        None => true,
    }
}

fn window<T>(rows: Vec<T>, limit: i64, offset: i64) -> Vec<T> {
    rows.into_iter().skip(offset as usize).take(limit as usize).collect()
}

impl MemoryStore {
    fn new() -> MemoryStore {
        MemoryStore {
            accounts: Vec::new(),
            entries: Vec::new(),
            reviews: Vec::new(),
            clock: 0,
            statements: 0,
        }
    }

    fn ratings_of(&self, locator: &str) -> Vec<i16> {
        self.reviews.iter().filter(|r| r.locator == locator).map(|r| r.rating).collect()
    }

    fn score_of(&self, locator: &str) -> i32 {
        let ratings = self.ratings_of(locator);
        if ratings.is_empty() {
            0
        } else {
            let sum: i64 = ratings.iter().map(|r| *r as i64).sum();
            ((sum * 100 + ratings.len() as i64 / 2) / ratings.len() as i64) as i32
        }
    }

    fn item(&self, entry: &Entry) -> Item {
        let score = self.score_of(&entry.locator);
        let count = self.ratings_of(&entry.locator).len() as i64;
        let mut higher_scores: Vec<i32> = self
            .entries
            .iter()
            .map(|e| self.score_of(&e.locator))
            .filter(|s| *s > score)
            .collect();
        higher_scores.sort();
        higher_scores.dedup();
        let mut higher_counts: Vec<i64> = self
            .entries
            .iter()
            .map(|e| self.ratings_of(&e.locator).len() as i64)
            .filter(|c| *c > count)
            .collect();
        higher_counts.sort();
        higher_counts.dedup();
        Item {
            locator: entry.locator.clone(),
            title: entry.title.clone(),
            description: entry.description.clone(),
            score_hundredths: score,
            review_count: count,
            rank: higher_scores.len() as i64 + 1,
            popularity: higher_counts.len() as i64 + 1,
        }
    }

    fn user(&self, account: &Account) -> User {
        User {
            username: account.username.clone(),
            is_admin: account.is_admin,
            avatar_hue: account.avatar_hue,
            has_avatar: account.has_avatar,
        }
    }

    fn listed_items(&self, query: &Option<String>) -> Vec<Item> {
        let mut rows: Vec<Item> = self
            .entries
            .iter()
            .filter(|e| matches_query(&e.title, query))
            .map(|e| self.item(e))
            .collect();
        rows.sort_by(|a, b| b.score_hundredths.cmp(&a.score_hundredths));
        rows
    }

    fn listed_users(&self, query: &Option<String>) -> Vec<User> {
        self.accounts
            .iter()
            .filter(|a| matches_query(&a.username, query))
            .map(|a| self.user(a))
            .collect()
    }

    fn listed_item_reviews(&self, locator: &str) -> Vec<RatingItem> {
        let mut rows: Vec<&Review> = self.reviews.iter().filter(|r| r.locator == locator).collect();
        rows.sort_by(|a, b| b.date.cmp(&a.date));
        rows.into_iter()
            .map(|r| RatingItem {
                user: self.user(self.accounts.iter().find(|a| a.username == r.username).unwrap()),
                rating: r.rating,
                date: r.date,
            })
            .collect()
    }

    fn listed_user_reviews(&self, username: &str) -> Vec<RatingUser> {
        let mut rows: Vec<&Review> =
            self.reviews.iter().filter(|r| r.username == username).collect();
        rows.sort_by(|a, b| b.date.cmp(&a.date));
        rows.into_iter()
            .map(|r| RatingUser {
                item: self.item(self.entries.iter().find(|e| e.locator == r.locator).unwrap()),
                rating: r.rating,
                date: r.date,
            })
            .collect()
    }

    fn count(&self, listing: &Listing) -> i64 {
        match listing {
            Listing::Items { query } => self.listed_items(query).len() as i64,
            Listing::Users { query } => self.listed_users(query).len() as i64,
            Listing::ItemReviews { locator } => self.listed_item_reviews(locator).len() as i64,
            Listing::UserReviews { username } => self.listed_user_reviews(username).len() as i64,
        }
    }

    fn list(&self, listing: &Listing, limit: i64, offset: i64) -> Reply {
        match listing {
            Listing::Items { query } => Reply::Items(window(self.listed_items(query), limit, offset)),
            Listing::Users { query } => Reply::Users(window(self.listed_users(query), limit, offset)),
            Listing::ItemReviews { locator } => {
                Reply::ItemRatings(window(self.listed_item_reviews(locator), limit, offset))
            }
            Listing::UserReviews { username } => {
                Reply::UserRatings(window(self.listed_user_reviews(username), limit, offset))
            }
        }
    }

    fn execute(&mut self, statement: &Statement) -> Reply {
        self.clock += 1;
        self.statements += 1;
        match statement {
            Statement::FindCredentials { username } => {
                match self.accounts.iter().find(|a| &a.username == username) {
                    Some(a) => Reply::Credentials(Credentials {
                        password_hash: a.password_hash.clone(),
                        is_admin: a.is_admin,
                        avatar_hue: a.avatar_hue,
                        has_avatar: a.has_avatar,
                    }),
                    None => failure(FailureKind::RowNotFound, "no rows"),
                }
            }
            Statement::InsertUser { username, password_hash } => {
                if self.accounts.iter().any(|a| &a.username == username) {
                    return failure(FailureKind::UniqueViolation, "duplicate username");
                }
                self.accounts.push(Account {
                    username: username.clone(),
                    password_hash: password_hash.clone(),
                    is_admin: false,
                    avatar_hue: 210,
                    has_avatar: false,
                });
                Reply::Done
            }
            Statement::UpdateUser { username, new_username, has_avatar, new_password_hash } => {
                if let Some(renamed) = new_username {
                    if renamed != username && self.accounts.iter().any(|a| &a.username == renamed) {
                        return failure(FailureKind::UniqueViolation, "duplicate username");
                    }
                }
                if let Some(account) = self.accounts.iter_mut().find(|a| &a.username == username) {
                    if let Some(renamed) = new_username {
                        account.username = renamed.clone();
                        for review in self.reviews.iter_mut().filter(|r| &r.username == username) {
                            review.username = renamed.clone();
                        }
                    }
                    if let Some(flag) = has_avatar {
                        account.has_avatar = *flag;
                    }
                    if let Some(hash) = new_password_hash {
                        account.password_hash = hash.clone();
                    }
                }
                Reply::Done
            }
            Statement::DeleteUser { username } => {
                self.accounts.retain(|a| &a.username != username);
                self.reviews.retain(|r| &r.username != username);
                Reply::Done
            }
            Statement::FindUser { username } => {
                match self.accounts.iter().find(|a| &a.username == username) {
                    Some(a) => Reply::User(self.user(a)),
                    None => failure(FailureKind::RowNotFound, "no rows"),
                }
            }
            Statement::FindItem { locator } => {
                match self.entries.iter().find(|e| &e.locator == locator) {
                    Some(e) => Reply::Item(self.item(e)),
                    None => failure(FailureKind::RowNotFound, "no rows"),
                }
            }
            Statement::InsertItem { locator, title, description } => {
                if self.entries.iter().any(|e| &e.locator == locator) {
                    return failure(FailureKind::UniqueViolation, "duplicate locator");
                }
                self.entries.push(Entry {
                    locator: locator.clone(),
                    title: title.clone(),
                    description: description.clone(),
                });
                Reply::Done
            }
            Statement::UpdateItem { locator, new_locator, new_title, new_description } => {
                if let Some(renamed) = new_locator {
                    if renamed != locator && self.entries.iter().any(|e| &e.locator == renamed) {
                        return failure(FailureKind::UniqueViolation, "duplicate locator");
                    }
                }
                if let Some(entry) = self.entries.iter_mut().find(|e| &e.locator == locator) {
                    if let Some(renamed) = new_locator {
                        entry.locator = renamed.clone();
                        for review in self.reviews.iter_mut().filter(|r| &r.locator == locator) {
                            review.locator = renamed.clone();
                        }
                    }
                    if let Some(title) = new_title {
                        entry.title = title.clone();
                    }
                    if let Some(description) = new_description {
                        entry.description = description.clone();
                    }
                }
                Reply::Done
            }
            Statement::DeleteItem { locator } => {
                self.entries.retain(|e| &e.locator != locator);
                self.reviews.retain(|r| &r.locator != locator);
                Reply::Done
            }
            Statement::InsertReview { locator, username, rating } => {
                if !self.entries.iter().any(|e| &e.locator == locator)
                    || !self.accounts.iter().any(|a| &a.username == username)
                {
                    return failure(FailureKind::Other, "null value in column");
                }
                if self.reviews.iter().any(|r| &r.locator == locator && &r.username == username) {
                    return failure(FailureKind::UniqueViolation, "duplicate review");
                }
                self.reviews.push(Review {
                    locator: locator.clone(),
                    username: username.clone(),
                    rating: *rating,
                    date: self.clock,
                });
                Reply::Done
            }
            Statement::UpdateReview { locator, username, rating } => {
                let now = self.clock;
                for review in self
                    .reviews
                    .iter_mut()
                    .filter(|r| &r.locator == locator && &r.username == username)
                {
                    review.rating = *rating;
                    review.date = now;
                }
                Reply::Done
            }
            Statement::DeleteReview { locator, username } => {
                self.reviews.retain(|r| !(&r.locator == locator && &r.username == username));
                Reply::Done
            }
            Statement::FindRating { locator, username } => {
                match self
                    .reviews
                    .iter()
                    .find(|r| &r.locator == locator && &r.username == username)
                {
                    Some(r) => Reply::Rating(r.rating),
                    None => failure(FailureKind::RowNotFound, "no rows"),
                }
            }
            Statement::Count { listing } => Reply::Count(Some(self.count(listing))),
            Statement::List { listing, limit, offset } => self.list(listing, *limit, *offset),
        }
    }

    fn run<T>(&mut self, operation: impl Fn(&Vec<Reply>) -> Step<T>) -> Result<T, DatabaseError> {
        let mut transcript: Vec<Reply> = Vec::new();
        loop {
            match operation(&transcript) {
                Step::Done(result) => return result,
                Step::Ask(statement) => {
                    assert!(transcript.len() < 4, "the operation keeps asking");
                    let reply = self.execute(&statement);
                    transcript.push(reply);
                }
            }
        }
    }
}

const STRONG: &str = "Str0ng!Pass123";

fn store_with_users(names: &[&str]) -> MemoryStore {
    let mut store = MemoryStore::new();
    for name in names {
        store.accounts.push(Account {
            username: name.to_string(),
            password_hash: String::new(),
            is_admin: false,
            avatar_hue: 0,
            has_avatar: false,
        });
    }
    store
}

fn store_with_items(count: usize) -> MemoryStore {
    let mut store = MemoryStore::new();
    for index in 0..count {
        store.entries.push(Entry {
            locator: format!("item{}", index),
            title: format!("Title {}", index),
            description: format!("Description {}", index),
        });
    }
    store
}

#[test]
fn register_then_login_succeeds() {
    let mut store = MemoryStore::new();
    let registered = store.run(|t| register_user("bob", STRONG, STRONG, t)).unwrap();
    assert_eq!(registered.username, "bob");
    assert!(!registered.is_admin);
    let user = store.run(|t| login_user("bob", STRONG, t)).unwrap();
    assert_eq!(
        user,
        User { username: "bob".to_string(), is_admin: false, avatar_hue: 210, has_avatar: false }
    );
}

#[test]
fn registration_stores_a_hash_not_the_password() {
    let mut store = MemoryStore::new();
    store.run(|t| register_user("bob", STRONG, STRONG, t)).unwrap();
    let stored = &store.accounts[0].password_hash;
    assert_ne!(stored, STRONG);
    assert!(stored.starts_with("$argon2"));
}

#[test]
fn two_registrations_salt_differently() {
    let mut store = MemoryStore::new();
    store.run(|t| register_user("bob", STRONG, STRONG, t)).unwrap();
    store.run(|t| register_user("eve", STRONG, STRONG, t)).unwrap();
    assert_ne!(store.accounts[0].password_hash, store.accounts[1].password_hash);
}

#[test]
fn register_with_space_in_username_is_illegal() {
    let mut store = MemoryStore::new();
    let outcome = store.run(|t| register_user("a b", "x", "x", t));
    assert_eq!(outcome, Err(DatabaseError::IllegalUsername));
    assert_eq!(store.statements, 0);
}

#[test]
fn register_checks_in_order() {
    let mut store = MemoryStore::new();
    assert_eq!(
        store.run(|t| register_user(" ", STRONG, STRONG, t)),
        Err(DatabaseError::EmptyFields)
    );
    assert_eq!(
        store.run(|t| register_user("bob", STRONG, "  ", t)),
        Err(DatabaseError::EmptyFields)
    );
    assert_eq!(
        store.run(|t| register_user("b-b", STRONG, "other", t)),
        Err(DatabaseError::IllegalUsername)
    );
    assert_eq!(
        store.run(|t| register_user("bob", STRONG, "Str0ng!Pass124", t)),
        Err(DatabaseError::PasswordsDiffer)
    );
    assert_eq!(
        store.run(|t| register_user("bob", "abc", "abc", t)),
        Err(DatabaseError::WeakPassword)
    );
    assert_eq!(store.statements, 0);
}

#[test]
fn register_twice_is_duplicate_user() {
    let mut store = MemoryStore::new();
    store.run(|t| register_user("bob", STRONG, STRONG, t)).unwrap();
    let again = store.run(|t| register_user("bob", STRONG, STRONG, t));
    assert_eq!(again, Err(DatabaseError::DuplicateUser));
    assert_eq!(store.accounts.len(), 1);
}

#[test]
fn login_failures_are_alike() {
    let mut store = MemoryStore::new();
    store.run(|t| register_user("bob", STRONG, STRONG, t)).unwrap();
    let unknown = store.run(|t| login_user("nouser", "whatever", t));
    let wrong = store.run(|t| login_user("bob", "wrongpass", t));
    assert_eq!(unknown, Err(DatabaseError::IncorrectCredentials));
    assert_eq!(wrong, Err(DatabaseError::IncorrectCredentials));
    assert_eq!(unknown, wrong);
}

#[test]
fn login_with_blank_fields_asks_nothing() {
    let mut store = MemoryStore::new();
    assert_eq!(store.run(|t| login_user("", "x", t)), Err(DatabaseError::EmptyFields));
    assert_eq!(store.run(|t| login_user("bob", " \t", t)), Err(DatabaseError::EmptyFields));
    assert_eq!(store.statements, 0);
}

#[test]
fn login_with_unreadable_hash_is_internal() {
    let mut store = store_with_users(&["bob"]);
    store.accounts[0].password_hash = "not a hash".to_string();
    let outcome = store.run(|t| login_user("bob", STRONG, t));
    assert!(matches!(outcome, Err(DatabaseError::InternalError(_))));
}

#[test]
fn add_item_twice_is_duplicate() {
    let mut store = MemoryStore::new();
    assert_eq!(store.run(|t| add_item("m1", "Title", "Desc", t)), Ok(()));
    assert_eq!(
        store.run(|t| add_item("m1", "Title", "Desc", t)),
        Err(DatabaseError::DuplicateItem)
    );
    assert_eq!(store.entries.len(), 1);
}

#[test]
fn rename_to_own_locator_is_no_conflict() {
    let mut store = MemoryStore::new();
    store.run(|t| add_item("m1", "Title", "Desc", t)).unwrap();
    assert_eq!(store.run(|t| edit_item("m1", Some("m1"), None, None, t)), Ok(()));
    assert_eq!(store.entries[0].title, "Title");
}

#[test]
fn rename_to_taken_locator_is_duplicate() {
    let mut store = MemoryStore::new();
    store.run(|t| add_item("m1", "Title", "Desc", t)).unwrap();
    store.run(|t| add_item("m2", "Other", "Desc", t)).unwrap();
    assert_eq!(
        store.run(|t| edit_item("m2", Some("m1"), None, None, t)),
        Err(DatabaseError::DuplicateItem)
    );
}

#[test]
fn add_item_checks_fields_first() {
    let mut store = MemoryStore::new();
    assert_eq!(store.run(|t| add_item("m1", " ", "Desc", t)), Err(DatabaseError::EmptyFields));
    assert_eq!(
        store.run(|t| add_item("m 1", "Title", "Desc", t)),
        Err(DatabaseError::IllegalLocator)
    );
    assert_eq!(store.statements, 0);
}

#[test]
fn edit_item_merges_fields() {
    let mut store = MemoryStore::new();
    store.run(|t| add_item("m1", "Title", "Desc", t)).unwrap();
    store.run(|t| edit_item("m1", None, Some("New title"), None, t)).unwrap();
    let item = store.run(|t| get_item("m1", t)).unwrap().unwrap();
    assert_eq!(item.title, "New title");
    assert_eq!(item.description, "Desc");
    assert_eq!(
        store.run(|t| edit_item("m1", None, Some("  "), None, t)),
        Err(DatabaseError::EmptyFields)
    );
    assert_eq!(
        store.run(|t| edit_item("m1", Some("m!"), None, None, t)),
        Err(DatabaseError::IllegalLocator)
    );
}

#[test]
fn remove_item_takes_its_reviews() {
    let mut store = store_with_users(&["ann"]);
    store.run(|t| add_item("m1", "Title", "Desc", t)).unwrap();
    store.run(|t| rate_item("ann", "m1", 7, t)).unwrap();
    assert_eq!(store.run(|t| remove_item("m1", t)), Ok(()));
    assert_eq!(store.run(|t| get_item("m1", t)), Ok(None));
    assert!(store.reviews.is_empty());
}

#[test]
fn rating_twice_keeps_one_review() {
    let mut store = store_with_users(&["ann"]);
    store.run(|t| add_item("m1", "Title", "Desc", t)).unwrap();
    store.run(|t| rate_item("ann", "m1", 4, t)).unwrap();
    let first_date = store.reviews[0].date;
    store.run(|t| rate_item("ann", "m1", 15, t)).unwrap();
    assert_eq!(store.reviews.len(), 1);
    assert_eq!(store.reviews[0].rating, 10);
    assert!(store.reviews[0].date > first_date);
    assert_eq!(store.run(|t| get_item_rating("m1", "ann", t)), Ok(Some(10)));
}

#[test]
fn rating_is_clamped_from_below() {
    let mut store = store_with_users(&["ann"]);
    store.run(|t| add_item("m1", "Title", "Desc", t)).unwrap();
    store.run(|t| rate_item("ann", "m1", -3, t)).unwrap();
    assert_eq!(store.reviews[0].rating, 1);
}

#[test]
fn rating_a_missing_item_is_internal() {
    let mut store = store_with_users(&["ann"]);
    let outcome = store.run(|t| rate_item("ann", "nothing", 5, t));
    assert_eq!(outcome, Err(DatabaseError::InternalError("null value in column".to_string())));
}

#[test]
fn unrate_without_rating_succeeds() {
    let mut store = store_with_users(&["ann"]);
    store.run(|t| add_item("m1", "Title", "Desc", t)).unwrap();
    assert_eq!(store.run(|t| remove_review("m1", "ann", t)), Ok(()));
    assert!(store.reviews.is_empty());
    assert_eq!(store.run(|t| get_item_rating("m1", "ann", t)), Ok(None));
}

#[test]
fn aggregates_follow_reviews() {
    let mut store = store_with_users(&["ann", "ben", "cat"]);
    store.run(|t| add_item("m1", "Title", "Desc", t)).unwrap();
    store.run(|t| rate_item("ann", "m1", 10, t)).unwrap();
    store.run(|t| rate_item("ben", "m1", 10, t)).unwrap();
    store.run(|t| rate_item("cat", "m1", 8, t)).unwrap();
    let item = store.run(|t| get_item("m1", t)).unwrap().unwrap();
    assert_eq!(item.review_count, 3);
    assert_eq!(item.score_hundredths, 933);
    let page = store.run(|t| get_items(None, None, t)).unwrap().unwrap();
    assert_eq!(page.items, vec![item]);

    store.run(|t| remove_review("m1", "cat", t)).unwrap();
    let item = store.run(|t| get_item("m1", t)).unwrap().unwrap();
    assert_eq!(item.review_count, 2);
    assert_eq!(item.score_hundredths, 1000);
    let page = store.run(|t| get_items(Some(0), None, t)).unwrap().unwrap();
    assert_eq!(page.items, vec![item]);
}

#[test]
fn pages_partition_the_listing() {
    let mut store = store_with_items(30);
    let all = store.listed_items(&None);
    let mut seen: Vec<Item> = Vec::new();
    for (index, expected) in [(0, 12usize), (1, 12), (2, 6)] {
        let page = store.run(|t| get_items(Some(index), None, t)).unwrap().unwrap();
        assert_eq!(page.items.len(), expected);
        assert_eq!(page.current_page, index);
        assert_eq!(page.number_of_pages, 3);
        assert_eq!(page.target, "/items");
        assert_eq!(page.query, None);
        seen.extend(page.items);
    }
    assert_eq!(seen, all);
}

#[test]
fn pages_outside_the_listing_do_not_exist() {
    let mut store = store_with_items(30);
    assert_eq!(store.run(|t| get_items(Some(3), None, t)), Ok(None));
    assert_eq!(store.run(|t| get_items(Some(-1), None, t)), Ok(None));
    assert_eq!(store.run(|t| get_items(Some(i32::MAX), None, t)), Ok(None));
    let mut empty = MemoryStore::new();
    assert_eq!(empty.run(|t| get_items(None, None, t)), Ok(None));
    assert_eq!(empty.run(|t| get_items(Some(0), None, t)), Ok(None));
    assert_eq!(empty.run(|t| get_users(None, None, t)), Ok(None));
}

#[test]
fn no_page_is_decided_after_the_count() {
    let mut store = store_with_items(30);
    store.run(|t| get_items(Some(7), None, t)).unwrap();
    assert_eq!(store.statements, 1);
}

#[test]
fn a_full_last_page_is_the_last() {
    let mut store = store_with_items(24);
    let page = store.run(|t| get_items(Some(1), None, t)).unwrap().unwrap();
    assert_eq!(page.items.len(), 12);
    assert_eq!(page.number_of_pages, 2);
    assert_eq!(store.run(|t| get_items(Some(2), None, t)), Ok(None));
}

#[test]
fn search_filters_the_listing() {
    let mut store = store_with_items(30);
    let page = store.run(|t| get_items(None, Some("title 2"), t)).unwrap().unwrap();
    assert_eq!(page.items.len(), 11);
    assert_eq!(page.number_of_pages, 1);
    assert_eq!(page.query, Some("title 2".to_string()));
    assert_eq!(store.run(|t| get_items(None, Some("nothing like it"), t)), Ok(None));
}

#[test]
fn users_are_listed_by_twelve() {
    let names: Vec<String> = (0..13).map(|i| format!("user{}", i)).collect();
    let borrowed: Vec<&str> = names.iter().map(|n| n.as_str()).collect();
    let mut store = store_with_users(&borrowed);
    let first = store.run(|t| get_users(None, None, t)).unwrap().unwrap();
    assert_eq!(first.items.len(), 12);
    assert_eq!(first.number_of_pages, 2);
    assert_eq!(first.target, "/users");
    let second = store.run(|t| get_users(Some(1), None, t)).unwrap().unwrap();
    assert_eq!(second.items.len(), 1);
    assert_eq!(second.items[0].username, "user12");
    let found = store.run(|t| get_users(None, Some("user12"), t)).unwrap().unwrap();
    assert_eq!(found.items.len(), 1);
    assert_eq!(found.query, Some("user12".to_string()));
}

#[test]
fn get_user_finds_or_not() {
    let mut store = store_with_users(&["ann"]);
    let found = store.run(|t| get_user("ann", t)).unwrap();
    assert_eq!(found.map(|u| u.username), Some("ann".to_string()));
    assert_eq!(store.run(|t| get_user("nobody", t)), Ok(None));
}

#[test]
fn rating_histories_are_paged_by_three() {
    let mut store = store_with_users(&["ann", "ben", "cat", "dan"]);
    store.run(|t| add_item("m1", "Title", "Desc", t)).unwrap();
    store.run(|t| add_item("m2", "Other", "Desc", t)).unwrap();
    for (name, rating) in [("ann", 3), ("ben", 5), ("cat", 7), ("dan", 9)] {
        store.run(|t| rate_item(name, "m1", rating, t)).unwrap();
    }
    store.run(|t| rate_item("ann", "m2", 6, t)).unwrap();

    let first = store.run(|t| get_item_ratings(None, "m1", t)).unwrap().unwrap();
    assert_eq!(first.target, "/items/m1");
    assert_eq!(first.number_of_pages, 2);
    assert_eq!(first.query, None);
    let names: Vec<&str> = first.items.iter().map(|r| r.user.username.as_str()).collect();
    assert_eq!(names, vec!["dan", "cat", "ben"]);
    let second = store.run(|t| get_item_ratings(Some(1), "m1", t)).unwrap().unwrap();
    assert_eq!(second.items.len(), 1);
    assert_eq!(second.items[0].rating, 3);
    assert_eq!(store.run(|t| get_item_ratings(Some(2), "m1", t)), Ok(None));

    let by_ann = store.run(|t| get_user_ratings(None, "ann", t)).unwrap().unwrap();
    assert_eq!(by_ann.target, "/users/ann");
    let locators: Vec<&str> = by_ann.items.iter().map(|r| r.item.locator.as_str()).collect();
    assert_eq!(locators, vec!["m2", "m1"]);
    assert_eq!(store.run(|t| get_user_ratings(None, "dan", t)).unwrap().unwrap().items.len(), 1);
    assert_eq!(store.run(|t| get_user_ratings(Some(0), "nobody", t)), Ok(None));
}

#[test]
fn edit_user_renames_and_keeps_the_rest() {
    let mut store = MemoryStore::new();
    store.run(|t| register_user("bob", STRONG, STRONG, t)).unwrap();
    let old_hash = store.accounts[0].password_hash.clone();
    assert_eq!(store.run(|t| edit_user("bob", Some("rob"), None, None, None, t)), Ok(()));
    assert_eq!(store.accounts[0].username, "rob");
    assert_eq!(store.accounts[0].password_hash, old_hash);
    assert!(!store.accounts[0].has_avatar);
    assert!(store.run(|t| login_user("rob", STRONG, t)).is_ok());
}

#[test]
fn edit_user_changes_password_when_both_entries_are_given() {
    let mut store = MemoryStore::new();
    store.run(|t| register_user("bob", STRONG, STRONG, t)).unwrap();
    let new = "An0ther!Pass987";
    assert_eq!(
        store.run(|t| edit_user("bob", Some("bob"), Some(true), Some(new), Some(new), t)),
        Ok(())
    );
    assert!(store.accounts[0].has_avatar);
    assert!(store.run(|t| login_user("bob", new, t)).is_ok());
    assert_eq!(
        store.run(|t| login_user("bob", STRONG, t)),
        Err(DatabaseError::IncorrectCredentials)
    );
}

#[test]
fn edit_user_leaves_password_when_an_entry_is_blank() {
    let mut store = MemoryStore::new();
    store.run(|t| register_user("bob", STRONG, STRONG, t)).unwrap();
    assert_eq!(store.run(|t| edit_user("bob", None, None, Some(""), Some(""), t)), Ok(()));
    assert_eq!(store.run(|t| edit_user("bob", None, None, Some("abc"), Some(" "), t)), Ok(()));
    assert_eq!(store.run(|t| edit_user("bob", None, None, Some("abc"), None, t)), Ok(()));
    assert!(store.run(|t| login_user("bob", STRONG, t)).is_ok());
}

#[test]
fn edit_user_refuses_bad_fields() {
    let mut store = MemoryStore::new();
    store.run(|t| register_user("bob", STRONG, STRONG, t)).unwrap();
    store.run(|t| register_user("eve", STRONG, STRONG, t)).unwrap();
    assert_eq!(
        store.run(|t| edit_user("bob", Some(" "), None, None, None, t)),
        Err(DatabaseError::EmptyFields)
    );
    assert_eq!(
        store.run(|t| edit_user("bob", Some("b b"), None, None, None, t)),
        Err(DatabaseError::IllegalUsername)
    );
    assert_eq!(
        store.run(|t| edit_user("bob", None, None, Some(STRONG), Some("else"), t)),
        Err(DatabaseError::PasswordsDiffer)
    );
    assert_eq!(
        store.run(|t| edit_user("bob", None, None, Some("abc"), Some("abc"), t)),
        Err(DatabaseError::WeakPassword)
    );
    assert_eq!(
        store.run(|t| edit_user("bob", Some("eve"), None, None, None, t)),
        Err(DatabaseError::DuplicateUser)
    );
}

#[test]
fn remove_user_takes_their_reviews() {
    let mut store = store_with_users(&["ann", "ben"]);
    store.run(|t| add_item("m1", "Title", "Desc", t)).unwrap();
    store.run(|t| rate_item("ann", "m1", 7, t)).unwrap();
    store.run(|t| rate_item("ben", "m1", 9, t)).unwrap();
    assert_eq!(store.run(|t| remove_user("ann", t)), Ok(()));
    assert_eq!(store.run(|t| get_user("ann", t)), Ok(None));
    assert_eq!(store.reviews.len(), 1);
    let item = store.run(|t| get_item("m1", t)).unwrap().unwrap();
    assert_eq!(item.review_count, 1);
    assert_eq!(item.score_hundredths, 900);
}

#[test]
fn rank_and_popularity_are_dense() {
    let mut store = store_with_users(&["ann", "ben"]);
    for locator in ["a", "b", "c"] {
        store.run(|t| add_item(locator, "Title", "Desc", t)).unwrap();
    }
    store.run(|t| rate_item("ann", "a", 9, t)).unwrap();
    store.run(|t| rate_item("ben", "a", 9, t)).unwrap();
    store.run(|t| rate_item("ann", "b", 9, t)).unwrap();
    store.run(|t| rate_item("ann", "c", 4, t)).unwrap();
    let a = store.run(|t| get_item("a", t)).unwrap().unwrap();
    let b = store.run(|t| get_item("b", t)).unwrap().unwrap();
    let c = store.run(|t| get_item("c", t)).unwrap().unwrap();
    assert_eq!((a.rank, b.rank, c.rank), (1, 1, 2));
    assert_eq!((a.popularity, b.popularity, c.popularity), (1, 2, 2));
    let page = store.run(|t| get_items(None, None, t)).unwrap().unwrap();
    assert_eq!(page.items, vec![a, b, c]);
}
