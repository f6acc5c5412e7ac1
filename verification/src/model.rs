//! The records the service shows, and the page envelope they travel in.

use vstd::prelude::*;

verus! {

/// An account as the rest of the service sees it; the password hash never
/// leaves the store.
#[derive(Debug, Clone, PartialEq, Eq)]
pub struct User {
    pub username: String,
    pub is_admin: bool,
    /// Hue of the generated avatar, used while the user has uploaded none.
    pub avatar_hue: i16,
    pub has_avatar: bool,
}

/// Mathematical value of a [`User`].
pub struct UserView {
    pub username: Seq<char>,
    pub is_admin: bool,
    pub avatar_hue: i16,
    pub has_avatar: bool,
}

impl DeepView for User {
    type V = UserView;

    open spec fn deep_view(&self) -> UserView {
        UserView {
            username: self.username@,
            is_admin: self.is_admin,
            avatar_hue: self.avatar_hue,
            has_avatar: self.has_avatar,
        }
    }
}

/// A catalog entry together with the aggregates the store derives from its
/// reviews.
#[derive(Debug, Clone, PartialEq, Eq)]
pub struct Item {
    pub locator: String,
    pub title: String,
    pub description: String,
    /// Mean rating on the scale from 0 to 10, in hundredths.
    pub score_hundredths: i32,
    pub review_count: i64,
    /// Dense rank by score.
    pub rank: i64,
    /// Dense rank by number of reviews.
    pub popularity: i64,
}

/// Mathematical value of an [`Item`].
pub struct ItemView {
    pub locator: Seq<char>,
    pub title: Seq<char>,
    pub description: Seq<char>,
    pub score_hundredths: i32,
    pub review_count: i64,
    pub rank: i64,
    pub popularity: i64,
}

impl DeepView for Item {
    type V = ItemView;

    open spec fn deep_view(&self) -> ItemView {
        ItemView {
            locator: self.locator@,
            title: self.title@,
            description: self.description@,
            score_hundredths: self.score_hundredths,
            review_count: self.review_count,
            rank: self.rank,
            popularity: self.popularity,
        }
    }
}

/// One review of an item, with the user who wrote it.
#[derive(Debug, Clone, PartialEq, Eq)]
pub struct RatingItem {
    pub user: User,
    pub rating: i16,
    /// When the review was last written, in microseconds since the epoch.
    pub date: i64,
}

/// Mathematical value of a [`RatingItem`].
pub struct RatingItemView {
    pub user: UserView,
    pub rating: i16,
    pub date: i64,
}

impl DeepView for RatingItem {
    type V = RatingItemView;

    open spec fn deep_view(&self) -> RatingItemView {
        RatingItemView { user: self.user.deep_view(), rating: self.rating, date: self.date }
    }
}

/// One review by a user, with the item it is about.
#[derive(Debug, Clone, PartialEq, Eq)]
pub struct RatingUser {
    pub item: Item,
    pub rating: i16,
    /// When the review was last written, in microseconds since the epoch.
    pub date: i64,
}

/// Mathematical value of a [`RatingUser`].
pub struct RatingUserView {
    pub item: ItemView,
    pub rating: i16,
    pub date: i64,
}

impl DeepView for RatingUser {
    type V = RatingUserView;

    open spec fn deep_view(&self) -> RatingUserView {
        RatingUserView { item: self.item.deep_view(), rating: self.rating, date: self.date }
    }
}

/// One window of an ordered result.
#[derive(Debug, Clone, PartialEq, Eq)]
pub struct Page<T> {
    /// Path that the links to the other pages lead to.
    pub target: String,
    pub items: Vec<T>,
    /// Index of this page, starting at 0.
    pub current_page: i32,
    pub number_of_pages: i32,
    /// The search text that selected the result, if any.
    pub query: Option<String>,
}

/// Mathematical value of a [`Page`].
pub struct PageView<V> {
    pub target: Seq<char>,
    pub items: Seq<V>,
    pub current_page: i32,
    pub number_of_pages: i32,
    pub query: Option<Seq<char>>,
}

impl<T: DeepView> DeepView for Page<T> {
    type V = PageView<T::V>;

    open spec fn deep_view(&self) -> PageView<T::V> {
        PageView {
            target: self.target@,
            items: self.items.deep_view(),
            current_page: self.current_page,
            number_of_pages: self.number_of_pages,
            query: self.query.deep_view(),
        }
    }
}

impl<T> Page<T> {
    /// A page is well formed when its index lies among its pages.
    pub open spec fn well_formed(&self) -> bool {
        0 <= self.current_page < self.number_of_pages
    }
}

impl User {
    /// A copy with the same fields.
    pub fn duplicate(&self) -> (copy: User)
        ensures
            copy.deep_view() == self.deep_view(),
    {
        User {
            username: self.username.clone(),
            is_admin: self.is_admin,
            avatar_hue: self.avatar_hue,
            has_avatar: self.has_avatar,
        }
    }
}

impl Item {
    /// A copy with the same fields.
    pub fn duplicate(&self) -> (copy: Item)
        ensures
            copy.deep_view() == self.deep_view(),
    {
        Item {
            locator: self.locator.clone(),
            title: self.title.clone(),
            description: self.description.clone(),
            score_hundredths: self.score_hundredths,
            review_count: self.review_count,
            rank: self.rank,
            popularity: self.popularity,
        }
    }
}

impl RatingItem {
    /// A copy with the same fields.
    pub fn duplicate(&self) -> (copy: RatingItem)
        ensures
            copy.deep_view() == self.deep_view(),
    {
        RatingItem { user: self.user.duplicate(), rating: self.rating, date: self.date }
    }
}

impl RatingUser {
    /// A copy with the same fields.
    pub fn duplicate(&self) -> (copy: RatingUser)
        ensures
            copy.deep_view() == self.deep_view(),
    {
        RatingUser { item: self.item.duplicate(), rating: self.rating, date: self.date }
    }
}

/// Copies a list of users.
pub fn duplicate_users(rows: &Vec<User>) -> (copy: Vec<User>)
    ensures
        copy.deep_view() == rows.deep_view(),
{
    let mut copy: Vec<User> = Vec::new();
    let mut index: usize = 0;
    while index < rows.len()
        invariant
            index <= rows.len(),
            copy.len() == index,
            forall|i: int| 0 <= i < index ==> copy[i].deep_view() == rows[i].deep_view(),
        decreases rows.len() - index,
    {
        copy.push(rows[index].duplicate());
        index += 1;
    }
    assert(copy.deep_view() =~= rows.deep_view());
    copy
}

/// Copies a list of items.
pub fn duplicate_items(rows: &Vec<Item>) -> (copy: Vec<Item>)
    ensures
        copy.deep_view() == rows.deep_view(),
{
    let mut copy: Vec<Item> = Vec::new();
    let mut index: usize = 0;
    while index < rows.len()
        invariant
            index <= rows.len(),
            copy.len() == index,
            forall|i: int| 0 <= i < index ==> copy[i].deep_view() == rows[i].deep_view(),
        decreases rows.len() - index,
    {
        copy.push(rows[index].duplicate());
        index += 1;
    }
    assert(copy.deep_view() =~= rows.deep_view());
    copy
}

/// Copies a list of an item's reviews.
pub fn duplicate_item_ratings(rows: &Vec<RatingItem>) -> (copy: Vec<RatingItem>)
    ensures
        copy.deep_view() == rows.deep_view(),
{
    let mut copy: Vec<RatingItem> = Vec::new();
    let mut index: usize = 0;
    while index < rows.len()
        invariant
            index <= rows.len(),
            copy.len() == index,
            forall|i: int| 0 <= i < index ==> copy[i].deep_view() == rows[i].deep_view(),
        decreases rows.len() - index,
    {
        copy.push(rows[index].duplicate());
        index += 1;
    }
    assert(copy.deep_view() =~= rows.deep_view());
    copy
}

/// Copies a list of a user's reviews.
pub fn duplicate_user_ratings(rows: &Vec<RatingUser>) -> (copy: Vec<RatingUser>)
    ensures
        copy.deep_view() == rows.deep_view(),
{
    let mut copy: Vec<RatingUser> = Vec::new();
    let mut index: usize = 0;
    while index < rows.len()
        invariant
            index <= rows.len(),
            copy.len() == index,
            forall|i: int| 0 <= i < index ==> copy[i].deep_view() == rows[i].deep_view(),
        decreases rows.len() - index,
    {
        copy.push(rows[index].duplicate());
        index += 1;
    }
    assert(copy.deep_view() =~= rows.deep_view());
    copy
}

} // verus!
