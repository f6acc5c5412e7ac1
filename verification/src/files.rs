//! What the file store has to do after a change to an item or a user.
//!
//! Cover images are kept under the item's locator and avatars under the
//! username. The operations never touch a file; they name the changes, in
//! the order in which the caller carries them out.

use crate::error::{DatabaseError, ErrorView};
use crate::text::{has_prefix, merged};
use vstd::prelude::*;
use vstd::string::StringExecFns;

verus! {

/// One change to the file store.
#[derive(Debug, Clone, PartialEq, Eq)]
pub enum FileIntent {
    /// Delete the file.
    Remove { path: String },
    /// Delete the file if it exists.
    RemoveIfPresent { path: String },
    /// Move the file.
    Rename { from: String, to: String },
    /// Move the file if it exists.
    RenameIfPresent { from: String, to: String },
    /// Write the uploaded content to the file.
    Write { path: String },
}

/// Mathematical value of a [`FileIntent`].
pub enum IntentView {
    Remove { path: Seq<char> },
    RemoveIfPresent { path: Seq<char> },
    Rename { from: Seq<char>, to: Seq<char> },
    RenameIfPresent { from: Seq<char>, to: Seq<char> },
    Write { path: Seq<char> },
}

impl DeepView for FileIntent {
    type V = IntentView;

    open spec fn deep_view(&self) -> IntentView {
        match self {
            FileIntent::Remove { path } => IntentView::Remove { path: path@ },
            FileIntent::RemoveIfPresent { path } => IntentView::RemoveIfPresent { path: path@ },
            FileIntent::Rename { from, to } => IntentView::Rename { from: from@, to: to@ },
            FileIntent::RenameIfPresent { from, to } => IntentView::RenameIfPresent {
                from: from@,
                to: to@,
            },
            FileIntent::Write { path } => IntentView::Write { path: path@ },
        }
    }
}

/// Where the cover image of an item is kept.
pub open spec fn cover_path(locator: Seq<char>) -> Seq<char> {
    "static/images/items/"@ + locator
}

/// Where the avatar of a user is kept.
pub open spec fn avatar_path(username: Seq<char>) -> Seq<char> {
    "static/images/avatars/"@ + username
}

/// The path of an item's cover image.
pub fn cover_file(locator: &str) -> (path: String)
    ensures
        path@ == cover_path(locator@),
{
    "static/images/items/".to_owned().concat(locator)
}

/// The path of a user's avatar.
pub fn avatar_file(username: &str) -> (path: String)
    ensures
        path@ == avatar_path(username@),
{
    "static/images/avatars/".to_owned().concat(username)
}

/// Whether an upload's content type is that of an image.
pub open spec fn is_image_type(content_type: Seq<char>) -> bool {
    "image/"@.is_prefix_of(content_type)
}

/// Accepts an upload only if its content type begins with `image/`.
pub fn check_upload(content_type: &str) -> (outcome: Option<DatabaseError>)
    ensures
        outcome.deep_view() == if is_image_type(content_type@) {
            None
        } else {
            Some(ErrorView::NotValidImage)
        },
{
    if has_prefix(content_type, "image/") {
        None
    } else {
        Some(DatabaseError::NotValidImage)
    }
}

/// What an edit asks the store to record about the avatar: an upload sets
/// it, clearing without an upload unsets it, anything else keeps it.
pub open spec fn avatar_change(uploaded: bool, clear: bool) -> Option<bool> {
    if uploaded {
        Some(true)
    } else if clear {
        Some(false)
    } else {
        None
    }
}

/// Decides the avatar flag of an edit.
pub fn avatar_flag(uploaded: bool, clear: bool) -> (flag: Option<bool>)
    ensures
        flag == avatar_change(uploaded, clear),
{
    if !uploaded && clear {
        Some(false)
    } else if uploaded {
        Some(true)
    } else {
        None
    }
}

/// The file changes that follow a successful edit of a user.
pub open spec fn user_edit_intents(
    username: Seq<char>,
    new_username: Option<Seq<char>>,
    uploaded: bool,
    clear: bool,
) -> Seq<IntentView> {
    let cleared = if clear {
        seq![IntentView::RemoveIfPresent { path: avatar_path(username) }]
    } else {
        Seq::empty()
    };
    let renamed = if new_username is Some {
        seq![
            IntentView::RenameIfPresent {
                from: avatar_path(username),
                to: avatar_path(new_username->0),
            },
        ]
    } else {
        Seq::empty()
    };
    let written = if uploaded {
        seq![IntentView::Write { path: avatar_path(merged(username, new_username)) }]
    } else {
        Seq::empty()
    };
    cleared + renamed + written
}

/// Lists the file changes that follow a successful edit of a user: the old
/// avatar goes if it was cleared, what is left of it follows a new name,
/// and an uploaded avatar is written under the name the user now has.
pub fn after_user_edit(username: &str, new_username: Option<&str>, uploaded: bool, clear: bool) -> (intents:
    Vec<FileIntent>)
    ensures
        intents.deep_view() == user_edit_intents(
            username@,
            new_username.deep_view(),
            uploaded,
            clear,
        ),
{
    let mut intents: Vec<FileIntent> = Vec::new();
    if clear {
        intents.push(FileIntent::RemoveIfPresent { path: avatar_file(username) });
    }
    if let Some(renamed) = new_username {
        intents.push(
            FileIntent::RenameIfPresent { from: avatar_file(username), to: avatar_file(renamed) },
        );
    }
    if uploaded {
        let name = match new_username {
            Some(renamed) => renamed,
            None => username,
        };
        intents.push(FileIntent::Write { path: avatar_file(name) });
    }
    assert(intents.deep_view() =~= user_edit_intents(
        username@,
        new_username.deep_view(),
        uploaded,
        clear,
    ));
    intents
}

/// The file changes that follow the removal of a user.
pub open spec fn user_removal_intents(username: Seq<char>) -> Seq<IntentView> {
    seq![IntentView::RemoveIfPresent { path: avatar_path(username) }]
}

/// Lists the file changes that follow the removal of a user.
pub fn after_user_removal(username: &str) -> (intents: Vec<FileIntent>)
    ensures
        intents.deep_view() == user_removal_intents(username@),
{
    let mut intents: Vec<FileIntent> = Vec::new();
    intents.push(FileIntent::RemoveIfPresent { path: avatar_file(username) });
    assert(intents.deep_view() =~= user_removal_intents(username@));
    intents
}

/// The file changes that follow a successful edit of an item.
pub open spec fn item_edit_intents(
    locator: Seq<char>,
    new_locator: Option<Seq<char>>,
    uploaded: bool,
) -> Seq<IntentView> {
    let renamed = if new_locator is Some {
        seq![IntentView::Rename { from: cover_path(locator), to: cover_path(new_locator->0) }]
    } else {
        Seq::empty()
    };
    let written = if uploaded {
        seq![IntentView::Write { path: cover_path(merged(locator, new_locator)) }]
    } else {
        Seq::empty()
    };
    renamed + written
}

/// Lists the file changes that follow a successful edit of an item: the
/// cover image follows a new locator, and an uploaded image is written
/// under the locator the item now has.
pub fn after_item_edit(locator: &str, new_locator: Option<&str>, uploaded: bool) -> (intents: Vec<
    FileIntent,
>)
    ensures
        intents.deep_view() == item_edit_intents(locator@, new_locator.deep_view(), uploaded),
{
    let mut intents: Vec<FileIntent> = Vec::new();
    if let Some(renamed) = new_locator {
        intents.push(FileIntent::Rename { from: cover_file(locator), to: cover_file(renamed) });
    }
    if uploaded {
        let name = match new_locator {
            Some(renamed) => renamed,
            None => locator,
        };
        intents.push(FileIntent::Write { path: cover_file(name) });
    }
    assert(intents.deep_view() =~= item_edit_intents(
        locator@,
        new_locator.deep_view(),
        uploaded,
    ));
    intents
}

/// The file changes that follow the addition of an item.
pub open spec fn item_addition_intents(locator: Seq<char>) -> Seq<IntentView> {
    seq![IntentView::Write { path: cover_path(locator) }]
}

/// Lists the file changes that follow the addition of an item.
pub fn after_item_addition(locator: &str) -> (intents: Vec<FileIntent>)
    ensures
        intents.deep_view() == item_addition_intents(locator@),
{
    let mut intents: Vec<FileIntent> = Vec::new();
    intents.push(FileIntent::Write { path: cover_file(locator) });
    assert(intents.deep_view() =~= item_addition_intents(locator@));
    intents
}

/// The file changes that follow the removal of an item.
pub open spec fn item_removal_intents(locator: Seq<char>) -> Seq<IntentView> {
    seq![IntentView::Remove { path: cover_path(locator) }]
}

/// Lists the file changes that follow the removal of an item.
pub fn after_item_removal(locator: &str) -> (intents: Vec<FileIntent>)
    ensures
        intents.deep_view() == item_removal_intents(locator@),
{
    let mut intents: Vec<FileIntent> = Vec::new();
    intents.push(FileIntent::Remove { path: cover_file(locator) });
    assert(intents.deep_view() =~= item_removal_intents(locator@));
    intents
}

} // verus!
