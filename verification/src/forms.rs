//! Whether a submitted form carries the fields its operation needs.

use crate::error::{DatabaseError, ErrorView};
use vstd::prelude::*;

verus! {

/// The refusal of a form that lacks a field.
pub open spec fn incomplete(missing: bool) -> Option<ErrorView> {
    if missing {
        Some(ErrorView::EmptyFields)
    } else {
        None
    }
}

/// An edit of a user must carry the username.
pub fn check_user_form(new_username: Option<&str>) -> (refusal: Option<DatabaseError>)
    ensures
        refusal.deep_view() == incomplete(new_username is None),
{
    if new_username.is_none() {
        Some(DatabaseError::EmptyFields)
    } else {
        None
    }
}

/// An edit of an item must carry the locator, the title and the
/// description; the cover image may stay.
pub fn check_item_edit_form(
    new_locator: Option<&str>,
    new_title: Option<&str>,
    new_description: Option<&str>,
) -> (refusal: Option<DatabaseError>)
    ensures
        refusal.deep_view() == incomplete(
            new_locator is None || new_title is None || new_description is None,
        ),
{
    if new_locator.is_none() || new_title.is_none() || new_description.is_none() {
        Some(DatabaseError::EmptyFields)
    } else {
        None
    }
}

/// A new item must carry the locator, the cover image, the title and the
/// description.
pub fn check_item_add_form(
    locator: Option<&str>,
    has_image: bool,
    title: Option<&str>,
    description: Option<&str>,
) -> (refusal: Option<DatabaseError>)
    ensures
        refusal.deep_view() == incomplete(
            locator is None || !has_image || title is None || description is None,
        ),
{
    if locator.is_none() || !has_image || title.is_none() || description.is_none() {
        Some(DatabaseError::EmptyFields)
    } else {
        None
    }
}

} // verus!
