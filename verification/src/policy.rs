//! Who may do what. Every rule is a predicate on the acting user, as the
//! session resolved it, and on the resource; none looks anything up.

use crate::model::{User, UserView};
use crate::text::same_text;
use vstd::prelude::*;

verus! {

/// Whether someone is signed in.
pub open spec fn signed_in(actor: Option<UserView>) -> bool {
    actor is Some
}

/// Whether the actor is a signed-in administrator.
pub open spec fn is_administrator(actor: Option<UserView>) -> bool {
    actor is Some && actor->0.is_admin
}

/// Whether the actor is the named user or an administrator.
pub open spec fn owns_or_administers(actor: Option<UserView>, username: Seq<char>) -> bool {
    actor is Some && (actor->0.is_admin || actor->0.username == username)
}

/// Whether the actor may remove `target`: the actor is that user or an
/// administrator, and the target is no administrator.
pub open spec fn removal_allowed(actor: Option<UserView>, target: UserView) -> bool {
    owns_or_administers(actor, target.username) && !target.is_admin
}

/// Adding, editing and removing items takes an administrator.
pub fn may_manage_items(actor: Option<&User>) -> (allowed: bool)
    ensures
        allowed == is_administrator(actor.deep_view()),
{
    match actor {
        Some(user) => user.is_admin,
        None => false,
    }
}

/// Rating an item and withdrawing a rating takes a signed-in user, who
/// acts on their own review only.
pub fn may_rate(actor: Option<&User>) -> (allowed: bool)
    ensures
        allowed == signed_in(actor.deep_view()),
{
    actor.is_some()
}

/// Editing a user takes that user or an administrator.
pub fn may_edit_user(actor: Option<&User>, username: &str) -> (allowed: bool)
    ensures
        allowed == owns_or_administers(actor.deep_view(), username@),
{
    match actor {
        Some(user) => user.is_admin || same_text(user.username.as_str(), username),
        None => false,
    }
}

/// Removing a user takes that user or an administrator, and an
/// administrator's account is removed by no one.
pub fn may_remove_user(actor: Option<&User>, target: &User) -> (allowed: bool)
    ensures
        allowed == removal_allowed(actor.deep_view(), target.deep_view()),
        target.is_admin ==> !allowed,
{
    !target.is_admin && may_edit_user(actor, target.username.as_str())
}

/// Whether a change to the named account changes the actor's own session:
/// the actor is that user.
pub fn is_own_account(actor: &User, username: &str) -> (own: bool)
    ensures
        own == (actor.username@ == username@),
{
    same_text(actor.username.as_str(), username)
}

} // verus!
