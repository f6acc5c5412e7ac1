//! Accounts: signing in, registering, and reading and managing users.

use crate::credentials::{
    has_bounded_threads, hash_password, is_weak, is_weak_password, password_check,
    threads_bounded, unbounded_threads, verify_password, CheckView, PasswordCheck,
};
use crate::error::{DatabaseError, ErrorView};
use crate::model::{duplicate_users, Page, PageView, User, UserView};
use crate::paging::{paging, paging_step, Paging, PagingView, CATALOG_PAGE_SIZE};
use crate::protocol::{
    finish_write, internal, unexpected, unexpected_reply, write_outcome, written, Credentials,
    CredentialsView, FailureKind, FailureView, Listing, ListingView, Reply, ReplyView, Statement,
    StatementView, Step, StepView,
};
use crate::text::{
    given_blank, is_blank, is_blank_if_given, is_blank_text, is_identifier,
    matches_word_pattern, owned_if_given, same_text,
};
use vstd::prelude::*;

verus! {

/// Path of the user listing.
pub open spec fn users_target() -> Seq<char> {
    "/users"@
}

/// How a sign-in ends once the stored credentials were read and the
/// password was checked against them.
pub open spec fn login_outcome(
    username: Seq<char>,
    credentials: CredentialsView,
    check: CheckView,
) -> Result<UserView, ErrorView> {
    match check {
        CheckView::Accepted => Ok(
            UserView {
                username,
                is_admin: credentials.is_admin,
                avatar_hue: credentials.avatar_hue,
                has_avatar: credentials.has_avatar,
            },
        ),
        CheckView::Rejected => Err(ErrorView::IncorrectCredentials),
        CheckView::Failed(cause) => Err(ErrorView::InternalError(cause)),
    }
}

/// How a sign-in ends, given the store's reply to the lookup. An unknown
/// user and a wrong password end it the same way. A stored hash that
/// cannot be handed to the hasher is an internal error.
pub open spec fn login_reply_outcome(
    username: Seq<char>,
    password: Seq<char>,
    reply: ReplyView,
) -> Result<UserView, ErrorView> {
    match reply {
        ReplyView::Credentials(credentials) => if threads_bounded(credentials.password_hash) {
            login_outcome(
                username,
                credentials,
                password_check(password, credentials.password_hash),
            )
        } else {
            Err(ErrorView::InternalError(unbounded_threads()))
        },
        ReplyView::Failed(failure) => if failure.kind == FailureKind::RowNotFound {
            Err(ErrorView::IncorrectCredentials)
        } else {
            Err(ErrorView::InternalError(failure.detail))
        },
        _ => Err(ErrorView::InternalError(unexpected_reply())),
    }
}

/// What signing in does next.
pub open spec fn login_step(
    username: Seq<char>,
    password: Seq<char>,
    transcript: Seq<ReplyView>,
) -> StepView<UserView> {
    if is_blank_text(username) || is_blank_text(password) {
        StepView::Done(Err(ErrorView::EmptyFields))
    } else if transcript.len() == 0 {
        StepView::Ask(StatementView::FindCredentials { username })
    } else {
        StepView::Done(login_reply_outcome(username, password, transcript[0]))
    }
}

/// Ends a sign-in with the outcome of the password check.
pub fn login_checked(username: &str, credentials: &Credentials, check: PasswordCheck) -> (step:
    Step<User>)
    ensures
        step.deep_view() == StepView::<UserView>::Done(
            login_outcome(username@, credentials.deep_view(), check.deep_view()),
        ),
{
    match check {
        PasswordCheck::Accepted => Step::Done(
            Ok(
                User {
                    username: username.to_owned(),
                    is_admin: credentials.is_admin,
                    avatar_hue: credentials.avatar_hue,
                    has_avatar: credentials.has_avatar,
                },
            ),
        ),
        PasswordCheck::Rejected => Step::Done(Err(DatabaseError::IncorrectCredentials)),
        PasswordCheck::Failed(cause) => Step::Done(Err(DatabaseError::InternalError(cause))),
    }
}

/// The error for a hash that cannot be handed to the hasher.
fn unchecked_hash() -> (error: DatabaseError)
    ensures
        error.deep_view() == ErrorView::InternalError(unbounded_threads()),
{
    DatabaseError::InternalError("the stored password hash asks for too many threads".to_owned())
}

/// Signs in against the replies from position `start` on.
fn login_from(username: &str, password: &str, transcript: &Vec<Reply>, start: usize) -> (step:
    Step<User>)
    requires
        start <= transcript.len(),
    ensures
        step.deep_view() == login_step(
            username@,
            password@,
            transcript.deep_view().skip(start as int),
        ),
{
    if is_blank(username) || is_blank(password) {
        return Step::Done(Err(DatabaseError::EmptyFields));
    }
    if transcript.len() == start {
        return Step::Ask(Statement::FindCredentials { username: username.to_owned() });
    }
    match &transcript[start] {
        Reply::Credentials(credentials) => {
            let stored = credentials.password_hash.as_str();
            if has_bounded_threads(stored) {
                login_checked(username, credentials, verify_password(password, stored))
            } else {
                Step::Done(Err(unchecked_hash()))
            }
        },
        Reply::Failed(failure) => match failure.kind {
            FailureKind::RowNotFound => Step::Done(Err(DatabaseError::IncorrectCredentials)),
            _ => Step::Done(Err(internal(failure))),
        },
        _ => Step::Done(Err(unexpected())),
    }
}

/// Signs a user in. Blank fields are refused before the store is asked.
/// The stored credentials are then read and the password is checked
/// against the stored hash; a user that does not exist and a password that
/// does not match both end in `IncorrectCredentials`. A stored hash that
/// cannot be read or checked ends in `InternalError`.
pub fn login_user(username: &str, password: &str, transcript: &Vec<Reply>) -> (step: Step<User>)
    ensures
        step.deep_view() == login_step(username@, password@, transcript.deep_view()),
{
    login_from(username, password, transcript, 0)
}

/// A sign-in fails the same way for a user that does not exist and for a
/// password that does not match: nothing in the result tells the two apart.
pub proof fn law_login_failures_alike(
    username: Seq<char>,
    password: Seq<char>,
    other_password: Seq<char>,
    credentials: CredentialsView,
    detail: Seq<char>,
)
    requires
        !is_blank_text(username),
        !is_blank_text(password),
        !is_blank_text(other_password),
        threads_bounded(credentials.password_hash),
        password_check(password, credentials.password_hash) == CheckView::Rejected,
    ensures
        login_step(username, password, seq![ReplyView::Credentials(credentials)])
            == StepView::<UserView>::Done(Err(ErrorView::IncorrectCredentials)),
        login_step(
            username,
            other_password,
            seq![
                ReplyView::Failed(
                    FailureView { kind: FailureKind::RowNotFound, detail },
                ),
            ],
        ) == StepView::<UserView>::Done(Err(ErrorView::IncorrectCredentials)),
{
}

/// A sign-in with the right password returns the user as stored, under the
/// name that was entered.
pub proof fn law_login_accepts(
    username: Seq<char>,
    password: Seq<char>,
    credentials: CredentialsView,
)
    requires
        !is_blank_text(username),
        !is_blank_text(password),
        threads_bounded(credentials.password_hash),
        password_check(password, credentials.password_hash) == CheckView::Accepted,
    ensures
        login_step(username, password, seq![ReplyView::Credentials(credentials)])
            == StepView::Done(
            Ok(
                UserView {
                    username,
                    is_admin: credentials.is_admin,
                    avatar_hue: credentials.avatar_hue,
                    has_avatar: credentials.has_avatar,
                },
            ),
        ),
{
}

/// Why a new password is refused, if it is: the two entries differ, or the
/// password is too weak.
pub open spec fn password_refusal(password1: Seq<char>, password2: Seq<char>) -> Option<
    ErrorView,
> {
    if password1 != password2 {
        Some(ErrorView::PasswordsDiffer)
    } else if is_weak_password(password1) {
        Some(ErrorView::WeakPassword)
    } else {
        None
    }
}

/// Checks a new password and its confirmation.
pub fn check_new_password(password1: &str, password2: &str) -> (refusal: Option<DatabaseError>)
    ensures
        refusal.deep_view() == password_refusal(password1@, password2@),
{
    if !same_text(password1, password2) {
        Some(DatabaseError::PasswordsDiffer)
    } else if is_weak(password1) {
        Some(DatabaseError::WeakPassword)
    } else {
        None
    }
}

/// Why a registration is refused before the store is asked, if it is.
/// The checks run in this order: blank fields, the shape of the username,
/// the two passwords, the password's strength.
pub open spec fn register_refusal(
    username: Seq<char>,
    password1: Seq<char>,
    password2: Seq<char>,
) -> Option<ErrorView> {
    if is_blank_text(username) || is_blank_text(password1) || is_blank_text(password2) {
        Some(ErrorView::EmptyFields)
    } else if !matches_word_pattern(username) {
        Some(ErrorView::IllegalUsername)
    } else {
        password_refusal(password1, password2)
    }
}

/// Checks the fields of a registration.
pub fn check_registration(username: &str, password1: &str, password2: &str) -> (refusal: Option<
    DatabaseError,
>)
    ensures
        refusal.deep_view() == register_refusal(username@, password1@, password2@),
{
    if is_blank(username) || is_blank(password1) || is_blank(password2) {
        Some(DatabaseError::EmptyFields)
    } else if !is_identifier(username) {
        Some(DatabaseError::IllegalUsername)
    } else {
        check_new_password(password1, password2)
    }
}

/// A registration under a name that is no identifier is refused for that
/// reason whatever the passwords are: the passwords are not looked at.
pub proof fn law_illegal_username_is_refused_first(
    username: Seq<char>,
    password1: Seq<char>,
    password2: Seq<char>,
)
    requires
        !is_blank_text(username),
        !is_blank_text(password1),
        !is_blank_text(password2),
        !matches_word_pattern(username),
    ensures
        register_refusal(username, password1, password2) == Some(ErrorView::IllegalUsername),
{
}

/// The first step of an accepted registration, given what hashing the
/// password gave: the hash or the hasher's error. Only a hash that a later
/// sign-in can hand to the hasher is stored.
pub open spec fn register_hashed_step(
    username: Seq<char>,
    hashed: Result<Seq<char>, Seq<char>>,
) -> StepView<UserView> {
    match hashed {
        Ok(password_hash) => if threads_bounded(password_hash) {
            StepView::Ask(StatementView::InsertUser { username, password_hash })
        } else {
            StepView::Done(Err(ErrorView::InternalError(unbounded_threads())))
        },
        Err(cause) => StepView::Done(Err(ErrorView::InternalError(cause))),
    }
}

/// What an accepted registration does once the store has answered the
/// insert: a taken username ends it, success goes on to sign the user in.
pub open spec fn register_after_insert(
    username: Seq<char>,
    password: Seq<char>,
    transcript: Seq<ReplyView>,
) -> StepView<UserView> {
    match write_outcome(transcript[0], Some(ErrorView::DuplicateUser)) {
        Ok(_) => login_step(username, password, transcript.skip(1)),
        Err(error) => StepView::Done(Err(error)),
    }
}

/// A registration that the store accepts signs the new user in. The hash
/// it sends is one that the hasher can be handed and that the password
/// checks against; once the store has taken it in and hands it back, the
/// registration ends with the user under the name that was entered.
pub proof fn law_registration_signs_in(
    username: Seq<char>,
    password: Seq<char>,
    password_hash: Seq<char>,
    credentials: CredentialsView,
)
    requires
        register_refusal(username, password, password) is None,
        register_hashed_step(username, Ok(password_hash)) is Ask,
        password_check(password, password_hash) == CheckView::Accepted,
        credentials.password_hash == password_hash,
    ensures
        register_hashed_step(username, Ok(password_hash)) == StepView::<UserView>::Ask(
            StatementView::InsertUser { username, password_hash },
        ),
        register_after_insert(
            username,
            password,
            seq![ReplyView::Done, ReplyView::Credentials(credentials)],
        ) == StepView::Done(
            Ok(
                UserView {
                    username,
                    is_admin: credentials.is_admin,
                    avatar_hue: credentials.avatar_hue,
                    has_avatar: credentials.has_avatar,
                },
            ),
        ),
{
    let replies = seq![ReplyView::Done, ReplyView::Credentials(credentials)];
    assert(replies.skip(1)[0] == ReplyView::Credentials(credentials));
}

/// The text of a hashing result.
pub open spec fn hashed_view(hashed: Result<String, String>) -> Result<Seq<char>, Seq<char>> {
    match hashed {
        Ok(password_hash) => Ok(password_hash@),
        Err(cause) => Err(cause@),
    }
}

/// Starts an accepted registration with the result of hashing the password.
pub fn register_hashed(username: &str, hashed: Result<String, String>) -> (step: Step<User>)
    ensures
        step.deep_view() == register_hashed_step(username@, hashed_view(hashed)),
{
    match hashed {
        Ok(password_hash) => if has_bounded_threads(password_hash.as_str()) {
            Step::Ask(Statement::InsertUser { username: username.to_owned(), password_hash })
        } else {
            Step::Done(Err(unchecked_hash()))
        },
        Err(cause) => Step::Done(Err(DatabaseError::InternalError(cause))),
    }
}

/// Registers a user and signs them in.
///
/// The fields are checked first, in the order of [`register_refusal`]. An
/// accepted registration hashes the password with a fresh salt and asks the
/// store to insert the user; which hash the statement carries is therefore
/// not determined by the arguments, but it is a hash of the password: one
/// against which the password checks. Once the store has answered, a taken
/// username ends the registration with `DuplicateUser`, and success
/// continues as [`login_user`] does.
pub fn register_user(username: &str, password1: &str, password2: &str, transcript: &Vec<Reply>) -> (step:
    Step<User>)
    ensures
        register_refusal(username@, password1@, password2@) is Some ==> step.deep_view()
            == StepView::<UserView>::Done(
            Err(register_refusal(username@, password1@, password2@)->0),
        ),
        register_refusal(username@, password1@, password2@) is None && transcript.len() == 0
            ==> exists|hashed: Result<Seq<char>, Seq<char>>|
            step.deep_view() == register_hashed_step(username@, hashed) && (hashed matches Ok(
                text,
            ) ==> password_check(password1@, text) == CheckView::Accepted),
        register_refusal(username@, password1@, password2@) is None && transcript.len() > 0
            ==> step.deep_view() == register_after_insert(
            username@,
            password1@,
            transcript.deep_view(),
        ),
{
    if let Some(error) = check_registration(username, password1, password2) {
        return Step::Done(Err(error));
    }
    if transcript.len() == 0 {
        let hashed = hash_password(password1);
        let ghost produced = hashed_view(hashed);
        let step = register_hashed(username, hashed);
        assert(step.deep_view() == register_hashed_step(username@, produced) && (
        produced matches Ok(text) ==> password_check(password1@, text) == CheckView::Accepted));
        return step;
    }
    match written(&transcript[0], Some(DatabaseError::DuplicateUser)) {
        Ok(_) => login_from(username, password1, transcript, 1),
        Err(error) => Step::Done(Err(error)),
    }
}

/// What looking up one user does next.
pub open spec fn get_user_step(username: Seq<char>, transcript: Seq<ReplyView>) -> StepView<
    Option<UserView>,
> {
    if transcript.len() == 0 {
        StepView::Ask(StatementView::FindUser { username })
    } else {
        match transcript[0] {
            ReplyView::User(row) => StepView::Done(Ok(Some(row))),
            ReplyView::Failed(failure) => if failure.kind == FailureKind::RowNotFound {
                StepView::Done(Ok(None))
            } else {
                StepView::Done(Err(ErrorView::InternalError(failure.detail)))
            },
            _ => StepView::Done(Err(ErrorView::InternalError(unexpected_reply()))),
        }
    }
}

/// Looks up one user by name. A user that does not exist is `Ok(None)`,
/// not an error.
pub fn get_user(username: &str, transcript: &Vec<Reply>) -> (step: Step<Option<User>>)
    ensures
        step.deep_view() == get_user_step(username@, transcript.deep_view()),
{
    if transcript.len() == 0 {
        return Step::Ask(Statement::FindUser { username: username.to_owned() });
    }
    match &transcript[0] {
        Reply::User(row) => Step::Done(Ok(Some(row.duplicate()))),
        Reply::Failed(failure) => match failure.kind {
            FailureKind::RowNotFound => Step::Done(Ok(None)),
            _ => Step::Done(Err(internal(failure))),
        },
        _ => Step::Done(Err(unexpected())),
    }
}

/// What listing a page of users does next.
pub open spec fn get_users_step(
    page_number: Option<i32>,
    query: Option<Seq<char>>,
    transcript: Seq<ReplyView>,
) -> StepView<Option<PageView<UserView>>> {
    match paging_step(ListingView::Users { query }, CATALOG_PAGE_SIZE, page_number, transcript) {
        PagingView::Ask(statement) => StepView::Ask(statement),
        PagingView::NoPage => StepView::Done(Ok(None)),
        PagingView::Failed(error) => StepView::Done(Err(error)),
        PagingView::Window { page, pages } => match transcript[1] {
            ReplyView::Users(rows) => StepView::Done(
                Ok(
                    Some(
                        PageView {
                            target: users_target(),
                            items: rows,
                            current_page: page,
                            number_of_pages: pages,
                            query,
                        },
                    ),
                ),
            ),
            ReplyView::Failed(failure) => StepView::Done(
                Err(ErrorView::InternalError(failure.detail)),
            ),
            _ => StepView::Done(Err(ErrorView::InternalError(unexpected_reply()))),
        },
    }
}

/// Lists one page of twelve users: all users in the store's order, or,
/// with a search text, the users whose name is similar to it. A page
/// outside the listing is `Ok(None)`.
pub fn get_users(page_number: Option<i32>, query: Option<&str>, transcript: &Vec<Reply>) -> (step:
    Step<Option<Page<User>>>)
    ensures
        step.deep_view() == get_users_step(page_number, query.deep_view(), transcript.deep_view()),
        step matches Step::Done(Ok(Some(page))) ==> page.well_formed(),
{
    let listing = Listing::Users { query: owned_if_given(query) };
    match paging(listing, CATALOG_PAGE_SIZE, page_number, transcript) {
        Paging::Ask(statement) => Step::Ask(statement),
        Paging::NoPage => Step::Done(Ok(None)),
        Paging::Failed(error) => Step::Done(Err(error)),
        Paging::Window { page, pages } => match &transcript[1] {
            Reply::Users(rows) => Step::Done(
                Ok(
                    Some(
                        Page {
                            target: "/users".to_owned(),
                            items: duplicate_users(rows),
                            current_page: page,
                            number_of_pages: pages,
                            query: owned_if_given(query),
                        },
                    ),
                ),
            ),
            Reply::Failed(failure) => Step::Done(Err(internal(failure))),
            _ => Step::Done(Err(unexpected())),
        },
    }
}

/// What removing a user does next.
pub open spec fn remove_user_step(username: Seq<char>, transcript: Seq<ReplyView>) -> StepView<()> {
    if transcript.len() == 0 {
        StepView::Ask(StatementView::DeleteUser { username })
    } else {
        StepView::Done(write_outcome(transcript[0], None))
    }
}

/// Removes a user and the user's reviews. The caller has checked that the
/// actor may do so and that the user is no administrator.
pub fn remove_user(username: &str, transcript: &Vec<Reply>) -> (step: Step<()>)
    ensures
        step.deep_view() == remove_user_step(username@, transcript.deep_view()),
{
    if transcript.len() == 0 {
        return Step::Ask(Statement::DeleteUser { username: username.to_owned() });
    }
    finish_write(&transcript[0], None)
}

/// Whether an edit changes the password: only if both entries were given
/// and neither is blank.
pub open spec fn changes_password(
    new_password1: Option<Seq<char>>,
    new_password2: Option<Seq<char>>,
) -> bool {
    new_password1 is Some && new_password2 is Some && !is_blank_text(new_password1->0)
        && !is_blank_text(new_password2->0)
}

/// Why an edit of a user is refused before the store is asked, if it is.
pub open spec fn edit_user_refusal(
    new_username: Option<Seq<char>>,
    new_password1: Option<Seq<char>>,
    new_password2: Option<Seq<char>>,
) -> Option<ErrorView> {
    if given_blank(new_username) {
        Some(ErrorView::EmptyFields)
    } else if new_username is Some && !matches_word_pattern(new_username->0) {
        Some(ErrorView::IllegalUsername)
    } else if changes_password(new_password1, new_password2) {
        password_refusal(new_password1->0, new_password2->0)
    } else {
        None
    }
}

/// The first step of an accepted edit, given what hashing the new password
/// gave, or `None` where the password stays.
pub open spec fn edit_user_hashed_step(
    username: Seq<char>,
    new_username: Option<Seq<char>>,
    has_avatar: Option<bool>,
    hashed: Option<Result<Seq<char>, Seq<char>>>,
) -> StepView<()> {
    match hashed {
        Some(Err(cause)) => StepView::Done(Err(ErrorView::InternalError(cause))),
        Some(Ok(password_hash)) => if threads_bounded(password_hash) {
            StepView::Ask(
                StatementView::UpdateUser {
                    username,
                    new_username,
                    has_avatar,
                    new_password_hash: Some(password_hash),
                },
            )
        } else {
            StepView::Done(Err(ErrorView::InternalError(unbounded_threads())))
        },
        None => StepView::Ask(
            StatementView::UpdateUser {
                username,
                new_username,
                has_avatar,
                new_password_hash: None,
            },
        ),
    }
}

/// The text of an optional hashing result.
pub open spec fn optional_hashed_view(hashed: Option<Result<String, String>>) -> Option<
    Result<Seq<char>, Seq<char>>,
> {
    match hashed {
        Some(result) => Some(hashed_view(result)),
        None => None,
    }
}

/// Starts an accepted edit with the result of hashing the new password, or
/// with `None` where the password stays.
pub fn edit_user_hashed(
    username: &str,
    new_username: Option<&str>,
    has_avatar: Option<bool>,
    hashed: Option<Result<String, String>>,
) -> (step: Step<()>)
    ensures
        step.deep_view() == edit_user_hashed_step(
            username@,
            new_username.deep_view(),
            has_avatar,
            optional_hashed_view(hashed),
        ),
{
    let new_password_hash = match hashed {
        Some(Err(cause)) => {
            return Step::Done(Err(DatabaseError::InternalError(cause)));
        },
        Some(Ok(password_hash)) => {
            if !has_bounded_threads(password_hash.as_str()) {
                return Step::Done(Err(unchecked_hash()));
            }
            Some(password_hash)
        },
        None => None,
    };
    Step::Ask(
        Statement::UpdateUser {
            username: username.to_owned(),
            new_username: owned_if_given(new_username),
            has_avatar,
            new_password_hash,
        },
    )
}

/// Checks the fields of an edit of a user.
pub fn check_user_edit(
    new_username: Option<&str>,
    new_password1: Option<&str>,
    new_password2: Option<&str>,
) -> (refusal: Option<DatabaseError>)
    ensures
        refusal.deep_view() == edit_user_refusal(
            new_username.deep_view(),
            new_password1.deep_view(),
            new_password2.deep_view(),
        ),
{
    if is_blank_if_given(new_username) {
        return Some(DatabaseError::EmptyFields);
    }
    if let Some(text) = new_username {
        if !is_identifier(text) {
            return Some(DatabaseError::IllegalUsername);
        }
    }
    if let Some(password1) = new_password1 {
        if let Some(password2) = new_password2 {
            if !is_blank(password1) && !is_blank(password2) {
                return check_new_password(password1, password2);
            }
        }
    }
    None
}

/// Edits a user. A field that is `None` keeps its value.
///
/// A new username is checked as at registration. The password changes only
/// if both entries are given and neither is blank; they are then checked as
/// at registration and the new password is hashed with a fresh salt, so
/// which hash the statement carries is not determined by the arguments,
/// but it is one against which the new password checks. A username taken
/// by another user is reported by the store and ends the edit with
/// `DuplicateUser`.
pub fn edit_user(
    username: &str,
    new_username: Option<&str>,
    has_avatar: Option<bool>,
    new_password1: Option<&str>,
    new_password2: Option<&str>,
    transcript: &Vec<Reply>,
) -> (step: Step<()>)
    ensures
        edit_user_refusal(
            new_username.deep_view(),
            new_password1.deep_view(),
            new_password2.deep_view(),
        ) matches Some(error) ==> step.deep_view() == StepView::<()>::Done(Err(error)),
        edit_user_refusal(
            new_username.deep_view(),
            new_password1.deep_view(),
            new_password2.deep_view(),
        ) is None ==> {
            if transcript.len() > 0 {
                step.deep_view() == StepView::<()>::Done(
                    write_outcome(transcript.deep_view()[0], Some(ErrorView::DuplicateUser)),
                )
            } else if changes_password(new_password1.deep_view(), new_password2.deep_view()) {
                exists|hashed: Result<Seq<char>, Seq<char>>|
                    step.deep_view() == edit_user_hashed_step(
                        username@,
                        new_username.deep_view(),
                        has_avatar,
                        Some(hashed),
                    ) && (hashed matches Ok(text) ==> password_check(
                        new_password1.deep_view()->0,
                        text,
                    ) == CheckView::Accepted)
            } else {
                step.deep_view() == edit_user_hashed_step(
                    username@,
                    new_username.deep_view(),
                    has_avatar,
                    None,
                )
            }
        },
{
    if let Some(error) = check_user_edit(new_username, new_password1, new_password2) {
        return Step::Done(Err(error));
    }
    if transcript.len() > 0 {
        return finish_write(&transcript[0], Some(DatabaseError::DuplicateUser));
    }
    let mut hashed: Option<Result<String, String>> = None;
    if let Some(password1) = new_password1 {
        if let Some(password2) = new_password2 {
            if !is_blank(password1) && !is_blank(password2) {
                hashed = Some(hash_password(password1));
            }
        }
    }
    let ghost produced = optional_hashed_view(hashed);
    let step = edit_user_hashed(username, new_username, has_avatar, hashed);
    proof {
        if produced is Some {
            let outcome = produced->0;
            assert(step.deep_view() == edit_user_hashed_step(
                username@,
                new_username.deep_view(),
                has_avatar,
                Some(outcome),
            ) && (outcome matches Ok(text) ==> password_check(new_password1.deep_view()->0, text)
                == CheckView::Accepted));
        }
    }
    step
}

} // verus!
