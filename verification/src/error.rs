//! The closed set of errors an operation can end with.

use vstd::prelude::*;

verus! {

/// Why an operation failed.
#[derive(Debug, Clone, PartialEq, Eq)]
pub enum DatabaseError {
    /// The store or the password hasher failed; the text is the cause, kept
    /// for diagnostics and never shown to an end user.
    InternalError(String),
    IncorrectCredentials,
    EmptyFields,
    PasswordsDiffer,
    WeakPassword,
    DuplicateUser,
    DuplicateItem,
    IllegalUsername,
    NotValidImage,
    IllegalLocator,
}

/// Mathematical value of a [`DatabaseError`].
pub enum ErrorView {
    InternalError(Seq<char>),
    IncorrectCredentials,
    EmptyFields,
    PasswordsDiffer,
    WeakPassword,
    DuplicateUser,
    DuplicateItem,
    IllegalUsername,
    NotValidImage,
    IllegalLocator,
}

impl DeepView for DatabaseError {
    type V = ErrorView;

    open spec fn deep_view(&self) -> ErrorView {
        match self {
            DatabaseError::InternalError(cause) => ErrorView::InternalError(cause@),
            DatabaseError::IncorrectCredentials => ErrorView::IncorrectCredentials,
            DatabaseError::EmptyFields => ErrorView::EmptyFields,
            DatabaseError::PasswordsDiffer => ErrorView::PasswordsDiffer,
            DatabaseError::WeakPassword => ErrorView::WeakPassword,
            DatabaseError::DuplicateUser => ErrorView::DuplicateUser,
            DatabaseError::DuplicateItem => ErrorView::DuplicateItem,
            DatabaseError::IllegalUsername => ErrorView::IllegalUsername,
            DatabaseError::NotValidImage => ErrorView::NotValidImage,
            DatabaseError::IllegalLocator => ErrorView::IllegalLocator,
        }
    }
}

impl ErrorView {
    /// The sentence shown to a user for this kind of error.
    pub open spec fn message(self) -> Seq<char> {
        match self {
            ErrorView::InternalError(_) => "Internal server error!"@,
            ErrorView::IncorrectCredentials => "Incorrect login credentials!"@,
            ErrorView::EmptyFields => "Some fields are empty!"@,
            ErrorView::PasswordsDiffer => "Passwords do not match!"@,
            ErrorView::DuplicateUser => "User with this username already exists!"@,
            ErrorView::WeakPassword => "Password is not strong enough!"@,
            ErrorView::IllegalUsername =>
                "Only alphanumerical characters and underscores are allowed in usernames!"@,
            ErrorView::DuplicateItem => "Item with this locator already exists!"@,
            ErrorView::NotValidImage => "Uploaded file is not a valid image"@,
            ErrorView::IllegalLocator =>
                "Only alphanumerical characters and underscores are allowed in item locator!"@,
        }
    }

    /// The underlying cause, which only an internal error has.
    pub open spec fn source(self) -> Option<Seq<char>> {
        match self {
            ErrorView::InternalError(cause) => Some(cause),
            _ => None,
        }
    }
}

impl DatabaseError {
    /// The sentence shown to a user. An internal error shows a fixed
    /// sentence, never its cause.
    pub fn message(&self) -> (text: String)
        ensures
            text@ == self.deep_view().message(),
    {
        match self {
            DatabaseError::InternalError(_) => "Internal server error!".to_owned(),
            DatabaseError::IncorrectCredentials => "Incorrect login credentials!".to_owned(),
            DatabaseError::EmptyFields => "Some fields are empty!".to_owned(),
            DatabaseError::PasswordsDiffer => "Passwords do not match!".to_owned(),
            DatabaseError::DuplicateUser => "User with this username already exists!".to_owned(),
            DatabaseError::WeakPassword => "Password is not strong enough!".to_owned(),
            DatabaseError::IllegalUsername =>
                "Only alphanumerical characters and underscores are allowed in usernames!".to_owned(),
            DatabaseError::DuplicateItem => "Item with this locator already exists!".to_owned(),
            DatabaseError::NotValidImage => "Uploaded file is not a valid image".to_owned(),
            DatabaseError::IllegalLocator =>
                "Only alphanumerical characters and underscores are allowed in item locator!".to_owned(),
        }
    }

    /// The cause behind an internal error; no other kind has one.
    pub fn source(&self) -> (cause: Option<&String>)
        ensures
            cause.deep_view() == self.deep_view().source(),
    {
        match self {
            DatabaseError::InternalError(cause) => Some(cause),
            _ => None,
        }
    }
}

} // verus!
