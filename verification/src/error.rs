use vstd::prelude::*;

verus! {

/// The failures a request can end in.
#[derive(Debug)]
pub enum Error {
    /// No valid bearer token accompanied the request.
    Unauthorized,
    /// The caller may not perform the action.
    Forbidden,
    /// The requested item does not exist (for this user).
    NotFound,
    /// The database reported a failure; the text describes it for logs.
    Database(String),
    /// An unexpected internal failure; the text gives its context for logs.
    Internal(String),
    /// The request body broke the listed validation rules.
    InvalidEntity(Vec<crate::validation::Violation>),
    /// The request could not be processed, for the reason given.
    UnprocessableEntity(String),
    /// The request conflicts with existing data, for the reason given.
    Conflict(String),
}

/// The HTTP status that answers an error.
pub open spec fn status_of(e: Error) -> u16 {
    match e {
        Error::Unauthorized => 401,
        Error::Forbidden => 403,
        Error::NotFound => 404,
        Error::Database(_) => 500,
        Error::Internal(_) => 500,
        Error::InvalidEntity(_) => 422,
        Error::UnprocessableEntity(_) => 422,
        Error::Conflict(_) => 409,
    }
}

/// The message shown to the client for an error.
pub open spec fn message_of(e: Error) -> Seq<char> {
    match e {
        Error::Unauthorized => "authentication required"@,
        Error::Forbidden => "user may not perform that action"@,
        Error::NotFound => "resource not found"@,
        Error::Database(_) => "an internal database error occurred"@,
        Error::Internal(_) => "an internal server error occurred"@,
        Error::InvalidEntity(_) => "validation error in request body"@,
        Error::UnprocessableEntity(reason) => reason@,
        Error::Conflict(reason) => reason@,
    }
}

/// `e` is an internal failure whose context text is `context`.
pub open spec fn is_internal_with(e: Error, context: Seq<char>) -> bool {
    e matches Error::Internal(text) && text@ == context
}

/// `e` is an unprocessable-entity failure with the reason `reason`.
pub open spec fn is_unprocessable_with(e: Error, reason: Seq<char>) -> bool {
    e matches Error::UnprocessableEntity(text) && text@ == reason
}

/// `e` is a conflict with the reason `reason`.
pub open spec fn is_conflict_with(e: Error, reason: Seq<char>) -> bool {
    e matches Error::Conflict(text) && text@ == reason
}

impl Error {
    /// The HTTP status code that answers this error.
    pub fn status_code(&self) -> (code: u16)
        ensures
            code == status_of(*self),
    {
        match self {
            Error::Unauthorized => 401,
            Error::Forbidden => 403,
            Error::NotFound => 404,
            Error::Database(_) => 500,
            Error::Internal(_) => 500,
            Error::InvalidEntity(_) => 422,
            Error::UnprocessableEntity(_) => 422,
            Error::Conflict(_) => 409,
        }
    }

    /// The message that the error response carries.
    pub fn message(&self) -> (text: String)
        ensures
            text@ == message_of(*self),
    {
        match self {
            Error::Unauthorized => String::from_str("authentication required"),
            Error::Forbidden => String::from_str("user may not perform that action"),
            Error::NotFound => String::from_str("resource not found"),
            Error::Database(_) => String::from_str("an internal database error occurred"),
            Error::Internal(_) => String::from_str("an internal server error occurred"),
            Error::InvalidEntity(_) => String::from_str("validation error in request body"),
            Error::UnprocessableEntity(reason) => reason.clone(),
            Error::Conflict(reason) => reason.clone(),
        }
    }

    /// The rule violations the response lists, present only for a rejected request body.
    pub fn violations(&self) -> (list: Option<&Vec<crate::validation::Violation>>)
        ensures
            list is Some <==> *self is InvalidEntity,
            *self matches Error::InvalidEntity(v) ==> list == Some(&v),
    {
        match self {
            Error::InvalidEntity(v) => Some(v),
            _ => None,
        }
    }
}

} // verus!
