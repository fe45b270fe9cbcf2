//! The library's error type.

use crate::record::AccessError;
use vstd::prelude::*;
use vstd::string::*;

verus! {

/// The possible error conditions when decoding or tailing an operation log.
#[derive(Clone, Debug, PartialEq, Eq)]
pub enum Error {
    /// The database connection or the cursor could not be opened; holds the
    /// driver's message.
    Database(String),
    /// A required field of a record is absent or holds another kind of value.
    MissingField {
        /// The key that was read.
        field: String,
        /// Whether the field was absent or of another kind.
        cause: AccessError,
    },
    /// The record's discriminator names no known kind of operation.
    UnknownOperation(String),
    /// The record has no readable discriminator.
    InvalidOperation,
}

/// An `Error` with its strings seen as character sequences.
pub enum ErrorView {
    /// See `Error::Database`.
    Database(Seq<char>),
    /// See `Error::MissingField`.
    MissingField { field: Seq<char>, cause: AccessError },
    /// See `Error::UnknownOperation`.
    UnknownOperation(Seq<char>),
    /// See `Error::InvalidOperation`.
    InvalidOperation,
}

impl View for Error {
    type V = ErrorView;

    open spec fn view(&self) -> ErrorView {
        match self {
            Error::Database(m) => ErrorView::Database(m@),
            Error::MissingField { field, cause } => ErrorView::MissingField {
                field: field@,
                cause: *cause,
            },
            Error::UnknownOperation(code) => ErrorView::UnknownOperation(code@),
            Error::InvalidOperation => ErrorView::InvalidOperation,
        }
    }
}

/// The text that describes an access failure.
pub open spec fn access_text(cause: AccessError) -> Seq<char> {
    match cause {
        AccessError::NotPresent => "field is not present"@,
        AccessError::UnexpectedType => "field does not have the expected type"@,
    }
}

/// The short description of an error.
pub open spec fn description_of(e: ErrorView) -> Seq<char> {
    match e {
        ErrorView::Database(m) => m,
        ErrorView::MissingField { cause, .. } => access_text(cause),
        ErrorView::UnknownOperation(_) => "unknown operation type"@,
        ErrorView::InvalidOperation => "invalid operation"@,
    }
}

/// The full message of an error: for a missing field, the access failure's
/// own text; for an unknown operation, the text with the code it concerns.
pub open spec fn message_of(e: ErrorView) -> Seq<char> {
    match e {
        ErrorView::MissingField { cause, .. } => access_text(cause),
        ErrorView::UnknownOperation(code) => "Unknown operation type found: "@ + code,
        _ => description_of(e),
    }
}

impl Error {
    /// Builds the error for a required field that could not be read.
    pub fn missing_field(field: &str, cause: AccessError) -> (e: Error)
        ensures
            e@ == (ErrorView::MissingField { field: field@, cause }),
    {
        Error::MissingField { field: field.to_string(), cause }
    }

    /// A short description of the error.
    pub fn description(&self) -> (r: String)
        ensures
            r@ == description_of(self@),
    {
        match self {
            Error::Database(m) => m.clone(),
            Error::MissingField { cause, .. } => match cause {
                AccessError::NotPresent => "field is not present".to_string(),
                AccessError::UnexpectedType => "field does not have the expected type".to_string(),
            },
            Error::UnknownOperation(_) => "unknown operation type".to_string(),
            Error::InvalidOperation => "invalid operation".to_string(),
        }
    }

    /// The full message of the error.
    pub fn message(&self) -> (r: String)
        ensures
            r@ == message_of(self@),
    {
        match self {
            Error::UnknownOperation(code) => "Unknown operation type found: ".to_string().concat(
                code.as_str(),
            ),
            _ => self.description(),
        }
    }
}

} // verus!
