use crate::endpoint::Errors;
use hyper::Error as HttpError;
use serde_json::Error as JsonError;
use vstd::prelude::*;

verus! {

#[verifier::external_type_specification]
#[verifier::external_body]
pub struct ExHttpError(HttpError);

#[verifier::external_type_specification]
#[verifier::external_body]
pub struct ExJsonError(JsonError);

/// Types of errors which can be raised by this crate.
#[derive(Debug, Hash, Clone, Copy, PartialEq, Eq, Structural)]
pub enum ErrorKind {
    /// The request could not be sent, or the connection failed before a
    /// response was obtained.
    Request,
    /// The supplied credentials do not give access to the endpoint.
    Forbidden,
    /// The response could not be understood.
    MalformedResponse,
}


/// The sentence that describes a category of error.
pub open spec fn kind_text(kind: ErrorKind) -> Seq<char> {
    match kind {
        ErrorKind::Request => "Failed to send request."@,
        ErrorKind::Forbidden => "Not authorized to access endpoint."@,
        ErrorKind::MalformedResponse => "Failed to parse response from Unsplash."@,
    }
}

impl ErrorKind {
    /// The sentence that describes this category.
    pub fn message(&self) -> (r: String)
        ensures
            r@ == kind_text(*self),
    {
        match self {
            ErrorKind::Request => String::from_str("Failed to send request."),
            ErrorKind::Forbidden => String::from_str("Not authorized to access endpoint."),
            ErrorKind::MalformedResponse => String::from_str(
                "Failed to parse response from Unsplash.",
            ),
        }
    }
}

/// What an error wraps: the lower-level failure, or what the server said.
pub enum Cause {
    /// A failure of the HTTP transport or of the response's body stream.
    Http(HttpError),
    /// A body that could not be decoded as JSON of the expected shape.
    Json(JsonError),
    /// The list of errors that the server reported.
    Server(Errors),
}

/// An error which can occur when accessing the Unsplash API: a category and
/// the cause that it wraps.
pub struct Error {
    /// The category of the error.
    pub kind: ErrorKind,
    /// The underlying cause.
    pub cause: Cause,
}

impl Error {
    /// Returns the category of this error.
    pub fn kind(&self) -> (r: ErrorKind)
        ensures
            r == self.kind,
    {
        self.kind
    }

    /// The sentence that describes this error's category.
    pub fn message(&self) -> (r: String)
        ensures
            r@ == kind_text(self.kind),
    {
        self.kind.message()
    }

    /// Returns the cause that this error wraps.
    pub fn cause(&self) -> (r: &Cause)
        ensures
            *r == self.cause,
    {
        &self.cause
    }
}

} // verus!
