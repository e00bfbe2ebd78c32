//! Error type for the library.
use vstd::prelude::*;

verus! {

/// The combined error type for requests, responses and decoding.
#[derive(Debug, Clone)]
pub enum Error {
    /// No valid response came back from the server (no status available).
    Response(String),
    /// The server answered with a status outside 200..=299; the body is kept.
    ResponseStatus { status: u16, error: String },
    /// A response body did not have the expected shape.
    Deserialization(String),
    /// A paginated stream could not go on (an item or a continuation link failed).
    PaginationItemDeserialization(String),
    /// A time could not be formatted.
    TimeFormatError(String),
    /// A URL could not be built from a path or a query.
    InvalidUri(String),
    /// An expected HATEOAS link was absent; holds the relation name.
    MissingUri(String),
    /// The final path segment of a link is not an integer id.
    InvalidId,
}

impl Error {
    /// Error raised while continuing a paginated stream.
    pub fn pag_item(s: String) -> (r: Self)
        ensures
            r == Error::PaginationItemDeserialization(s),
    {
        Error::PaginationItemDeserialization(s)
    }
}

/// Whether an HTTP status code denotes success.
pub open spec fn is_success(status: u16) -> bool {
    200 <= status <= 299
}

/// The text of `bytes` read as UTF-8, each invalid sequence replaced by U+FFFD.
pub uninterp spec fn lossy_text(bytes: Seq<u8>) -> Seq<char>;

/// Relies on `String::from_utf8_lossy`: the bytes read as UTF-8, invalid sequences replaced.
#[verifier::external_body]
pub(crate) fn utf8_lossy(bytes: &[u8]) -> (r: String)
    ensures
        r@ == lossy_text(bytes@),
{
    String::from_utf8_lossy(bytes).into_owned()
}

/// Accepts a response whose status is in 200..=299; any other becomes a `ResponseStatus`
/// error holding the status and the body's text.
pub fn error_on_non_success(status: u16, body: &[u8]) -> (r: Result<(), Error>)
    ensures
        is_success(status) <==> r is Ok,
        !is_success(status) ==> (r matches Err(Error::ResponseStatus { status: s, error: e })
            && s == status && e@ == lossy_text(body@)),
{
    if 200 <= status && status <= 299 {
        Ok(())
    } else {
        Err(Error::ResponseStatus { status, error: utf8_lossy(body) })
    }
}

/// Equality of errors: same variant, equal fields.
pub open spec fn error_eq(a: Error, b: Error) -> bool {
    match (a, b) {
        (Error::Response(x), Error::Response(y)) => x@ == y@,
        (
            Error::ResponseStatus { status: s1, error: e1 },
            Error::ResponseStatus { status: s2, error: e2 },
        ) => s1 == s2 && e1@ == e2@,
        (Error::Deserialization(x), Error::Deserialization(y)) => x@ == y@,
        (Error::PaginationItemDeserialization(x), Error::PaginationItemDeserialization(y)) => x@
            == y@,
        (Error::TimeFormatError(x), Error::TimeFormatError(y)) => x@ == y@,
        (Error::InvalidUri(x), Error::InvalidUri(y)) => x@ == y@,
        (Error::MissingUri(x), Error::MissingUri(y)) => x@ == y@,
        (Error::InvalidId, Error::InvalidId) => true,
        _ => false,
    }
}

impl PartialEq for Error {
    fn eq(&self, other: &Error) -> (r: bool) {
        match self {
            Error::Response(x) => match other {
                Error::Response(y) => *x == *y,
                _ => false,
            },
            Error::ResponseStatus { status: s1, error: e1 } => match other {
                Error::ResponseStatus { status: s2, error: e2 } => *s1 == *s2 && *e1 == *e2,
                _ => false,
            },
            Error::Deserialization(x) => match other {
                Error::Deserialization(y) => *x == *y,
                _ => false,
            },
            Error::PaginationItemDeserialization(x) => match other {
                Error::PaginationItemDeserialization(y) => *x == *y,
                _ => false,
            },
            Error::TimeFormatError(x) => match other {
                Error::TimeFormatError(y) => *x == *y,
                _ => false,
            },
            Error::InvalidUri(x) => match other {
                Error::InvalidUri(y) => *x == *y,
                _ => false,
            },
            Error::MissingUri(x) => match other {
                Error::MissingUri(y) => *x == *y,
                _ => false,
            },
            Error::InvalidId => match other {
                Error::InvalidId => true,
                _ => false,
            },
        }
    }
}

impl vstd::std_specs::cmp::PartialEqSpecImpl for Error {
    open spec fn obeys_eq_spec() -> bool {
        true
    }

    open spec fn eq_spec(&self, other: &Error) -> bool {
        error_eq(*self, *other)
    }
}

} // verus!
