//! The errors of the client.

use crate::http;
use vstd::prelude::*;
use vstd::std_specs::convert::FromSpecImpl;

verus! {

/// `std::io::Error`, of which nothing is known.
#[verifier::external_type_specification]
#[verifier::external_body]
pub struct ExIoError(std::io::Error);

/// Why an operation failed.
#[derive(Debug)]
pub enum Error {
    /// The request was not answered.
    HTTPError,
    /// Reading or writing failed.
    IOError(std::io::Error),
    /// The answer is no JSON document; the parser's message says why.
    JSONError(String),
    /// The answer is a JSON document of another shape than the operation
    /// expects.
    JSONPathError,
    /// An argument, named here, is out of its range.
    InvalidParameter(String),
}

/// The mathematical value of an [`Error`].
pub enum ErrorView {
    HTTPError,
    IOError(std::io::Error),
    JSONError(Seq<char>),
    JSONPathError,
    InvalidParameter(Seq<char>),
}

impl View for Error {
    type V = ErrorView;

    open spec fn view(&self) -> ErrorView {
        match self {
            Error::HTTPError => ErrorView::HTTPError,
            Error::IOError(e) => ErrorView::IOError(*e),
            Error::JSONError(message) => ErrorView::JSONError(message@),
            Error::JSONPathError => ErrorView::JSONPathError,
            Error::InvalidParameter(name) => ErrorView::InvalidParameter(name@),
        }
    }
}

impl From<http::Error> for Error {
    fn from(e: http::Error) -> (r: Error) {
        Error::HTTPError
    }
}

impl FromSpecImpl<http::Error> for Error {
    open spec fn obeys_from_spec() -> bool {
        true
    }

    open spec fn from_spec(e: http::Error) -> Error {
        Error::HTTPError
    }
}

impl From<std::io::Error> for Error {
    fn from(e: std::io::Error) -> (r: Error) {
        Error::IOError(e)
    }
}

impl FromSpecImpl<std::io::Error> for Error {
    open spec fn obeys_from_spec() -> bool {
        true
    }

    open spec fn from_spec(e: std::io::Error) -> Error {
        Error::IOError(e)
    }
}

/// The result of an operation.
pub type Result<T> = std::result::Result<T, Error>;

/// The mathematical value of the result of an operation: the deep view of
/// what it returned, or the view of its error.
pub open spec fn outcome<T: DeepView>(r: Result<T>) -> std::result::Result<T::V, ErrorView> {
    match r {
        Ok(value) => Ok(value.deep_view()),
        Err(e) => Err(e@),
    }
}

} // verus!
