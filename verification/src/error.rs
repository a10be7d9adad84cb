//! The ways in which a query fails.

use vstd::prelude::*;

verus! {

/// Why a response of the expected shape is refused; each holds the text that
/// was found in the response.
#[derive(Clone, Debug, PartialEq, Eq)]
pub enum Invalid {
    /// The reported time zone is not UTC.
    TimeZone(String),
    /// A numeric field holds no decimal number.
    Number(String),
    /// An exchange rate is zero or negative; this is looked at last, behind
    /// the date and the time zone.
    Rate(String),
    /// A date field holds no date of its format.
    DateTime(String),
    /// An intraday time series reports another interval than was asked for.
    Interval(String),
}

pub enum InvalidView {
    TimeZone(Seq<char>),
    Number(Seq<char>),
    Rate(Seq<char>),
    DateTime(Seq<char>),
    Interval(Seq<char>),
}

impl View for Invalid {
    type V = InvalidView;

    open spec fn view(&self) -> InvalidView {
        match self {
            Invalid::TimeZone(text) => InvalidView::TimeZone(text@),
            Invalid::Number(text) => InvalidView::Number(text@),
            Invalid::Rate(text) => InvalidView::Rate(text@),
            Invalid::DateTime(text) => InvalidView::DateTime(text@),
            Invalid::Interval(text) => InvalidView::Interval(text@),
        }
    }
}

/// Why a query fails.
#[derive(Clone, Debug, PartialEq, Eq)]
pub enum Error {
    /// The request did not reach the server, or its response did not arrive.
    TransportError(String),
    /// The server answered with a status other than 200.
    ServerError(u16),
    /// The response is not a JSON document of the expected members.
    DeserializationError,
    /// The response has the expected members, and one of them holds a value
    /// that is not accepted.
    ValidationError(Invalid),
}

pub enum ErrorView {
    TransportError(Seq<char>),
    ServerError(u16),
    DeserializationError,
    ValidationError(InvalidView),
}

impl View for Error {
    type V = ErrorView;

    open spec fn view(&self) -> ErrorView {
        match self {
            Error::TransportError(message) => ErrorView::TransportError(message@),
            Error::ServerError(status) => ErrorView::ServerError(*status),
            Error::DeserializationError => ErrorView::DeserializationError,
            Error::ValidationError(invalid) => ErrorView::ValidationError(invalid@),
        }
    }
}

/// The view of a result: that of its value, or that of its error.
pub open spec fn outcome<T: View>(result: Result<T, Error>) -> Result<T::V, ErrorView> {
    match result {
        Ok(value) => Ok(value@),
        Err(error) => Err(error@),
    }
}

} // verus!
