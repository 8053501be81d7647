//! The failures that a query can end in.

use vstd::prelude::*;

verus! {

/// Why a query gave no records.
#[derive(Debug, Clone, PartialEq, Eq)]
pub enum Error {
    /// A date was not a real calendar date written as `YYYY-MM-DD`. Holds
    /// the text that was given.
    InvalidDateFormat(String),
    /// The account has no site: the sites endpoint answered with an empty
    /// array.
    EmptySiteList,
    /// The server answered with a status other than 200. `status_code` is
    /// the status with its reason phrase, `body` the answer's text as it
    /// came.
    HttpStatusError { status_code: String, body: String },
    /// The body of a 200 answer was not the expected array of records.
    /// Holds the parser's message.
    ResponseDecodeError(String),
    /// The request never got an answer. Holds the cause as the transport
    /// reported it.
    TransportError(String),
}

pub enum ErrorView {
    InvalidDateFormat(Seq<char>),
    EmptySiteList,
    HttpStatusError { status_code: Seq<char>, body: Seq<char> },
    ResponseDecodeError(Seq<char>),
    TransportError(Seq<char>),
}

impl View for Error {
    type V = ErrorView;

    open spec fn view(&self) -> ErrorView {
        match self {
            Error::InvalidDateFormat(input) => ErrorView::InvalidDateFormat(input@),
            Error::EmptySiteList => ErrorView::EmptySiteList,
            Error::HttpStatusError { status_code, body } => ErrorView::HttpStatusError {
                status_code: status_code@,
                body: body@,
            },
            Error::ResponseDecodeError(message) => ErrorView::ResponseDecodeError(message@),
            Error::TransportError(cause) => ErrorView::TransportError(cause@),
        }
    }
}

} // verus!
