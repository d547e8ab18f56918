//! The errors of this library.

use vstd::prelude::*;
use vstd::string::StringExecFns;

verus! {

/// What can go wrong while ranges are built and responses are packed or
/// unpacked.
#[derive(Clone, Debug, PartialEq, Eq)]
pub enum Error {
    /// The bounds of a range are out of order, or its length cannot be
    /// represented.
    DegenerateRangeError,
    /// Encoding, compressing, expanding or decoding a payload failed; the
    /// text describes the cause.
    UnexpectedErrorEncountered(String),
    /// A response held another kind of payload than the one asked for; the
    /// text names both kinds.
    UnexpectedResponseError(String),
}

/// An `Error`, with its text as a sequence of characters.
pub ghost enum ErrorView {
    DegenerateRangeError,
    UnexpectedErrorEncountered(Seq<char>),
    UnexpectedResponseError(Seq<char>),
}

impl DeepView for Error {
    type V = ErrorView;

    open spec fn deep_view(&self) -> ErrorView {
        match self {
            Error::DegenerateRangeError => ErrorView::DegenerateRangeError,
            Error::UnexpectedErrorEncountered(detail) => ErrorView::UnexpectedErrorEncountered(
                detail@,
            ),
            Error::UnexpectedResponseError(detail) => ErrorView::UnexpectedResponseError(detail@),
        }
    }
}

impl Error {
    /// The text of the message that `self` displays.
    pub open spec fn spec_message(self) -> Seq<char> {
        match self {
            Error::DegenerateRangeError => "Data range cannot be degenerate!"@,
            Error::UnexpectedErrorEncountered(detail) => "Unexpected error encountered: "@
                + detail@,
            Error::UnexpectedResponseError(detail) => "Unexpected response error: "@ + detail@,
        }
    }

    /// The message that describes the error to a reader.
    pub fn message(&self) -> (r: String)
        ensures
            r@ == self.spec_message(),
    {
        match self {
            Error::DegenerateRangeError => String::from_str("Data range cannot be degenerate!"),
            Error::UnexpectedErrorEncountered(detail) => String::from_str(
                "Unexpected error encountered: ",
            ).concat(detail.as_str()),
            Error::UnexpectedResponseError(detail) => String::from_str(
                "Unexpected response error: ",
            ).concat(detail.as_str()),
        }
    }
}

} // verus!
