//! The error that reading a version or a version range can end in.

use vstd::prelude::*;

verus! {

/// A text that could not be read.
#[derive(Debug, Clone, PartialEq, Eq)]
pub enum ParseError {
    /// The text is no semantic version.
    InvalidVersion(String),
    /// The text is no version range that the host can read.
    InvalidRange(String),
}

/// A `ParseError` as a mathematical value.
pub ghost enum ParseErrorModel {
    InvalidVersion(Seq<char>),
    InvalidRange(Seq<char>),
}

impl View for ParseError {
    type V = ParseErrorModel;

    open spec fn view(&self) -> ParseErrorModel {
        match self {
            ParseError::InvalidVersion(text) => ParseErrorModel::InvalidVersion(text@),
            ParseError::InvalidRange(text) => ParseErrorModel::InvalidRange(text@),
        }
    }
}

impl ParseErrorModel {
    /// The text that could not be read.
    pub open spec fn text(self) -> Seq<char> {
        match self {
            ParseErrorModel::InvalidVersion(text) => text,
            ParseErrorModel::InvalidRange(text) => text,
        }
    }

    /// The message that describes the error: what was expected, then the
    /// text as it was given.
    pub open spec fn message(self) -> Seq<char> {
        match self {
            ParseErrorModel::InvalidVersion(text) => "not a semantic version: "@ + text,
            ParseErrorModel::InvalidRange(text) => "not a version range: "@ + text,
        }
    }
}

impl ParseError {
    /// The text that could not be read.
    pub fn text(&self) -> (text: &str)
        ensures
            text@ == self@.text(),
    {
        match self {
            ParseError::InvalidVersion(text) => text.as_str(),
            ParseError::InvalidRange(text) => text.as_str(),
        }
    }

    /// Describes the error for the user.
    pub fn message(&self) -> (message: String)
        ensures
            message@ == self@.message(),
    {
        match self {
            ParseError::InvalidVersion(text) => {
                let mut message = String::from_str("not a semantic version: ");
                message.append(text.as_str());
                message
            },
            ParseError::InvalidRange(text) => {
                let mut message = String::from_str("not a version range: ");
                message.append(text.as_str());
                message
            },
        }
    }
}

} // verus!
