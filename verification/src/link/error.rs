//! Why a link could not be built.

use vstd::prelude::*;

verus! {

/// The ways in which building a link fails.
#[derive(Debug, PartialEq, Eq)]
pub enum LinkConstructionError {
    /// The page address has no scheme.
    MissingScheme,
    /// The text is not an address that can be followed.
    BadUri,
    /// The parser rejected the text; the field holds what it reported.
    ParseError(String),
}

/// A `LinkConstructionError` with its message as a sequence of characters.
pub enum LinkFailure {
    MissingScheme,
    BadUri,
    ParseError(Seq<char>),
}

impl View for LinkConstructionError {
    type V = LinkFailure;

    open spec fn view(&self) -> LinkFailure {
        match self {
            LinkConstructionError::MissingScheme => LinkFailure::MissingScheme,
            LinkConstructionError::BadUri => LinkFailure::BadUri,
            LinkConstructionError::ParseError(kind) => LinkFailure::ParseError(kind@),
        }
    }
}

/// What a `LinkFailure` reads as: a colon, a space and the reason.
pub open spec fn failure_message(failure: LinkFailure) -> Seq<char> {
    match failure {
        LinkFailure::MissingScheme => ": Uri is missing scheme"@,
        LinkFailure::BadUri => ": Bad Uri. Cannot parse"@,
        LinkFailure::ParseError(kind) => ": "@ + kind,
    }
}

/// The text that reports a URL parser's complaint `detail` about a seed.
pub open spec fn bad_url_message(detail: Seq<char>) -> Seq<char> {
    "Bad URL("@ + detail + "). Should be in format of scheme://domain/path."@
}

impl LinkConstructionError {
    /// The error as a line for a person to read.
    pub fn to_string(&self) -> (message: String)
        ensures
            message@ == failure_message(self@),
    {
        match self {
            LinkConstructionError::MissingScheme => String::from_str(": Uri is missing scheme"),
            LinkConstructionError::BadUri => String::from_str(": Bad Uri. Cannot parse"),
            LinkConstructionError::ParseError(kind) => String::from_str(": ").concat(
                kind.as_str(),
            ),
        }
    }

    /// The error for a page address that the URI parser rejected with
    /// `detail`.
    pub fn from_invalid_uri(detail: String) -> (error: LinkConstructionError)
        ensures
            error@ == LinkFailure::ParseError(detail@),
    {
        LinkConstructionError::ParseError(detail)
    }

    /// The error for a seed that the URL parser rejected with `detail`.
    pub fn from_parse_error(detail: &str) -> (error: LinkConstructionError)
        ensures
            error@ == LinkFailure::ParseError(bad_url_message(detail@)),
    {
        LinkConstructionError::ParseError(
            String::from_str("Bad URL(").concat(detail).concat(
                "). Should be in format of scheme://domain/path.",
            ),
        )
    }
}

} // verus!
