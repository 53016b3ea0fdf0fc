//! Why a page could not be fetched.

use vstd::prelude::*;
use vstd::std_specs::convert::FromSpecImpl;

verus! {

/// The ways in which fetching a page fails. The crawl treats them alike:
/// the page counts as visited and yields no links.
#[derive(Debug, Clone, Copy, PartialEq, Eq, Structural)]
pub enum CrawlClientError {
    /// The address is no URI.
    InvalidUri,
    /// The connection failed, or the answer was not a success.
    ConnectionError,
    /// Reading the answer failed.
    IOError,
    /// The answer is not UTF-8.
    EncodingError,
}

/// What a `CrawlClientError` reads as: the reason in double quotes, and a
/// line break.
pub open spec fn client_error_message(error: CrawlClientError) -> Seq<char> {
    match error {
        CrawlClientError::InvalidUri => "\"Invalid link or url\"\n"@,
        CrawlClientError::ConnectionError => "\"There was an error connection to the page\"\n"@,
        CrawlClientError::IOError => "\"There was an error sending or receiving data\"\n"@,
        CrawlClientError::EncodingError => "\"There was an error parsing encoded data\"\n"@,
    }
}

impl CrawlClientError {
    /// The error as a line for a person to read.
    pub fn to_string(&self) -> (message: String)
        ensures
            message@ == client_error_message(*self),
    {
        match self {
            CrawlClientError::InvalidUri => String::from_str("\"Invalid link or url\"\n"),
            CrawlClientError::ConnectionError => String::from_str(
                "\"There was an error connection to the page\"\n",
            ),
            CrawlClientError::IOError => String::from_str(
                "\"There was an error sending or receiving data\"\n",
            ),
            CrawlClientError::EncodingError => String::from_str(
                "\"There was an error parsing encoded data\"\n",
            ),
        }
    }
}

#[verifier::external_type_specification]
#[verifier::external_body]
pub struct ExInvalidUri(hyper::http::uri::InvalidUri);

#[verifier::external_type_specification]
#[verifier::external_body]
pub struct ExHyperError(hyper::Error);

#[verifier::external_type_specification]
#[verifier::external_body]
pub struct ExIoError(std::io::Error);

#[verifier::external_type_specification]
#[verifier::external_body]
pub struct ExFromUtf8Error(std::string::FromUtf8Error);

impl From<hyper::http::uri::InvalidUri> for CrawlClientError {
    /// An address that the URI parser rejects is an invalid URI, whatever
    /// the parser's reason.
    fn from(error: hyper::http::uri::InvalidUri) -> (failure: CrawlClientError)
        ensures
            failure == CrawlClientError::InvalidUri,
    {
        CrawlClientError::InvalidUri
    }
}

impl FromSpecImpl<hyper::http::uri::InvalidUri> for CrawlClientError {
    open spec fn obeys_from_spec() -> bool {
        true
    }

    open spec fn from_spec(v: hyper::http::uri::InvalidUri) -> CrawlClientError {
        CrawlClientError::InvalidUri
    }
}

impl From<hyper::Error> for CrawlClientError {
    /// Whatever goes wrong in the transport is a connection error.
    fn from(error: hyper::Error) -> (failure: CrawlClientError)
        ensures
            failure == CrawlClientError::ConnectionError,
    {
        CrawlClientError::ConnectionError
    }
}

impl FromSpecImpl<hyper::Error> for CrawlClientError {
    open spec fn obeys_from_spec() -> bool {
        true
    }

    open spec fn from_spec(v: hyper::Error) -> CrawlClientError {
        CrawlClientError::ConnectionError
    }
}

impl From<std::io::Error> for CrawlClientError {
    /// Whatever goes wrong while the answer is read is an I/O error.
    fn from(error: std::io::Error) -> (failure: CrawlClientError)
        ensures
            failure == CrawlClientError::IOError,
    {
        CrawlClientError::IOError
    }
}

impl FromSpecImpl<std::io::Error> for CrawlClientError {
    open spec fn obeys_from_spec() -> bool {
        true
    }

    open spec fn from_spec(v: std::io::Error) -> CrawlClientError {
        CrawlClientError::IOError
    }
}

impl From<std::string::FromUtf8Error> for CrawlClientError {
    /// An answer that is not UTF-8 is an encoding error.
    fn from(error: std::string::FromUtf8Error) -> (failure: CrawlClientError)
        ensures
            failure == CrawlClientError::EncodingError,
    {
        CrawlClientError::EncodingError
    }
}

impl FromSpecImpl<std::string::FromUtf8Error> for CrawlClientError {
    open spec fn obeys_from_spec() -> bool {
        true
    }

    open spec fn from_spec(v: std::string::FromUtf8Error) -> CrawlClientError {
        CrawlClientError::EncodingError
    }
}

} // verus!
