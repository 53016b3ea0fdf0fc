//! Why a page could not be scraped.

use crate::client::error::CrawlClientError;
use crate::link::error::{failure_message, LinkConstructionError};
use vstd::prelude::*;
use vstd::std_specs::convert::FromSpecImpl;

verus! {

/// The ways in which scraping a page fails.
#[derive(Debug)]
pub enum ScraperError {
    /// The page's own address is no base for links; the field holds the
    /// message of the error that said so.
    InvalidUrl(String),
    /// The page could not be fetched.
    ClientError,
}

/// A `ScraperError` with its message as a sequence of characters.
pub enum ScrapeFailure {
    InvalidUrl(Seq<char>),
    ClientError,
}

impl View for ScraperError {
    type V = ScrapeFailure;

    open spec fn view(&self) -> ScrapeFailure {
        match self {
            ScraperError::InvalidUrl(message) => ScrapeFailure::InvalidUrl(message@),
            ScraperError::ClientError => ScrapeFailure::ClientError,
        }
    }
}

/// What a `ScrapeFailure` reads as: the reason in double quotes, and a line
/// break.
pub open spec fn scrape_failure_message(failure: ScrapeFailure) -> Seq<char> {
    match failure {
        ScrapeFailure::InvalidUrl(_) => "\"Invalid link or url\"\n"@,
        ScrapeFailure::ClientError => "\"There was an error fetching from url\"\n"@,
    }
}

impl ScraperError {
    /// The error as a line for a person to read.
    pub fn to_string(&self) -> (message: String)
        ensures
            message@ == scrape_failure_message(self@),
    {
        match self {
            ScraperError::InvalidUrl(_) => String::from_str("\"Invalid link or url\"\n"),
            ScraperError::ClientError => String::from_str(
                "\"There was an error fetching from url\"\n",
            ),
        }
    }
}

impl From<LinkConstructionError> for ScraperError {
    /// An address that is no base for links is an invalid URL; the message
    /// of the error is kept.
    fn from(err: LinkConstructionError) -> (error: ScraperError)
        ensures
            error@ == ScrapeFailure::InvalidUrl(failure_message(err@)),
    {
        ScraperError::InvalidUrl(err.to_string())
    }
}

impl FromSpecImpl<LinkConstructionError> for ScraperError {
    open spec fn obeys_from_spec() -> bool {
        false
    }

    open spec fn from_spec(v: LinkConstructionError) -> ScraperError {
        arbitrary()
    }
}

impl From<CrawlClientError> for ScraperError {
    /// Whatever went wrong with the fetch, the scrape reports a client
    /// error.
    fn from(err: CrawlClientError) -> (error: ScraperError)
        ensures
            error is ClientError,
    {
        ScraperError::ClientError
    }
}

impl FromSpecImpl<CrawlClientError> for ScraperError {
    open spec fn obeys_from_spec() -> bool {
        true
    }

    open spec fn from_spec(v: CrawlClientError) -> ScraperError {
        ScraperError::ClientError
    }
}

} // verus!
