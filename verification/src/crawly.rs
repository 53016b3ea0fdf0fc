//! The driver of a crawl, as the decisions it takes.
//!
//! A crawl is a loop over a channel of batches of links: send the seed,
//! then receive a batch, scrape it, and close the channel once nothing
//! waits; when the channel is drained, return what was visited. The channel
//! and the waiting on it belong to the caller. `Crawly` holds what is
//! decided in between: what to send first, what to do after each batch, and
//! what to return at the end.

use crate::link::error::LinkConstructionError;
use crate::link::link_constructor::{base_of, LinkBase, LinkConstructor};
use crate::link::parts::uri_parse;
use crate::result_publisher::ResultPublisher;
use crate::service::error::ScraperError;
use crate::service::scrape_service::{holds_only_admitted, ScrapeService};
use crate::text::texts;
use vstd::prelude::*;

verus! {

/// What the caller does with the channel after a batch was scraped.
#[derive(Debug, Clone, Copy, PartialEq, Eq, Structural)]
pub enum DriverAction {
    /// Links wait: receive the next batch.
    Receive,
    /// Nothing waits: close the channel, then receive what is left in it.
    Close,
}

/// The driver of one crawl.
pub struct Crawly<Scraper: ScrapeService> {
    scraper: Scraper,
    quiescent: bool,
}

impl<Scraper: ScrapeService> Crawly<Scraper> {
    /// The scraper of the crawl.
    pub closed spec fn scraper(&self) -> Scraper {
        self.scraper
    }

    /// Whether, after some batch, nothing was waiting.
    pub closed spec fn seen_idle(&self) -> bool {
        self.quiescent
    }

    /// A driver over `scraper`, before its first batch.
    pub fn new(scraper: Scraper) -> (crawly: Crawly<Scraper>)
        ensures
            crawly.scraper() == scraper,
            !crawly.seen_idle(),
    {
        Crawly { scraper, quiescent: false }
    }

    /// Starts a crawl at `start_url`: the result is the first batch for the
    /// channel, which holds the seed alone. A seed that is no base for
    /// links is refused with the error that says why, and nothing is to be
    /// sent.
    pub fn start_crawling(&self, start_url: &str) -> (first: Result<
        Vec<String>,
        LinkConstructionError,
    >)
        ensures
            match first {
                Ok(batch) => base_of(start_url@, uri_parse(start_url@)) is Ok && texts(batch@)
                    == seq![start_url@],
                Err(error) => base_of(start_url@, uri_parse(start_url@)) == Err::<LinkBase, _>(
                    error@,
                ),
            },
    {
        match LinkConstructor::try_from(start_url) {
            Ok(_) => {
                let mut batch: Vec<String> = Vec::new();
                batch.push(String::from_str(start_url));
                assert(texts(batch@) =~= seq![start_url@]);
                Ok(batch)
            },
            Err(error) => Err(error),
        }
    }

    /// Takes a batch that the channel delivered: has it scraped, and says
    /// what to do next. The channel is to be closed exactly if nothing
    /// waits once the batch is done. An error of the scraper ends the
    /// crawl.
    pub fn batch_received<P: ResultPublisher<Vec<String>, ScraperError>>(
        &mut self,
        batch: Vec<String>,
        publisher: &P,
    ) -> (next: Result<DriverAction, ScraperError>)
        ensures
            old(self).scraper().pending().disjoint(old(self).scraper().done())
                ==> final(self).scraper().pending().disjoint(final(self).scraper().done()),
            old(self).scraper().done().subset_of(final(self).scraper().done()),
            old(self).scraper().pending().subset_of(final(self).scraper().done()),
            forall|link: Seq<char>|
                final(self).scraper().admits(link) == old(self).scraper().admits(link),
            holds_only_admitted(old(self).scraper()) ==> holds_only_admitted(
                final(self).scraper(),
            ),
            match next {
                Ok(action) => {
                    &&& action is Close <==> final(self).scraper().pending().is_empty()
                    &&& final(self).seen_idle() == (old(self).seen_idle() || action is Close)
                },
                Err(_) => final(self).seen_idle() == old(self).seen_idle(),
            },
    {
        match self.scraper.scrape_links(batch, publisher) {
            Err(error) => Err(error),
            Ok(_) => {
                if self.scraper.has_more_items_to_scrape() {
                    Ok(DriverAction::Receive)
                } else {
                    self.quiescent = true;
                    Ok(DriverAction::Close)
                }
            },
        }
    }

    /// Ends the crawl when the channel is drained: the visited links, each
    /// once. There is a result only if, after some batch, nothing was
    /// waiting; a channel that ends before that has ended too early.
    pub fn finish(&self) -> (links: Option<Vec<String>>)
        ensures
            links is Some <==> self.seen_idle(),
            links matches Some(visited) ==> texts(visited@).no_duplicates() && texts(
                visited@,
            ).to_set() == self.scraper().done(),
    {
        if self.quiescent {
            Some(self.scraper.result())
        } else {
            None
        }
    }

    /// Whether any link waits.
    pub fn has_more_items_to_scrape(&self) -> (more: bool)
        ensures
            more == !self.scraper().pending().is_empty(),
    {
        self.scraper.has_more_items_to_scrape()
    }
}

} // verus!
