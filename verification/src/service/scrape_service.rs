//! Scraping: one page, and a batch of pages.

use crate::client::crawl_client::CrawlClient;
use crate::client::error::CrawlClientError;
use crate::link::error::failure_message;
use crate::link::link_constructor::{base_of, resolve_all, LinkConstructor};
use crate::link::parts::uri_parse;
use crate::queue::crawl_queue::CrawlQueue;
use crate::queue::laws::lemma_admitted_are_new;
use crate::result_publisher::ResultPublisher;
use crate::service::error::{ScrapeFailure, ScraperError};
use crate::text::{lemma_texts_concat, texts};
use vstd::prelude::*;
use vstd::seq_lib::lemma_no_dup_in_concat;

verus! {

/// What the driver of a crawl asks of a scraper.
pub trait ScrapeService: Sized {
    /// The links that wait to be visited. An implementation says what they
    /// are; where it does not, nothing is known of them.
    open spec fn pending(&self) -> Set<Seq<char>> {
        arbitrary()
    }

    /// The links that were visited. An implementation says what they are;
    /// where it does not, nothing is known of them.
    open spec fn done(&self) -> Set<Seq<char>> {
        arbitrary()
    }

    /// Whether the policies of the crawl let `link` in. An implementation
    /// says what they let in; where it does not, nothing is known of them.
    open spec fn admits(&self, link: Seq<char>) -> bool {
        arbitrary()
    }

    /// Whether any link waits.
    fn has_more_items_to_scrape(&self) -> (more: bool)
        ensures
            more == !self.pending().is_empty(),
    ;

    /// The visited links, each once.
    fn result(&self) -> (links: Vec<String>)
        ensures
            texts(links@).no_duplicates(),
            texts(links@).to_set() == self.done(),
    ;

    /// Offers `links`, then visits every link that waits. Afterwards each
    /// link that waited, and each that was visited, is visited. The
    /// policies stay as they are. Where no link both waited and was
    /// visited, none does afterwards; where every link was one that the
    /// policies let in, every link is afterwards.
    fn scrape_links<P: ResultPublisher<Vec<String>, ScraperError>>(
        &mut self,
        links: Vec<String>,
        publisher: &P,
    ) -> (scraped: Result<Vec<String>, ScraperError>)
        ensures
            old(self).pending().disjoint(old(self).done()) ==> final(self).pending().disjoint(
                final(self).done(),
            ),
            old(self).done().subset_of(final(self).done()),
            old(self).pending().subset_of(final(self).done()),
            forall|link: Seq<char>| final(self).admits(link) == old(self).admits(link),
            (forall|link: Seq<char>|
                #![trigger old(self).pending().contains(link)]
                #![trigger old(self).done().contains(link)]
                old(self).pending().contains(link) || old(self).done().contains(link) ==> old(
                    self,
                ).admits(link)) ==> (forall|link: Seq<char>|
                #![trigger final(self).pending().contains(link)]
                #![trigger final(self).done().contains(link)]
                final(self).pending().contains(link) || final(self).done().contains(link)
                    ==> final(self).admits(link)),
    ;
}

/// Whether every link of a scraper, waiting or visited, is one that its
/// policies let in.
pub open spec fn holds_only_admitted<S: ScrapeService>(scraper: S) -> bool {
    forall|link: Seq<char>|
        #![trigger scraper.pending().contains(link)]
        #![trigger scraper.done().contains(link)]
        scraper.pending().contains(link) || scraper.done().contains(link) ==> scraper.admits(
            link,
        )
}

/// The scraper of a crawl: a client to fetch pages with, and the frontier.
pub struct CrawleyScrapeService<C: CrawlClient> {
    client: C,
    queue: CrawlQueue,
}

impl<C: CrawlClient> CrawleyScrapeService<C> {
    /// The frontier of the crawl.
    pub closed spec fn frontier(&self) -> CrawlQueue {
        self.queue
    }

    /// A scraper that fetches with `client` and records in `queue`.
    pub fn new(client: C, queue: CrawlQueue) -> (service: CrawleyScrapeService<C>)
        ensures
            service.frontier() == queue,
    {
        CrawleyScrapeService { client, queue }
    }

    /// The frontier of the crawl.
    pub fn queue(&self) -> (queue: &CrawlQueue)
        ensures
            *queue == self.frontier(),
    {
        &self.queue
    }

    /// Takes in what a fetch of the page behind `constructor` gave. A failed
    /// fetch is a `ClientError` and changes nothing. Of the `href`s of a
    /// page that was fetched, those that resolve are offered to the
    /// frontier in order, and the result is those that entered.
    pub fn admit_page(
        &mut self,
        constructor: &LinkConstructor,
        response: Result<Vec<String>, CrawlClientError>,
    ) -> (admitted: Result<Vec<String>, ScraperError>)
        ensures
            old(self).frontier().wf() ==> final(self).frontier().wf(),
            final(self).frontier().same_policies(&old(self).frontier()),
            final(self).frontier().done() == old(self).frontier().done(),
            old(self).frontier().only_admitted() ==> final(self).frontier().only_admitted(),
            match admitted {
                Ok(links) => {
                    &&& response is Ok
                    &&& texts(links@) == old(self).frontier().admitted_of(
                        resolve_all(constructor@, texts(response->Ok_0@)),
                    )
                    &&& final(self).frontier().pending() == old(self).frontier().pending().union(
                        texts(links@).to_set(),
                    )
                },
                Err(error) => {
                    &&& response is Err
                    &&& error is ClientError
                    &&& final(self).frontier().pending() == old(self).frontier().pending()
                },
            },
    {
        match response {
            Err(error) => Err(ScraperError::from(error)),
            Ok(hrefs) => {
                let links = constructor.construct_all(&hrefs);
                Ok(self.queue.add_all(links))
            },
        }
    }

    /// Scrapes the page at `link`: fetches it, offers the links found on it
    /// to the frontier, and publishes those that entered. The result is
    /// the links that entered, in the order in which they were found.
    ///
    /// Fails with `InvalidUrl` where `link` is no base for links, before
    /// anything is fetched, and with `ClientError` where the fetch fails;
    /// the frontier is then unchanged. Fails with the publisher's error
    /// where the publisher fails. In no case does a link leave the
    /// frontier, and what enters is new to it and let in by every policy.
    pub fn scrape<P: ResultPublisher<Vec<String>, ScraperError>>(
        &mut self,
        link: &str,
        publisher: &P,
    ) -> (scraped: Result<Vec<String>, ScraperError>)
        ensures
            old(self).frontier().wf() ==> final(self).frontier().wf(),
            final(self).frontier().same_policies(&old(self).frontier()),
            final(self).frontier().done() == old(self).frontier().done(),
            old(self).frontier().pending().subset_of(final(self).frontier().pending()),
            forall|entered: Seq<char>|
                #![trigger final(self).frontier().pending().contains(entered)]
                final(self).frontier().pending().contains(entered) && !old(
                    self,
                ).frontier().pending().contains(entered) ==> old(self).frontier().policies_admit(
                    entered,
                ) && !old(self).frontier().known(entered),
            old(self).frontier().only_admitted() ==> final(self).frontier().only_admitted(),
            base_of(link@, uri_parse(link@)) matches Err(failure) ==> {
                &&& scraped is Err
                &&& scraped->Err_0@ == ScrapeFailure::InvalidUrl(failure_message(failure))
                &&& final(self).frontier().pending() == old(self).frontier().pending()
            },
            scraped matches Ok(entered) ==> {
                &&& base_of(link@, uri_parse(link@)) is Ok
                &&& texts(entered@).no_duplicates()
                &&& final(self).frontier().pending() == old(self).frontier().pending().union(
                    texts(entered@).to_set(),
                )
                &&& forall|i: int|
                    0 <= i < entered@.len() ==> !old(self).frontier().known(
                        #[trigger] texts(entered@)[i],
                    )
            },
    {
        let constructor = match LinkConstructor::try_from(link) {
            Ok(constructor) => constructor,
            Err(error) => {
                return Err(ScraperError::from(error));
            },
        };
        let response = self.client.crawl_and_fetch_links(link);
        let ghost hrefs = if response is Ok {
            resolve_all(constructor@, texts(response->Ok_0@))
        } else {
            Seq::empty()
        };
        proof {
            lemma_admitted_are_new(self.queue, hrefs);
        }
        let links = match self.admit_page(&constructor, response) {
            Ok(links) => links,
            Err(error) => {
                return Err(error);
            },
        };
        assert forall|entered: Seq<char>|
            self.frontier().pending().contains(entered) && !old(
                self,
            ).frontier().pending().contains(entered) implies old(self).frontier().policies_admit(
            entered,
        ) && !old(self).frontier().known(entered) by {
            assert(texts(links@).contains(entered));
        }
        assert forall|i: int| 0 <= i < links@.len() implies !old(self).frontier().known(
            #[trigger] texts(links@)[i],
        ) by {
            assert(texts(links@).contains(texts(links@)[i]));
        }
        match publisher.notify(links.clone()) {
            Ok(_) => Ok(links),
            Err(error) => Err(error),
        }
    }
}

impl<C: CrawlClient> ScrapeService for CrawleyScrapeService<C> {
    open spec fn pending(&self) -> Set<Seq<char>> {
        self.frontier().pending()
    }

    open spec fn done(&self) -> Set<Seq<char>> {
        self.frontier().done()
    }

    open spec fn admits(&self, link: Seq<char>) -> bool {
        self.frontier().policies_admit(link)
    }

    fn has_more_items_to_scrape(&self) -> (more: bool) {
        !self.queue.is_empty()
    }

    fn result(&self) -> (links: Vec<String>) {
        self.queue.finished()
    }

    /// Offers `links` to the frontier, then scrapes every link that waits
    /// and marks it done, whether the scrape succeeded or not. The result
    /// is what the scrapes that succeeded returned, one after the other.
    ///
    /// Afterwards the visited links are those that were visited, those that
    /// waited, and those of `links` that entered. What waits now was found
    /// by the scrapes: it is new to the frontier and let in by every
    /// policy.
    fn scrape_links<P: ResultPublisher<Vec<String>, ScraperError>>(
        &mut self,
        links: Vec<String>,
        publisher: &P,
    ) -> (scraped: Result<Vec<String>, ScraperError>)
        ensures
            scraped is Ok,
            final(self).frontier().same_policies(&old(self).frontier()),
            final(self).frontier().done() == old(self).frontier().done().union(
                old(self).frontier().pending(),
            ).union(old(self).frontier().admitted_of(texts(links@)).to_set()),
            old(self).frontier().wf() ==> forall|waiting: Seq<char>|
                #![trigger final(self).frontier().pending().contains(waiting)]
                final(self).frontier().pending().contains(waiting) ==> old(
                    self,
                ).frontier().policies_admit(waiting) && !old(self).frontier().known(waiting),
            old(self).frontier().only_admitted() ==> final(self).frontier().only_admitted(),
            scraped matches Ok(found) ==> {
                &&& texts(found@).no_duplicates()
                &&& forall|k: int|
                    0 <= k < found@.len() ==> final(self).frontier().pending().contains(
                        #[trigger] texts(found@)[k],
                    ) && !old(self).frontier().known(texts(found@)[k])
            },
    {
        let ghost offered = old(self).frontier().admitted_of(texts(links@));
        let _ = self.queue.add_all(links);
        let unvisited = self.queue.items();
        let ghost start = self.queue;
        let mut found: Vec<String> = Vec::new();
        let mut i: usize = 0;
        assert(texts(unvisited@).take(0).to_set() =~= Set::<Seq<char>>::empty());
        assert(self.queue.done() =~= start.done().union(texts(unvisited@).take(0).to_set()));
        while i < unvisited.len()
            invariant
                i <= unvisited@.len(),
                start.wf() ==> self.queue.wf(),
                self.queue.same_policies(&start),
                texts(unvisited@).no_duplicates(),
                texts(unvisited@).to_set() == start.pending(),
                self.queue.done() == start.done().union(
                    texts(unvisited@).take(i as int).to_set(),
                ),
                forall|waiting: Seq<char>|
                    #![trigger self.queue.pending().contains(waiting)]
                    self.queue.pending().contains(waiting) ==> start.pending().contains(waiting)
                        || (start.policies_admit(waiting) && !start.known(waiting)),
                start.only_admitted() ==> self.queue.only_admitted(),
                forall|j: int|
                    i <= j < unvisited@.len() ==> self.queue.pending().contains(
                        #[trigger] texts(unvisited@)[j],
                    ),
                forall|known: Seq<char>| #[trigger] start.known(known) ==> self.queue.known(known),
                texts(found@).no_duplicates(),
                forall|k: int|
                    0 <= k < found@.len() ==> self.queue.pending().contains(
                        #[trigger] texts(found@)[k],
                    ) && !start.known(texts(found@)[k]),
            decreases unvisited@.len() - i,
        {
            let ghost visited = texts(unvisited@).take(i as int);
            let ghost link = texts(unvisited@)[i as int];
            let ghost before = self.queue;
            assert(self.queue.pending().contains(link));
            assert(start.pending().contains(link));
            let outcome = self.scrape(unvisited[i].as_str(), publisher);
            let ghost scraped = self.queue;
            assert(self.queue.known(link));
            self.queue.mark_as_done(unvisited[i].as_str());
            proof {
                assert(texts(unvisited@).take(i as int + 1) =~= visited.push(link));
                visited.lemma_push_to_set_commute(link);
                assert(self.queue.done() =~= start.done().union(
                    texts(unvisited@).take(i as int + 1).to_set(),
                ));
                assert forall|j: int| i + 1 <= j < unvisited@.len() implies
                    self.queue.pending().contains(#[trigger] texts(unvisited@)[j]) by {
                    assert(texts(unvisited@).no_duplicates());
                    assert(texts(unvisited@)[j] != link);
                }
            }
            proof {
                assert forall|known: Seq<char>| #[trigger] start.known(known) implies
                    self.queue.known(known) by {
                    assert(before.known(known));
                    assert(scraped.known(known));
                }
                assert forall|k: int| 0 <= k < found@.len() implies self.queue.pending().contains(
                    #[trigger] texts(found@)[k],
                ) by {
                    assert(before.pending().contains(texts(found@)[k]));
                    assert(start.known(link));
                }
            }
            match outcome {
                Ok(mut links) => {
                    proof {
                        let earlier = texts(found@);
                        let entered = texts(links@);
                        lemma_texts_concat(found@, links@);
                        assert forall|a: int, b: int|
                            0 <= a < earlier.len() && 0 <= b < entered.len() implies earlier[a]
                            != entered[b] by {
                            assert(before.known(earlier[a]));
                            assert(!before.known(entered[b]));
                        }
                        lemma_no_dup_in_concat(earlier, entered);
                        assert forall|k: int| 0 <= k < entered.len() implies
                            self.queue.pending().contains(#[trigger] entered[k]) && !start.known(
                            entered[k],
                        ) by {
                            assert(entered.contains(entered[k]));
                            assert(entered.to_set().contains(entered[k]));
                            assert(scraped.pending().contains(entered[k]));
                            assert(before.known(link));
                            assert(!before.known(entered[k]));
                            if start.known(entered[k]) {
                                assert(before.known(entered[k]));
                            }
                        }
                    }
                    found.append(&mut links);
                },
                Err(_) => {},
            }
            i += 1;
        }
        proof {
            assert(texts(unvisited@).take(unvisited@.len() as int) =~= texts(unvisited@));
            assert(self.queue.done() =~= old(self).frontier().done().union(
                old(self).frontier().pending(),
            ).union(offered.to_set()));
            lemma_admitted_are_new(old(self).frontier(), texts(links@));
            if forall|link: Seq<char>|
                #![trigger old(self).pending().contains(link)]
                #![trigger old(self).done().contains(link)]
                old(self).pending().contains(link) || old(self).done().contains(link) ==> old(
                    self,
                ).admits(link) {
                assert forall|link: Seq<char>| #[trigger]
                    old(self).frontier().known(link) implies old(self).frontier().policies_admit(
                    link,
                ) by {
                    assert(old(self).pending().contains(link) || old(self).done().contains(link));
                }
                assert(self.queue.only_admitted());
                assert forall|link: Seq<char>|
                    self.pending().contains(link) || self.done().contains(link) implies self.admits(
                    link,
                ) by {
                    assert(self.queue.known(link));
                }
            }
            if old(self).frontier().wf() {
                assert forall|waiting: Seq<char>|
                    #![trigger self.queue.pending().contains(waiting)]
                    self.queue.pending().contains(waiting) implies old(
                    self,
                ).frontier().policies_admit(waiting) && !old(self).frontier().known(waiting) by {
                    if start.pending().contains(waiting) {
                        assert(self.queue.done().contains(waiting));
                    }
                }
            }
        }
        Ok(found)
    }
}

} // verus!
