//! What holds of every crawl, proved from the contracts of the scraper.
//!
//! A crawl starts from a frontier in which no link both waits and is
//! visited, and in which every link is one that the policies let in: an
//! empty one. Every operation of the scraper and of the driver keeps both,
//! and keeps the policies. So both hold of the frontier at every point of a
//! crawl, and the laws below apply to it.

use crate::client::crawl_client::CrawlClient;
use crate::queue::laws::lemma_standard_policies;
use crate::queue::queue_addition_decider::{is_not_script, same_host};
use crate::service::scrape_service::{holds_only_admitted, CrawleyScrapeService, ScrapeService};
use vstd::prelude::*;

verus! {

/// Every visited link is one that every policy let in.
pub proof fn lemma_visited_links_were_admitted<S: ScrapeService>(scraper: S, link: Seq<char>)
    requires
        holds_only_admitted(scraper),
        scraper.done().contains(link),
    ensures
        scraper.admits(link),
{
}

/// No link both waits and is visited.
pub proof fn lemma_no_link_waits_and_is_visited<S: ScrapeService>(scraper: S, link: Seq<char>)
    requires
        scraper.pending().disjoint(scraper.done()),
    ensures
        !(scraper.pending().contains(link) && scraper.done().contains(link)),
{
}

/// A frontier that holds admitted links only is one in the scraper's terms
/// too, and the other way round.
pub proof fn lemma_frontier_holds_only_admitted<C: CrawlClient>(service: CrawleyScrapeService<C>)
    ensures
        holds_only_admitted(service) <==> service.frontier().only_admitted(),
{
    let frontier = service.frontier();
    if holds_only_admitted(service) {
        assert forall|link: Seq<char>| #[trigger] frontier.known(link) implies frontier.policies_admit(
            link,
        ) by {
            assert(service.pending().contains(link) || service.done().contains(link));
        }
    }
    if frontier.only_admitted() {
        assert forall|link: Seq<char>|
            service.pending().contains(link) || service.done().contains(link) implies service.admits(
            link,
        ) by {
            assert(frontier.known(link));
        }
    }
}

/// Under the standard policies for `host`, a crawl visits links on `host`
/// only: for any other host, no link on it is ever visited. Nor is a
/// `javascript:` link.
pub proof fn lemma_crawl_stays_on_host<C: CrawlClient>(
    service: CrawleyScrapeService<C>,
    host: Seq<char>,
    link: Seq<char>,
)
    requires
        service.frontier().is_standard_for(host),
        holds_only_admitted(service),
        service.done().contains(link),
    ensures
        same_host(host, link),
        is_not_script(link),
{
    lemma_standard_policies(service.frontier(), host, link);
}

} // verus!
