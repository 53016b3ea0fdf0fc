//! The frontier of a crawl and the policies that guard it.

use crate::link::error::LinkConstructionError;
use crate::link::parts::url_parse;
use crate::queue::queue_addition_decider::{
    seed_host, AllowOnlySameDomainDecider, IgnoreJavaScriptLinksDecider, StandardDecider,
};
use vstd::prelude::*;

pub mod already_exists_decider;
pub mod laws;
pub mod crawl_queue;
pub mod link_set;
pub mod queue_addition_decider;

pub use already_exists_decider::ItemAlreadyExistsDecider;
pub use crawl_queue::CrawlQueue;
pub use queue_addition_decider::QueueAdditionDecider;

verus! {

/// The queue for a crawl that starts at `parent`: empty, with the two
/// standard policies. It keeps `javascript:` links out and lets in only the
/// links on the host of `parent`. Fails with `ParseError` where the URL
/// parser rejects `parent`.
pub fn create_queue(parent: &str) -> (created: Result<CrawlQueue, LinkConstructionError>)
    ensures
        match created {
            Ok(queue) => {
                &&& seed_host(url_parse(parent@)) is Ok
                &&& queue.is_standard_for(seed_host(url_parse(parent@))->Ok_0)
                &&& queue.wf()
                &&& queue.only_admitted()
                &&& queue.pending() == Set::<Seq<char>>::empty()
                &&& queue.done() == Set::<Seq<char>>::empty()
            },
            Err(error) => seed_host(url_parse(parent@)) == Err::<Seq<char>, _>(error@),
        },
{
    match AllowOnlySameDomainDecider::try_from(parent) {
        Ok(same_domain) => {
            let mut standard: Vec<StandardDecider> = Vec::new();
            standard.push(StandardDecider::IgnoreJavaScriptLinks(IgnoreJavaScriptLinksDecider));
            standard.push(StandardDecider::AllowOnlySameDomain(same_domain));
            Ok(CrawlQueue::with_standard(standard, Vec::new()))
        },
        Err(error) => Err(error),
    }
}

} // verus!
