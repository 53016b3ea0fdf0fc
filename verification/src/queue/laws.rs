//! What holds of every queue, proved from the contracts of its operations.

use crate::queue::crawl_queue::CrawlQueue;
use crate::queue::queue_addition_decider::{is_not_script, same_host, QueueAdditionDecider};
use vstd::prelude::*;

verus! {

/// No link both waits and is visited.
pub proof fn lemma_pending_and_done_are_disjoint(queue: CrawlQueue, link: Seq<char>)
    requires
        queue.wf(),
    ensures
        !(queue.pending().contains(link) && queue.done().contains(link)),
        queue.pending().intersect(queue.done()) == Set::<Seq<char>>::empty(),
{
    assert(queue.pending().intersect(queue.done()) =~= Set::<Seq<char>>::empty());
}

/// In a queue that holds admitted links only, every visited link is one
/// that every policy lets in.
pub proof fn lemma_done_passed_every_policy(queue: CrawlQueue, link: Seq<char>)
    requires
        queue.only_admitted(),
        queue.done().contains(link),
    ensures
        queue.policies_admit(link),
{
    assert(queue.known(link));
}

/// What the standard policies for `host` let in: the links on `host` that
/// are no `javascript:` links.
pub proof fn lemma_standard_policies(queue: CrawlQueue, host: Seq<char>, link: Seq<char>)
    requires
        queue.is_standard_for(host),
    ensures
        queue.policies_admit(link) <==> is_not_script(link) && same_host(host, link),
{
    let standard = queue.standard();
    if queue.policies_admit(link) {
        assert(standard[0].admits(link));
        assert(standard[1].admits(link));
    }
}

/// Under the standard policies for `host`, every visited link is on `host`:
/// no link on another host is ever visited.
pub proof fn lemma_done_stays_on_host(queue: CrawlQueue, host: Seq<char>, link: Seq<char>)
    requires
        queue.is_standard_for(host),
        queue.only_admitted(),
        queue.done().contains(link),
    ensures
        same_host(host, link),
        is_not_script(link),
{
    lemma_done_passed_every_policy(queue, link);
    lemma_standard_policies(queue, host, link);
}

/// Of a batch that is offered, what enters is new and admitted: each link
/// that enters is one of the batch, is let in by every policy, was not
/// known to the queue, and enters once.
pub proof fn lemma_admitted_are_new(queue: CrawlQueue, links: Seq<Seq<char>>)
    ensures
        queue.admitted_of(links).no_duplicates(),
        forall|link: Seq<char>| #[trigger]
            queue.admitted_of(links).contains(link) ==> links.contains(link)
                && queue.policies_admit(link) && !queue.known(link),
    decreases links.len(),
{
    if links.len() > 0 {
        let earlier = links.drop_last();
        lemma_admitted_are_new(queue, earlier);
        let before = queue.admitted_of(earlier);
        let last = links.last();
        assert forall|link: Seq<char>| #[trigger]
            queue.admitted_of(links).contains(link) implies links.contains(link)
            && queue.policies_admit(link) && !queue.known(link) by {
            let i = choose|i: int|
                0 <= i < queue.admitted_of(links).len() && queue.admitted_of(links)[i] == link;
            if i < before.len() {
                assert(before[i] == link);
                assert(before.contains(link));
                let j = choose|j: int| 0 <= j < earlier.len() && earlier[j] == link;
                assert(links[j] == link);
            } else {
                assert(link == last);
                assert(links[links.len() - 1] == link);
            }
        }
    }
}

/// Offering a link a second time changes nothing: once a link was offered,
/// whether it entered or not, the queue does not let it in again.
pub proof fn lemma_second_offer_is_refused(before: CrawlQueue, after: CrawlQueue, link: Seq<char>)
    requires
        after.same_policies(&before),
        after.done() == before.done(),
        after.pending() == if before.policies_admit(link) && !before.known(link) {
            before.pending().insert(link)
        } else {
            before.pending()
        },
    ensures
        !(after.policies_admit(link) && !after.known(link)),
{
}

} // verus!
