//! The frontier of a crawl: the links that wait and the links that were
//! visited, behind the policies that let a link in.

use crate::queue::already_exists_decider::ItemAlreadyExistsDecider;
use crate::queue::link_set::{
    new_set, set_insert, set_is_empty, set_items, set_links, set_remove,
};
use crate::queue::queue_addition_decider::{QueueAdditionDecider, StandardDecider};
use crate::text::{lemma_texts_push, texts};
use vstd::prelude::*;

verus! {

/// The links of a crawl, each in one of two sets: waiting, or visited.
///
/// A link enters the waiting set once, when every policy lets it in and it
/// is in neither set. Marking it done moves it to the visited set, which it
/// never leaves.
pub struct CrawlQueue {
    standard: Vec<StandardDecider>,
    deciders: Vec<Box<dyn QueueAdditionDecider>>,
    processed: flurry::HashSet<String>,
    queue: flurry::HashSet<String>,
}

/// Whether every one of `standard` lets `link` in.
pub open spec fn standard_admit(standard: Seq<StandardDecider>, link: Seq<char>) -> bool {
    forall|i: int| 0 <= i < standard.len() ==> (#[trigger] standard[i]).admits(link)
}

/// Whether every one of `deciders` lets `link` in.
pub open spec fn deciders_admit(
    deciders: Seq<Box<dyn QueueAdditionDecider>>,
    link: Seq<char>,
) -> bool {
    forall|i: int| 0 <= i < deciders.len() ==> (#[trigger] deciders[i]).admits(link)
}

impl CrawlQueue {
    /// The standard policies, in the order in which they are asked.
    pub closed spec fn standard(&self) -> Seq<StandardDecider> {
        self.standard@
    }

    /// The further policies, asked after the standard ones.
    pub closed spec fn deciders(&self) -> Seq<Box<dyn QueueAdditionDecider>> {
        self.deciders@
    }

    /// The links that wait to be visited.
    pub closed spec fn pending(&self) -> Set<Seq<char>> {
        set_items(self.queue)
    }

    /// The links that were visited.
    pub closed spec fn done(&self) -> Set<Seq<char>> {
        set_items(self.processed)
    }

    /// No link both waits and is visited.
    pub open spec fn wf(&self) -> bool {
        self.pending().disjoint(self.done())
    }

    /// Whether every policy of the queue lets `link` in.
    pub open spec fn policies_admit(&self, link: Seq<char>) -> bool {
        standard_admit(self.standard(), link) && deciders_admit(self.deciders(), link)
    }

    /// Whether `link` waits or was visited.
    pub open spec fn known(&self, link: Seq<char>) -> bool {
        self.pending().contains(link) || self.done().contains(link)
    }

    /// Whether the queue has the policies of `other`.
    pub open spec fn same_policies(&self, other: &CrawlQueue) -> bool {
        self.standard() == other.standard() && self.deciders() == other.deciders()
    }

    /// Whether the queue has the two standard policies for a crawl on
    /// `host`, and no other: first the one that keeps `javascript:` links
    /// out, then the one that lets in the links on `host` only.
    pub open spec fn is_standard_for(&self, host: Seq<char>) -> bool {
        &&& self.standard().len() == 2
        &&& self.standard()[0] is IgnoreJavaScriptLinks
        &&& self.standard()[1] is AllowOnlySameDomain
        &&& self.standard()[1]->AllowOnlySameDomain_0.parent() == host
        &&& self.deciders().len() == 0
    }

    /// Whether every link of the queue, waiting or visited, is one that the
    /// policies let in.
    pub open spec fn only_admitted(&self) -> bool {
        forall|link: Seq<char>| #[trigger] self.known(link) ==> self.policies_admit(link)
    }

    /// Of `links`, offered in order, those that enter: the ones that the
    /// policies let in, that the queue does not know, and that did not enter
    /// earlier in the same batch.
    pub open spec fn admitted_of(&self, links: Seq<Seq<char>>) -> Seq<Seq<char>>
        decreases links.len(),
    {
        if links.len() == 0 {
            Seq::empty()
        } else {
            let earlier = self.admitted_of(links.drop_last());
            let link = links.last();
            if self.policies_admit(link) && !self.known(link) && !earlier.contains(link) {
                earlier.push(link)
            } else {
                earlier
            }
        }
    }

    /// An empty queue with the policies `deciders` and no standard policy.
    pub fn new(deciders: Vec<Box<dyn QueueAdditionDecider>>) -> (queue: CrawlQueue)
        ensures
            queue.wf(),
            queue.only_admitted(),
            queue.pending() == Set::<Seq<char>>::empty(),
            queue.done() == Set::<Seq<char>>::empty(),
            queue.standard() == Seq::<StandardDecider>::empty(),
            queue.deciders() == deciders@,
    {
        CrawlQueue::with_standard(Vec::new(), deciders)
    }

    /// An empty queue that asks the policies `standard` first and then
    /// `deciders`.
    pub fn with_standard(
        standard: Vec<StandardDecider>,
        deciders: Vec<Box<dyn QueueAdditionDecider>>,
    ) -> (queue: CrawlQueue)
        ensures
            queue.wf(),
            queue.only_admitted(),
            queue.pending() == Set::<Seq<char>>::empty(),
            queue.done() == Set::<Seq<char>>::empty(),
            queue.standard() == standard@,
            queue.deciders() == deciders@,
    {
        let processed = new_set();
        let queue = new_set();
        CrawlQueue { standard, deciders, processed, queue }
    }

    /// Whether every policy of the queue lets `link` in. The policies are
    /// asked in order, up to the first that refuses.
    pub fn passes_policies(&self, link: &str) -> (passes: bool)
        ensures
            passes == self.policies_admit(link@),
    {
        let mut i: usize = 0;
        while i < self.standard.len()
            invariant
                i <= self.standard@.len(),
                forall|j: int| 0 <= j < i ==> (#[trigger] self.standard@[j]).admits(link@),
            decreases self.standard@.len() - i,
        {
            if !self.standard[i].can_add_to_queue(link) {
                return false;
            }
            i += 1;
        }
        let mut k: usize = 0;
        while k < self.deciders.len()
            invariant
                k <= self.deciders@.len(),
                standard_admit(self.standard@, link@),
                forall|j: int| 0 <= j < k ==> (#[trigger] self.deciders@[j]).admits(link@),
            decreases self.deciders@.len() - k,
        {
            if !self.deciders[k].can_add_to_queue(link) {
                return false;
            }
            k += 1;
        }
        true
    }

    /// Offers each of `links` in order and returns those that entered.
    pub fn add_all(&mut self, links: Vec<String>) -> (added: Vec<String>)
        ensures
            old(self).wf() ==> final(self).wf(),
            final(self).same_policies(old(self)),
            texts(added@) == old(self).admitted_of(texts(links@)),
            final(self).pending() == old(self).pending().union(texts(added@).to_set()),
            final(self).done() == old(self).done(),
            old(self).only_admitted() ==> final(self).only_admitted(),
    {
        let mut added: Vec<String> = Vec::new();
        let mut i: usize = 0;
        assert(texts(links@).take(0) =~= Seq::<Seq<char>>::empty());
        assert(texts(added@) =~= Seq::<Seq<char>>::empty());
        assert(self.pending() =~= old(self).pending().union(texts(added@).to_set()));
        while i < links.len()
            invariant
                i <= links@.len(),
                old(self).wf() ==> self.wf(),
                self.same_policies(old(self)),
                texts(added@) == old(self).admitted_of(texts(links@).take(i as int)),
                self.pending() == old(self).pending().union(texts(added@).to_set()),
                self.done() == old(self).done(),
                old(self).only_admitted() ==> self.only_admitted(),
            decreases links@.len() - i,
        {
            let ghost before = texts(added@);
            let ghost link = links@[i as int]@;
            assert(texts(links@).take(i as int + 1).drop_last() =~= texts(links@).take(i as int));
            assert(texts(links@).take(i as int + 1).last() == link);
            assert(self.known(link) <==> old(self).known(link) || before.contains(link));
            if self.add_to_queue(links[i].as_str()) {
                let entered = links[i].clone();
                proof {
                    lemma_texts_push(added@, entered);
                    before.lemma_push_to_set_commute(link);
                }
                added.push(entered);
            }
            i += 1;
        }
        assert(texts(links@).take(links@.len() as int) =~= texts(links@));
        added
    }

    /// Offers `link`: it enters the waiting set if every policy lets it in
    /// and it neither waits nor was visited. Tells whether it entered.
    pub fn add_to_queue(&mut self, link: &str) -> (added: bool)
        ensures
            old(self).wf() ==> final(self).wf(),
            final(self).same_policies(old(self)),
            added == (old(self).policies_admit(link@) && !old(self).known(link@)),
            final(self).pending() == if added {
                old(self).pending().insert(link@)
            } else {
                old(self).pending()
            },
            final(self).done() == old(self).done(),
            old(self).only_admitted() ==> final(self).only_admitted(),
    {
        if !self.passes_policies(link) {
            return false;
        }
        let default_decider = ItemAlreadyExistsDecider::new(&self.queue, &self.processed);
        if !default_decider.can_add_to_queue(link) {
            return false;
        }
        let added = set_insert(&mut self.queue, String::from_str(link));
        proof {
            if old(self).only_admitted() {
                assert forall|other: Seq<char>| #[trigger]
                    self.known(other) implies self.policies_admit(other) by {
                    if other != link@ {
                        assert(old(self).known(other));
                    }
                }
            }
        }
        added
    }

    /// Records that `link` was visited: it leaves the waiting set, if it
    /// was there, and is in the visited set from now on.
    pub fn mark_as_done(&mut self, link: &str)
        ensures
            old(self).wf() ==> final(self).wf(),
            final(self).same_policies(old(self)),
            final(self).pending() == old(self).pending().remove(link@),
            final(self).done() == old(self).done().insert(link@),
            old(self).only_admitted() && (old(self).known(link@) || old(self).policies_admit(
                link@,
            )) ==> final(self).only_admitted(),
    {
        set_remove(&mut self.queue, link);
        set_insert(&mut self.processed, String::from_str(link));
        proof {
            if old(self).only_admitted() && (old(self).known(link@) || old(self).policies_admit(
                link@,
            )) {
                assert forall|other: Seq<char>| #[trigger]
                    self.known(other) implies self.policies_admit(other) by {
                    if other != link@ {
                        assert(old(self).known(other));
                    }
                }
            }
        }
    }

    /// The visited links, each once, in no particular order.
    pub fn finished(&self) -> (links: Vec<String>)
        ensures
            texts(links@).no_duplicates(),
            texts(links@).to_set() == self.done(),
    {
        set_links(&self.processed)
    }

    /// The waiting links, each once, in no particular order.
    pub fn items(&self) -> (links: Vec<String>)
        ensures
            texts(links@).no_duplicates(),
            texts(links@).to_set() == self.pending(),
    {
        set_links(&self.queue)
    }

    /// Whether no link waits.
    pub fn is_empty(&self) -> (empty: bool)
        ensures
            empty == self.pending().is_empty(),
    {
        set_is_empty(&self.queue)
    }
}

} // verus!
