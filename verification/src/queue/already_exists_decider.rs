//! The policy that every queue applies after its own: a link enters once.

use crate::queue::link_set::{set_contains, set_items};
use crate::queue::queue_addition_decider::QueueAdditionDecider;
use vstd::prelude::*;

verus! {

/// Lets in the links that are neither waiting nor visited.
pub struct ItemAlreadyExistsDecider<'a> {
    queue: &'a flurry::HashSet<String>,
    processed: &'a flurry::HashSet<String>,
}

impl<'a> ItemAlreadyExistsDecider<'a> {
    /// The links that wait.
    pub closed spec fn waiting(&self) -> Set<Seq<char>> {
        set_items(*self.queue)
    }

    /// The links that were visited.
    pub closed spec fn visited(&self) -> Set<Seq<char>> {
        set_items(*self.processed)
    }

    /// The policy over the set of waiting links and the set of visited ones.
    pub fn new(
        queue: &'a flurry::HashSet<String>,
        processed: &'a flurry::HashSet<String>,
    ) -> (decider: ItemAlreadyExistsDecider<'a>)
        ensures
            decider.waiting() == set_items(*queue),
            decider.visited() == set_items(*processed),
    {
        ItemAlreadyExistsDecider { queue, processed }
    }
}

impl<'a> QueueAdditionDecider for ItemAlreadyExistsDecider<'a> {
    open spec fn admits(&self, link: Seq<char>) -> bool {
        !self.visited().contains(link) && !self.waiting().contains(link)
    }

    fn can_add_to_queue(&self, link: &str) -> (decision: bool) {
        !set_contains(self.processed, link) && !set_contains(self.queue, link)
    }
}

} // verus!
