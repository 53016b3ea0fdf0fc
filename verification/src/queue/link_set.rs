//! The concurrent hash set that holds the frontier's links.
//!
//! The set is `flurry::HashSet<String>`. Its methods take `&self` and a guard,
//! so that many tasks may share one set. The functions here pin a guard for
//! each call, and those that change the set ask for `&mut`: whoever calls
//! them holds the set alone for the length of the call, and what the set
//! holds before and after can be stated as for an ordinary set.

use crate::text::texts;
use vstd::prelude::*;

verus! {

#[verifier::external_type_specification]
#[verifier::external_body]
#[verifier::reject_recursive_types(T)]
#[verifier::reject_recursive_types(S)]
pub struct ExHashSet<T, S>(flurry::HashSet<T, S>);

#[verifier::external_type_specification]
#[verifier::external_body]
pub struct ExDefaultHashBuilder(flurry::DefaultHashBuilder);

/// The links that a set holds.
pub uninterp spec fn set_items(set: flurry::HashSet<String>) -> Set<Seq<char>>;

/// Calls `flurry::HashSet::new`.
///
/// Trusted: the new set holds nothing.
#[verifier::external_body]
pub(crate) fn new_set() -> (set: flurry::HashSet<String>)
    ensures
        set_items(set) == Set::<Seq<char>>::empty(),
{
    flurry::HashSet::new()
}

/// Calls `flurry::HashSet::insert`.
///
/// Trusted: afterwards the set holds `link` besides what it held, and the
/// result tells whether `link` was missing before.
#[verifier::external_body]
pub(crate) fn set_insert(set: &mut flurry::HashSet<String>, link: String) -> (added: bool)
    ensures
        set_items(*final(set)) == set_items(*old(set)).insert(link@),
        added == !set_items(*old(set)).contains(link@),
{
    set.insert(link, &set.guard())
}

/// Calls `flurry::HashSet::remove`.
///
/// Trusted: afterwards the set holds what it held but for `link`, and the
/// result tells whether `link` was there before.
#[verifier::external_body]
pub(crate) fn set_remove(set: &mut flurry::HashSet<String>, link: &str) -> (removed: bool)
    ensures
        set_items(*final(set)) == set_items(*old(set)).remove(link@),
        removed == set_items(*old(set)).contains(link@),
{
    set.remove(link, &set.guard())
}

/// Calls `flurry::HashSet::contains`.
///
/// Trusted: the result tells whether the set holds `link`.
#[verifier::external_body]
pub(crate) fn set_contains(set: &flurry::HashSet<String>, link: &str) -> (found: bool)
    ensures
        found == set_items(*set).contains(link@),
{
    set.contains(link, &set.guard())
}

/// Calls `flurry::HashSet::iter` and copies what it yields.
///
/// Trusted: the iterator visits every link of the set once. The order is
/// the hash table's and nothing is claimed of it.
#[verifier::external_body]
pub(crate) fn set_links(set: &flurry::HashSet<String>) -> (links: Vec<String>)
    ensures
        texts(links@).no_duplicates(),
        texts(links@).to_set() == set_items(*set),
{
    set.iter(&set.guard()).map(|link| link.clone()).collect()
}

/// Calls `flurry::HashSet::is_empty`.
///
/// Trusted: the result tells whether the set holds nothing.
#[verifier::external_body]
pub(crate) fn set_is_empty(set: &flurry::HashSet<String>) -> (empty: bool)
    ensures
        empty == set_items(*set).is_empty(),
{
    set.is_empty()
}

} // verus!
