//! Counting equal icons, with the counts kept in a `counter::Counter`.

use std::hash::Hash;

use counter::Counter;
use vstd::multiset::Multiset;
use vstd::prelude::*;

use crate::text::views_of;

verus! {

#[verifier::external_type_specification]
#[verifier::external_body]
#[verifier::reject_recursive_types(T)]
#[verifier::reject_recursive_types(N)]
pub struct ExCounter<T: Hash + Eq, N>(Counter<T, N>);

/// What a counter of strings holds: each string as often as the counter has
/// counted it.
pub uninterp spec fn tallied(counter: Counter<String, usize>) -> Multiset<Seq<char>>;

/// Counts every string of `items`.
///
/// Calls `Counter::from_iter` (through `collect`) on clones of the items. It
/// starts from an empty map and adds one to an item's count each time the
/// item comes by, so the counter holds every string exactly as often as
/// `items` does.
#[verifier::external_body]
pub(crate) fn count_all(items: &Vec<String>) -> (counter: Counter<String, usize>)
    ensures
        tallied(counter) == views_of(items@).to_multiset(),
{
    items.iter().cloned().collect()
}

/// How often `counter` has counted `item`.
///
/// Calls `Counter::index`, which reads the item's count from the map and
/// gives zero for an item that the map does not hold.
#[verifier::external_body]
pub(crate) fn count_of(counter: &Counter<String, usize>, item: &String) -> (n: usize)
    ensures
        n == tallied(*counter).count(item@),
{
    counter[item]
}

} // verus!
