//! The interval index over a document's identifiers.
//!
//! The index is a `rust_lapper::Lapper`. Verus cannot see inside it:
//! what it holds is given a name, and the items below state without proof
//! what `Lapper::new`, `Lapper::insert` and `Lapper::find` do to it.
use crate::semantic_analyze::IdentType;
use rust_lapper::{Interval, Lapper};
use vstd::multiset::Multiset;
use vstd::prelude::*;

verus! {

/// An interval `[start, stop)` of character offsets tagged with what it addresses.
#[derive(Clone, Copy, Debug, PartialEq, Eq, Structural)]
pub struct IdentInterval {
    pub start: usize,
    pub stop: usize,
    pub val: IdentType,
}

impl IdentInterval {
    /// Whether the interval overlaps the query range `[start, stop)`.
    pub open spec fn overlaps(self, start: usize, stop: usize) -> bool {
        self.start < stop && self.stop > start
    }
}

/// An index from intervals to identifier kinds that answers overlap queries.
#[verifier::external_body]
pub struct IdentIndex {
    inner: Lapper<usize, IdentType>,
}

/// The intervals that an index holds, each as often as it was inserted.
pub uninterp spec fn index_intervals(index: IdentIndex) -> Multiset<IdentInterval>;

/// `Lapper::new` on an empty list: an index that holds nothing.
#[verifier::external_body]
pub(crate) fn index_new() -> (index: IdentIndex)
    ensures
        index_intervals(index) == Multiset::<IdentInterval>::empty(),
{
    IdentIndex { inner: Lapper::new(Vec::new()) }
}

/// `Lapper::insert`: the index gains the given interval and keeps the others.
#[verifier::external_body]
pub(crate) fn index_insert(index: &mut IdentIndex, interval: IdentInterval)
    ensures
        index_intervals(*final(index)) == index_intervals(*old(index)).insert(interval),
{
    index.inner.insert(Interval { start: interval.start, stop: interval.stop, val: interval.val })
}

/// `Lapper::find`, collected: every held interval with `start < stop_query`
/// and `stop > start_query`, each as often as it is held. The order in which
/// they come is not stated.
#[verifier::external_body]
pub(crate) fn index_find(index: &IdentIndex, start: usize, stop: usize) -> (found: Vec<IdentInterval>)
    ensures
        forall|interval: IdentInterval| #[trigger]
            found@.to_multiset().count(interval) == (if interval.overlaps(start, stop) {
                index_intervals(*index).count(interval)
            } else {
                0
            }),
{
    index.inner.find(start, stop).map(
        |interval| IdentInterval { start: interval.start, stop: interval.stop, val: interval.val },
    ).collect()
}

} // verus!
