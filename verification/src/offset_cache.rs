//! A small bounded cache from positions to offsets.
//!
//! The cache keeps its entries from the least to the most recently used. A
//! hit moves the entry to the end; an insertion into a full cache drops the
//! entry at the front.
use crate::position::Position;
use crate::text::str_eq;
use vstd::prelude::*;

verus! {

#[derive(Clone, Debug)]
pub struct HoverCacheEntry {
    pub uri: String,
    pub version: Option<i32>,
    pub line: u32,
    pub column: u32,
    pub offset: usize,
}

pub struct HoverCacheEntryView {
    pub uri: Seq<char>,
    pub version: Option<i32>,
    pub line: u32,
    pub column: u32,
    pub offset: usize,
}

impl DeepView for HoverCacheEntry {
    type V = HoverCacheEntryView;

    open spec fn deep_view(&self) -> HoverCacheEntryView {
        HoverCacheEntryView {
            uri: self.uri@,
            version: self.version,
            line: self.line,
            column: self.column,
            offset: self.offset,
        }
    }
}

impl HoverCacheEntryView {
    /// Whether the entry answers a request for `position` in version
    /// `version` of the document `uri`.
    pub open spec fn matches_key(self, uri: Seq<char>, version: Option<i32>, position: Position) -> bool {
        self.uri == uri && self.version == version && self.line == position.line && self.column
            == position.character
    }
}

impl HoverCacheEntry {
    pub fn matches(&self, uri: &str, version: Option<i32>, position: &Position) -> (same: bool)
        ensures
            same == self.deep_view().matches_key(uri@, version, *position),
    {
        let same_version = match (self.version, version) {
            (Some(a), Some(b)) => a == b,
            (None, None) => true,
            _ => false,
        };
        str_eq(self.uri.as_str(), uri) && same_version && self.line == position.line && self.column
            == position.character
    }
}

#[derive(Debug)]
pub struct HoverOffsetCache {
    pub entries: Vec<HoverCacheEntry>,
    pub capacity: usize,
}

/// Whether some entry answers the request.
pub open spec fn has_key(entries: Seq<HoverCacheEntryView>, uri: Seq<char>, version: Option<i32>, position: Position) -> bool {
    exists|i: int| 0 <= i < entries.len() && (#[trigger] entries[i]).matches_key(uri, version, position)
}

/// Whether `i` is the first entry that answers the request.
pub open spec fn is_first_hit(
    entries: Seq<HoverCacheEntryView>,
    uri: Seq<char>,
    version: Option<i32>,
    position: Position,
    i: int,
) -> bool {
    0 <= i < entries.len() && entries[i].matches_key(uri, version, position) && forall|j: int|
        0 <= j < i ==> !(#[trigger] entries[j]).matches_key(uri, version, position)
}

/// The entries after `entry` has been inserted into a cache of the given
/// capacity: a full cache first drops its least recently used entry.
pub open spec fn inserted(entries: Seq<HoverCacheEntryView>, capacity: usize, entry: HoverCacheEntryView) -> Seq<
    HoverCacheEntryView,
> {
    if entries.len() >= capacity {
        entries.drop_first().push(entry)
    } else {
        entries.push(entry)
    }
}

/// The first `n` entries without those of the document `uri`.
pub open spec fn without_uri(entries: Seq<HoverCacheEntryView>, uri: Seq<char>, n: nat) -> Seq<
    HoverCacheEntryView,
>
    decreases n,
{
    if n == 0 || n > entries.len() {
        Seq::empty()
    } else {
        let before = without_uri(entries, uri, (n - 1) as nat);
        if entries[n - 1].uri == uri {
            before
        } else {
            before.push(entries[n - 1])
        }
    }
}

impl HoverOffsetCache {
    /// The cache never holds more entries than its capacity, which is not zero.
    pub open spec fn wf(&self) -> bool {
        0 < self.capacity && self.entries@.len() <= self.capacity
    }

    /// An empty cache. The capacity must not be zero.
    pub fn new(capacity: usize) -> (cache: HoverOffsetCache)
        requires
            capacity > 0,
        ensures
            cache.wf(),
            cache.capacity == capacity,
            cache.entries@.len() == 0,
    {
        HoverOffsetCache { entries: Vec::new(), capacity }
    }

    /// Look a position up. A hit makes its entry the most recently used one.
    pub fn lookup(&mut self, uri: &str, version: Option<i32>, position: &Position) -> (offset: Option<
        usize,
    >)
        requires
            old(self).wf(),
        ensures
            final(self).wf(),
            final(self).capacity == old(self).capacity,
            offset is Some <==> has_key(old(self).entries.deep_view(), uri@, version, *position),
            offset is None ==> final(self).entries.deep_view() == old(self).entries.deep_view(),
            offset matches Some(found) ==> exists|i: int|
                is_first_hit(old(self).entries.deep_view(), uri@, version, *position, i) && found
                    == (#[trigger] old(self).entries.deep_view()[i]).offset
                    && final(self).entries.deep_view() == old(self).entries.deep_view().remove(i).push(
                    old(self).entries.deep_view()[i],
                ),
    {
        let mut i: usize = 0;
        while i < self.entries.len()
            invariant
                i <= self.entries.len(),
                *self == *old(self),
                self.wf(),
                forall|j: int|
                    0 <= j < i ==> !(#[trigger] self.entries.deep_view()[j]).matches_key(
                        uri@,
                        version,
                        *position,
                    ),
            decreases self.entries.len() - i,
        {
            assert(self.entries.deep_view()[i as int] == self.entries@[i as int].deep_view());
            if self.entries[i].matches(uri, version, position) {
                let entry = self.entries.remove(i);
                let offset = entry.offset;
                let ghost removed = self.entries;
                self.entries.push(entry);
                assert(self.entries@.len() == old(self).entries@.len());
                proof {
                    let before = old(self).entries.deep_view();
                    assert(removed.deep_view() =~= before.remove(i as int));
                    assert(self.entries.deep_view() =~= before.remove(i as int).push(before[i as int]));
                    assert(is_first_hit(before, uri@, version, *position, i as int));
                }
                return Some(offset);
            }
            i += 1;
        }
        None
    }

    /// Remember the offset of a position. A full cache drops its least
    /// recently used entry first.
    pub fn insert(&mut self, uri: String, version: Option<i32>, position: Position, offset: usize)
        requires
            old(self).wf(),
        ensures
            final(self).wf(),
            final(self).capacity == old(self).capacity,
            final(self).entries.deep_view() == inserted(
                old(self).entries.deep_view(),
                old(self).capacity,
                HoverCacheEntryView {
                    uri: uri@,
                    version,
                    line: position.line,
                    column: position.character,
                    offset,
                },
            ),
    {
        let ghost before = self.entries.deep_view();
        if self.entries.len() >= self.capacity {
            self.entries.remove(0);
            assert(self.entries.deep_view() =~= before.drop_first());
        }
        let ghost kept = self.entries;
        let entry = HoverCacheEntry {
            uri,
            version,
            line: position.line,
            column: position.character,
            offset,
        };
        self.entries.push(entry);
        assert(self.entries.deep_view() =~= kept.deep_view().push(entry.deep_view()));
    }

    /// Forget every entry of a document; the others keep their order.
    pub fn invalidate_uri(&mut self, uri: &str)
        requires
            old(self).wf(),
        ensures
            final(self).wf(),
            final(self).capacity == old(self).capacity,
            final(self).entries.deep_view() == without_uri(
                old(self).entries.deep_view(),
                uri@,
                old(self).entries.deep_view().len(),
            ),
    {
        let mut kept: Vec<HoverCacheEntry> = Vec::new();
        let ghost before = self.entries.deep_view();
        assert(kept.deep_view() =~= Seq::empty());
        let mut i: usize = 0;
        while i < self.entries.len()
            invariant
                i <= self.entries.len(),
                *self == *old(self),
                self.wf(),
                before == self.entries.deep_view(),
                kept@.len() <= i,
                kept.deep_view() == without_uri(before, uri@, i as nat),
            decreases self.entries.len() - i,
        {
            assert(before[i as int] == self.entries@[i as int].deep_view());
            if !str_eq(self.entries[i].uri.as_str(), uri) {
                let ghost taken = kept;
                let entry = HoverCacheEntry {
                    uri: self.entries[i].uri.clone(),
                    version: self.entries[i].version,
                    line: self.entries[i].line,
                    column: self.entries[i].column,
                    offset: self.entries[i].offset,
                };
                kept.push(entry);
                assert(kept.deep_view() =~= taken.deep_view().push(entry.deep_view()));
            }
            i += 1;
        }
        self.entries = kept;
    }
}

/// Eviction: inserting into a full cache drops the least recently used
/// entry. Where no two entries answer the same request and the new entry
/// answers another one than the dropped entry, no entry answers the dropped
/// entry's request any more, while every other old entry is still there.
pub proof fn lemma_insert_evicts_least_recent(
    entries: Seq<HoverCacheEntryView>,
    capacity: usize,
    entry: HoverCacheEntryView,
)
    requires
        0 < capacity,
        entries.len() == capacity,
        forall|i: int, j: int|
            0 <= i < j < entries.len() ==> !(#[trigger] entries[j]).matches_key(
                (#[trigger] entries[i]).uri,
                entries[i].version,
                Position { line: entries[i].line, character: entries[i].column },
            ),
        !entry.matches_key(
            entries[0].uri,
            entries[0].version,
            Position { line: entries[0].line, character: entries[0].column },
        ),
    ensures
        inserted(entries, capacity, entry).len() == capacity,
        !has_key(
            inserted(entries, capacity, entry),
            entries[0].uri,
            entries[0].version,
            Position { line: entries[0].line, character: entries[0].column },
        ),
        forall|i: int| 1 <= i < entries.len() ==> inserted(entries, capacity, entry).contains(#[trigger] entries[i]),
        inserted(entries, capacity, entry).last() == entry,
{
    let after = inserted(entries, capacity, entry);
    let key = Position { line: entries[0].line, character: entries[0].column };
    assert forall|k: int| 0 <= k < after.len() implies !(#[trigger] after[k]).matches_key(
        entries[0].uri,
        entries[0].version,
        key,
    ) by {
        if k < after.len() - 1 {
            assert(after[k] == entries[k + 1]);
        }
    }
    assert forall|i: int| 1 <= i < entries.len() implies after.contains(#[trigger] entries[i]) by {
        assert(after[i - 1] == entries[i]);
    }
}

/// The cache never grows beyond its capacity.
pub proof fn lemma_insert_keeps_bound(
    entries: Seq<HoverCacheEntryView>,
    capacity: usize,
    entry: HoverCacheEntryView,
)
    requires
        0 < capacity,
        entries.len() <= capacity,
    ensures
        inserted(entries, capacity, entry).len() <= capacity,
{
}

} // verus!
