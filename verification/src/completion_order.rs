//! The order and uniqueness of completion candidates.
//!
//! Candidates are ordered by label, labels by the code points of their
//! characters. Two candidates with the same label and the same detail count
//! as one.
use crate::completion_items::{CompletionItem, CompletionItemView};
use crate::text::{chars_of, str_eq};
use vstd::prelude::*;

verus! {

/// Whether `a` comes before `b`, looking from index `i` on, where the two
/// agree before `i`.
pub open spec fn text_lt_from(a: Seq<char>, b: Seq<char>, i: int) -> bool
    decreases b.len() - i,
{
    if i < 0 || i >= b.len() {
        false
    } else if i >= a.len() {
        true
    } else if a[i] < b[i] {
        true
    } else if a[i] > b[i] {
        false
    } else {
        text_lt_from(a, b, i + 1)
    }
}

/// Whether `a` comes before `b` in lexicographic order.
pub open spec fn text_lt(a: Seq<char>, b: Seq<char>) -> bool {
    text_lt_from(a, b, 0)
}

/// No text comes before itself.
pub proof fn lemma_text_lt_irreflexive(a: Seq<char>, i: int)
    ensures
        !text_lt_from(a, a, i),
    decreases a.len() - i,
{
    if 0 <= i < a.len() {
        lemma_text_lt_irreflexive(a, i + 1);
    }
}

/// The order of texts is transitive.
pub proof fn lemma_text_lt_transitive(a: Seq<char>, b: Seq<char>, c: Seq<char>, i: int)
    requires
        text_lt_from(a, b, i),
        text_lt_from(b, c, i),
    ensures
        text_lt_from(a, c, i),
    decreases c.len() - i,
{
    if i < a.len() && a[i] == b[i] && b[i] == c[i] {
        lemma_text_lt_transitive(a, b, c, i + 1);
    }
}

/// Of two different texts one comes before the other.
pub proof fn lemma_text_lt_total(a: Seq<char>, b: Seq<char>, i: int)
    requires
        0 <= i <= a.len(),
        i <= b.len(),
        !text_lt_from(a, b, i),
        !text_lt_from(b, a, i),
    ensures
        a.len() == b.len(),
        forall|k: int| i <= k < a.len() ==> a[k] == b[k],
    decreases a.len() - i,
{
    if i < a.len() && i < b.len() {
        lemma_text_lt_total(a, b, i + 1);
    }
}

/// What comes before a text that does not come after `c` comes before `c`.
pub proof fn lemma_text_lt_le(a: Seq<char>, b: Seq<char>, c: Seq<char>)
    requires
        text_lt(a, b),
        !text_lt(c, b),
    ensures
        text_lt(a, c),
{
    if text_lt(b, c) {
        lemma_text_lt_transitive(a, b, c, 0);
    } else {
        lemma_text_lt_total(b, c, 0);
        assert(b =~= c);
    }
}

pub fn chars_lt(a: &Vec<char>, b: &Vec<char>) -> (less: bool)
    ensures
        less == text_lt(a@, b@),
{
    let mut i: usize = 0;
    while i < b.len()
        invariant
            i <= b.len(),
            text_lt_from(a@, b@, i as int) == text_lt(a@, b@),
        decreases b.len() - i,
    {
        if i >= a.len() {
            return true;
        }
        if a[i] < b[i] {
            return true;
        }
        if a[i] > b[i] {
            return false;
        }
        i += 1;
    }
    false
}

pub fn str_lt(a: &str, b: &str) -> (less: bool)
    ensures
        less == text_lt(a@, b@),
{
    let x = chars_of(a);
    let y = chars_of(b);
    chars_lt(&x, &y)
}

/// Whether some candidate has the label and the detail of `item`.
pub open spec fn has_key(items: Seq<CompletionItemView>, item: CompletionItemView) -> bool {
    exists|k: int|
        0 <= k < items.len() && (#[trigger] items[k]).label == item.label && items[k].detail
            == item.detail
}

/// `items` with `item` at its end, unless a candidate with its label and
/// detail is there already.
pub open spec fn push_unique(items: Seq<CompletionItemView>, item: CompletionItemView) -> Seq<
    CompletionItemView,
> {
    if has_key(items, item) {
        items
    } else {
        items.push(item)
    }
}

/// `items` with the first `n` of `more` pushed in order, each unless it is
/// there already.
pub open spec fn push_unique_upto(items: Seq<CompletionItemView>, more: Seq<CompletionItemView>, n: nat) -> Seq<
    CompletionItemView,
>
    decreases n,
{
    if n == 0 || n > more.len() {
        items
    } else {
        push_unique(push_unique_upto(items, more, (n - 1) as nat), more[n - 1])
    }
}

pub open spec fn push_unique_all(items: Seq<CompletionItemView>, more: Seq<CompletionItemView>) -> Seq<
    CompletionItemView,
> {
    push_unique_upto(items, more, more.len())
}

fn same_text(a: &Option<String>, b: &Option<String>) -> (same: bool)
    ensures
        same == (a.deep_view() == b.deep_view()),
{
    match (a, b) {
        (Some(x), Some(y)) => str_eq(x.as_str(), y.as_str()),
        (None, None) => true,
        _ => false,
    }
}

pub fn push_if_unique(items: &mut Vec<CompletionItem>, item: CompletionItem)
    ensures
        final(items).deep_view() == push_unique(old(items).deep_view(), item.deep_view()),
{
    let mut k: usize = 0;
    while k < items.len()
        invariant
            k <= items.len(),
            *items == *old(items),
            forall|j: int|
                0 <= j < k ==> !((#[trigger] items.deep_view()[j]).label == item.deep_view().label
                    && items.deep_view()[j].detail == item.deep_view().detail),
        decreases items.len() - k,
    {
        assert(items.deep_view()[k as int] == items@[k as int].deep_view());
        if str_eq(items[k].label.as_str(), item.label.as_str()) && same_text(
            &items[k].detail,
            &item.detail,
        ) {
            assert(has_key(items.deep_view(), item.deep_view()));
            return ;
        }
        k += 1;
    }
    items.push(item);
    assert(items.deep_view() =~= old(items).deep_view().push(item.deep_view()));
}

pub fn push_all_unique(items: &mut Vec<CompletionItem>, more: &Vec<CompletionItem>)
    ensures
        final(items).deep_view() == push_unique_all(old(items).deep_view(), more.deep_view()),
{
    let mut i: usize = 0;
    while i < more.len()
        invariant
            i <= more.len(),
            items.deep_view() == push_unique_upto(old(items).deep_view(), more.deep_view(), i as nat),
        decreases more.len() - i,
    {
        assert(more.deep_view()[i as int] == more@[i as int].deep_view());
        push_if_unique(items, more[i].clone_item());
        i += 1;
    }
}

/// The place of a new candidate with the given label among candidates in
/// label order: behind every candidate whose label does not come after it.
pub open spec fn upper_position(sorted: Seq<CompletionItemView>, label: Seq<char>, i: int) -> int
    decreases sorted.len() - i,
{
    if i < 0 || i >= sorted.len() || text_lt(label, sorted[i].label) {
        i
    } else {
        upper_position(sorted, label, i + 1)
    }
}

/// `sorted` with `item` put at its place.
pub open spec fn sorted_insert(sorted: Seq<CompletionItemView>, item: CompletionItemView) -> Seq<
    CompletionItemView,
> {
    sorted.insert(upper_position(sorted, item.label, 0), item)
}

/// The first `n` candidates in label order; candidates with the same label
/// keep the order they came in.
pub open spec fn sorted_upto(pending: Seq<CompletionItemView>, n: nat) -> Seq<CompletionItemView>
    decreases n,
{
    if n == 0 || n > pending.len() {
        Seq::empty()
    } else {
        sorted_insert(sorted_upto(pending, (n - 1) as nat), pending[n - 1])
    }
}

/// The candidates in label order.
pub open spec fn sorted_by_label(pending: Seq<CompletionItemView>) -> Seq<CompletionItemView> {
    sorted_upto(pending, pending.len())
}

proof fn lemma_upper_position_bounds(sorted: Seq<CompletionItemView>, label: Seq<char>, i: int)
    requires
        0 <= i <= sorted.len(),
    ensures
        i <= upper_position(sorted, label, i) <= sorted.len(),
    decreases sorted.len() - i,
{
    if i < sorted.len() && !text_lt(label, sorted[i].label) {
        lemma_upper_position_bounds(sorted, label, i + 1);
    }
}

/// Whether no candidate stands before one whose label comes before its own.
pub open spec fn is_label_ordered(items: Seq<CompletionItemView>) -> bool {
    forall|i: int, j: int|
        0 <= i < j < items.len() ==> !text_lt((#[trigger] items[j]).label, (#[trigger] items[i]).label)
}

/// The candidates before the place of a new one do not come after it; in an
/// ordered sequence the candidates from that place on do.
pub proof fn lemma_upper_position_splits(sorted: Seq<CompletionItemView>, label: Seq<char>, i: int)
    requires
        0 <= i <= sorted.len(),
        is_label_ordered(sorted),
    ensures
        forall|k: int|
            i <= k < upper_position(sorted, label, i) ==> !text_lt(label, (#[trigger] sorted[k]).label),
        forall|k: int|
            upper_position(sorted, label, i) <= k < sorted.len() ==> text_lt(
                label,
                (#[trigger] sorted[k]).label,
            ),
    decreases sorted.len() - i,
{
    lemma_upper_position_bounds(sorted, label, i);
    if i < sorted.len() {
        if text_lt(label, sorted[i].label) {
            assert forall|k: int| i <= k < sorted.len() implies text_lt(
                label,
                (#[trigger] sorted[k]).label,
            ) by {
                if k > i {
                    lemma_text_lt_le(label, sorted[i].label, sorted[k].label);
                }
            }
        } else {
            lemma_upper_position_splits(sorted, label, i + 1);
        }
    }
}

/// Putting a candidate at its place keeps an ordered sequence ordered.
pub proof fn lemma_sorted_insert_ordered(sorted: Seq<CompletionItemView>, item: CompletionItemView)
    requires
        is_label_ordered(sorted),
    ensures
        is_label_ordered(sorted_insert(sorted, item)),
{
    let p = upper_position(sorted, item.label, 0);
    lemma_upper_position_bounds(sorted, item.label, 0);
    lemma_upper_position_splits(sorted, item.label, 0);
    let after = sorted_insert(sorted, item);
    assert forall|i: int, j: int| 0 <= i < j < after.len() implies !text_lt(
        (#[trigger] after[j]).label,
        (#[trigger] after[i]).label,
    ) by {
        if j == p {
            assert(after[i] == sorted[i]);
        } else if i == p {
            assert(after[j] == sorted[j - 1]);
            lemma_text_lt_irreflexive(item.label, 0);
            if text_lt(after[j].label, item.label) {
                lemma_text_lt_transitive(item.label, after[j].label, item.label, 0);
            }
        } else {
            let x = if i < p { i } else { i - 1 };
            let y = if j < p { j } else { j - 1 };
            assert(after[i] == sorted[x]);
            assert(after[j] == sorted[y]);
        }
    }
}

/// Law of the order: the sorted candidates stand in label order.
pub proof fn lemma_sorted_is_ordered(pending: Seq<CompletionItemView>, n: nat)
    requires
        n <= pending.len(),
    ensures
        is_label_ordered(sorted_upto(pending, n)),
    decreases n,
{
    if n > 0 {
        lemma_sorted_is_ordered(pending, (n - 1) as nat);
        lemma_sorted_insert_ordered(sorted_upto(pending, (n - 1) as nat), pending[n - 1]);
    }
}

/// Law of the content: sorting neither adds nor drops a candidate.
pub proof fn lemma_sorted_is_permutation(pending: Seq<CompletionItemView>, n: nat)
    requires
        n <= pending.len(),
    ensures
        sorted_upto(pending, n).to_multiset() == pending.take(n as int).to_multiset(),
    decreases n,
{
    if n == 0 {
        assert(pending.take(0) =~= Seq::<CompletionItemView>::empty());
    } else {
        let before = sorted_upto(pending, (n - 1) as nat);
        let item = pending[n - 1];
        lemma_sorted_is_permutation(pending, (n - 1) as nat);
        lemma_upper_position_bounds(before, item.label, 0);
        vstd::seq_lib::to_multiset_insert(before, upper_position(before, item.label, 0), item);
        assert(pending.take(n as int) =~= pending.take(n - 1).push(item));
        pending.take(n - 1).to_multiset_ensures();
    }
}

/// The test for a candidate with a given label.
pub open spec fn label_is(label: Seq<char>) -> spec_fn(CompletionItemView) -> bool {
    |item: CompletionItemView| item.label == label
}

/// The candidates with a given label, in the order in which they stand.
pub open spec fn with_label(items: Seq<CompletionItemView>, label: Seq<char>) -> Seq<CompletionItemView> {
    items.filter(label_is(label))
}

/// Where no candidate has the label, none is picked.
pub proof fn lemma_with_label_none(items: Seq<CompletionItemView>, label: Seq<char>)
    requires
        forall|k: int| 0 <= k < items.len() ==> (#[trigger] items[k]).label != label,
    ensures
        with_label(items, label) == Seq::<CompletionItemView>::empty(),
    decreases items.len(),
{
    reveal(Seq::filter);
    if items.len() > 0 {
        assert forall|k: int| 0 <= k < items.drop_last().len() implies (#[trigger] items.drop_last()[k]).label
            != label by {
            assert(items.drop_last()[k] == items[k]);
        }
        lemma_with_label_none(items.drop_last(), label);
    }
}

/// A candidate put at its place stands behind those that have its label.
pub proof fn lemma_sorted_insert_stable(
    sorted: Seq<CompletionItemView>,
    item: CompletionItemView,
    label: Seq<char>,
)
    requires
        is_label_ordered(sorted),
    ensures
        with_label(sorted_insert(sorted, item), label) == if item.label == label {
            with_label(sorted, label).push(item)
        } else {
            with_label(sorted, label)
        },
{
    let p = upper_position(sorted, item.label, 0);
    lemma_upper_position_bounds(sorted, item.label, 0);
    lemma_upper_position_splits(sorted, item.label, 0);
    let pred = label_is(label);
    let head = sorted.take(p);
    let tail = sorted.skip(p);
    let one = seq![item];
    assert(sorted =~= head + tail);
    assert(sorted_insert(sorted, item) =~= (head + one) + tail);
    Seq::filter_distributes_over_add(head, tail, pred);
    Seq::filter_distributes_over_add(head, one, pred);
    Seq::filter_distributes_over_add(head + one, tail, pred);
    assert(one.filter(pred) =~= if item.label == label {
        one
    } else {
        Seq::empty()
    }) by {
        reveal_with_fuel(Seq::filter, 2);
        assert(one.drop_last() =~= Seq::<CompletionItemView>::empty());
    }
    if item.label == label {
        assert forall|k: int| 0 <= k < tail.len() implies (#[trigger] tail[k]).label != label by {
            assert(tail[k] == sorted[p + k]);
            lemma_text_lt_irreflexive(label, 0);
        }
        lemma_with_label_none(tail, label);
        assert(head.filter(pred) + one + Seq::<CompletionItemView>::empty() =~= (head.filter(pred)
            + Seq::<CompletionItemView>::empty()).push(item));
    } else {
        assert(head.filter(pred) + Seq::<CompletionItemView>::empty() + tail.filter(pred)
            =~= head.filter(pred) + tail.filter(pred));
    }
}

/// Law of the ties: candidates with the same label keep the order in which
/// they came.
pub proof fn lemma_sorted_is_stable(pending: Seq<CompletionItemView>, n: nat, label: Seq<char>)
    requires
        n <= pending.len(),
    ensures
        with_label(sorted_upto(pending, n), label) == with_label(pending.take(n as int), label),
    decreases n,
{
    reveal(Seq::filter);
    if n == 0 {
        assert(pending.take(0) =~= Seq::<CompletionItemView>::empty());
    } else {
        lemma_sorted_is_stable(pending, (n - 1) as nat, label);
        lemma_sorted_is_ordered(pending, (n - 1) as nat);
        lemma_sorted_insert_stable(sorted_upto(pending, (n - 1) as nat), pending[n - 1], label);
        assert(pending.take(n as int).drop_last() =~= pending.take(n - 1));
    }
}

/// The law of sorting: the result stands in label order, holds the
/// candidates given and no others, and keeps candidates with the same label
/// in the order in which they came.
pub proof fn lemma_sorted_by_label(pending: Seq<CompletionItemView>)
    ensures
        is_label_ordered(sorted_by_label(pending)),
        sorted_by_label(pending).to_multiset() == pending.to_multiset(),
        sorted_by_label(pending).len() == pending.len(),
        forall|label: Seq<char>| #[trigger]
            with_label(sorted_by_label(pending), label) == with_label(pending, label),
{
    lemma_sorted_is_ordered(pending, pending.len());
    lemma_sorted_is_permutation(pending, pending.len());
    assert(pending.take(pending.len() as int) =~= pending);
    sorted_by_label(pending).to_multiset_ensures();
    pending.to_multiset_ensures();
    assert forall|label: Seq<char>| #[trigger]
        with_label(sorted_by_label(pending), label) == with_label(pending, label) by {
        lemma_sorted_is_stable(pending, pending.len(), label);
    }
}

pub fn sort_by_label(pending: &Vec<CompletionItem>) -> (sorted: Vec<CompletionItem>)
    ensures
        sorted.deep_view() == sorted_by_label(pending.deep_view()),
        is_label_ordered(sorted.deep_view()),
        sorted.deep_view().to_multiset() == pending.deep_view().to_multiset(),
{
    proof {
        lemma_sorted_by_label(pending.deep_view());
    }
    let mut sorted: Vec<CompletionItem> = Vec::new();
    assert(sorted.deep_view() =~= Seq::empty());
    let mut i: usize = 0;
    while i < pending.len()
        invariant
            i <= pending.len(),
            sorted.deep_view() == sorted_upto(pending.deep_view(), i as nat),
        decreases pending.len() - i,
    {
        assert(pending.deep_view()[i as int] == pending@[i as int].deep_view());
        let item = pending[i].clone_item();
        let label = chars_of(item.label.as_str());
        let mut p: usize = 0;
        let mut placed = false;
        while p < sorted.len() && !placed
            invariant
                p <= sorted.len(),
                label@ == item.deep_view().label,
                upper_position(sorted.deep_view(), label@, p as int) == upper_position(
                    sorted.deep_view(),
                    label@,
                    0,
                ),
                placed ==> p < sorted.len() && text_lt(label@, sorted.deep_view()[p as int].label),
            decreases sorted.len() - p, if placed { 0int } else { 1int },
        {
            assert(sorted.deep_view()[p as int] == sorted@[p as int].deep_view());
            let other = chars_of(sorted[p].label.as_str());
            if chars_lt(&label, &other) {
                placed = true;
            } else {
                p += 1;
            }
        }
        assert(upper_position(sorted.deep_view(), label@, 0) == p);
        let ghost before = sorted;
        sorted.insert(p, item);
        assert(sorted.deep_view() =~= before.deep_view().insert(p as int, item.deep_view()));
        i += 1;
    }
    sorted
}

/// `items` followed by the pending candidates in label order, without those
/// that are there already.
pub open spec fn appended_sorted(items: Seq<CompletionItemView>, pending: Seq<CompletionItemView>) -> Seq<
    CompletionItemView,
> {
    push_unique_all(items, sorted_by_label(pending))
}

pub fn append_sorted_items(items: &mut Vec<CompletionItem>, pending: Vec<CompletionItem>)
    ensures
        final(items).deep_view() == appended_sorted(old(items).deep_view(), pending.deep_view()),
{
    if pending.len() == 0 {
        assert(pending.deep_view().len() == 0);
        return ;
    }
    let sorted = sort_by_label(&pending);
    push_all_unique(items, &sorted);
}

} // verus!
