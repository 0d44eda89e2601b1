//! Local names grouped by the block that encloses them.
use crate::context_spans::{span_contains, span_len};
use crate::semantic_analyze::{LocalBinding, LocalBindingView, Semantic};
use crate::span::Span;
use vstd::prelude::*;

verus! {

/// A name that is bound in a block.
#[derive(Clone, Debug)]
pub struct LocalBindingEntry {
    pub name: String,
}

impl DeepView for LocalBindingEntry {
    type V = Seq<char>;

    open spec fn deep_view(&self) -> Seq<char> {
        self.name@
    }
}

/// A block and the names bound in it, in the order in which they were bound.
#[derive(Clone, Debug)]
pub struct ScopeBindings {
    pub span: Span,
    pub locals: Vec<LocalBindingEntry>,
}

pub struct ScopeBindingsView {
    pub span: Span,
    pub locals: Seq<Seq<char>>,
}

impl DeepView for ScopeBindings {
    type V = ScopeBindingsView;

    open spec fn deep_view(&self) -> ScopeBindingsView {
        ScopeBindingsView { span: self.span, locals: self.locals.deep_view() }
    }
}

/// The blocks of a document that bind names, ordered by where they start and
/// then by where they end.
#[derive(Clone, Debug)]
pub struct ScopeBindingIndex {
    pub scopes: Vec<ScopeBindings>,
}

/// The order of blocks in the index: by start, then by end.
pub open spec fn span_before(a: Span, b: Span) -> bool {
    a.start < b.start || (a.start == b.start && a.end < b.end)
}

fn span_precedes(a: &Span, b: &Span) -> (before: bool)
    ensures
        before == span_before(*a, *b),
{
    a.start < b.start || (a.start == b.start && a.end < b.end)
}

/// The names that the first `n` local bindings bind in `scope`, in order.
pub open spec fn names_in_scope(locals: Seq<LocalBindingView>, scope: Span, n: nat) -> Seq<Seq<char>>
    decreases n,
{
    if n == 0 || n > locals.len() {
        Seq::empty()
    } else {
        let before = names_in_scope(locals, scope, (n - 1) as nat);
        if locals[n - 1].scope == scope {
            before.push(locals[n - 1].name)
        } else {
            before
        }
    }
}

pub open spec fn sorted_spans(keys: Seq<Span>) -> bool {
    forall|i: int, j: int| 0 <= i < j < keys.len() ==> span_before(#[trigger] keys[i], #[trigger] keys[j])
}

/// Whether `scopes` is the index of `locals`: its blocks are exactly the
/// scopes of the locals, each once and in order, and each block holds the
/// names bound in it.
pub open spec fn is_scope_index(locals: Seq<LocalBindingView>, scopes: Seq<ScopeBindingsView>) -> bool {
    &&& forall|i: int, j: int|
        0 <= i < j < scopes.len() ==> span_before((#[trigger] scopes[i]).span, (#[trigger] scopes[j]).span)
    &&& forall|i: int|
        0 <= i < scopes.len() ==> (#[trigger] scopes[i]).locals == names_in_scope(
            locals,
            scopes[i].span,
            locals.len(),
        )
    &&& forall|i: int| 0 <= i < scopes.len() ==> is_scope_of_local(locals, (#[trigger] scopes[i]).span)
    &&& forall|k: int| 0 <= k < locals.len() ==> has_scope(scopes, (#[trigger] locals[k]).scope)
}

/// Whether some local binding is bound in `span`.
pub open spec fn is_scope_of_local(locals: Seq<LocalBindingView>, span: Span) -> bool {
    exists|k: int| 0 <= k < locals.len() && (#[trigger] locals[k]).scope == span
}

/// Whether `span` is one of the blocks.
pub open spec fn has_scope(scopes: Seq<ScopeBindingsView>, span: Span) -> bool {
    exists|i: int| 0 <= i < scopes.len() && (#[trigger] scopes[i]).span == span
}

/// Put `span` at its place in a sorted list of distinct spans, unless it is
/// there already.
fn insert_sorted(keys: &mut Vec<Span>, span: Span)
    requires
        sorted_spans(old(keys)@),
    ensures
        sorted_spans(final(keys)@),
        forall|s: Span| #[trigger] final(keys)@.contains(s) <==> (old(keys)@.contains(s) || s == span),
{
    let mut pos: usize = 0;
    while pos < keys.len() && span_precedes(&keys[pos], &span)
        invariant
            pos <= keys.len(),
            *keys == *old(keys),
            forall|j: int| 0 <= j < pos ==> span_before(#[trigger] keys@[j], span),
        decreases keys.len() - pos,
    {
        pos += 1;
    }
    if pos < keys.len() && keys[pos].start == span.start && keys[pos].end == span.end {
        assert(keys@.contains(span));
        return ;
    }
    let ghost before = keys@;
    keys.insert(pos, span);
    proof {
        assert forall|i: int, j: int| 0 <= i < j < keys@.len() implies span_before(
            #[trigger] keys@[i],
            #[trigger] keys@[j],
        ) by {
            if j < pos {
                assert(keys@[i] == before[i] && keys@[j] == before[j]);
            } else if j == pos {
                assert(keys@[i] == before[i]);
            } else if i < pos {
                assert(keys@[i] == before[i] && keys@[j] == before[j - 1]);
            } else if i == pos {
                assert(keys@[j] == before[j - 1]);
                assert(pos <= j - 1);
                if pos < j - 1 {
                    assert(span_before(before[pos as int], before[j - 1]));
                }
            } else {
                assert(keys@[i] == before[i - 1] && keys@[j] == before[j - 1]);
            }
        }
        assert forall|s: Span| #[trigger] keys@.contains(s) <==> (before.contains(s) || s == span) by {
            if before.contains(s) {
                let k = choose|k: int| 0 <= k < before.len() && before[k] == s;
                if k < pos {
                    assert(keys@[k] == s);
                } else {
                    assert(keys@[k + 1] == s);
                }
            }
            if s == span {
                assert(keys@[pos as int] == s);
            }
            if keys@.contains(s) {
                let k = choose|k: int| 0 <= k < keys@.len() && keys@[k] == s;
                if k < pos {
                    assert(before[k] == s);
                } else if k > pos {
                    assert(before[k - 1] == s);
                }
            }
        }
    }
}

fn collect_names(locals: &Vec<LocalBinding>, scope: Span) -> (names: Vec<LocalBindingEntry>)
    ensures
        names.deep_view() == names_in_scope(locals.deep_view(), scope, locals.deep_view().len()),
{
    let mut names: Vec<LocalBindingEntry> = Vec::new();
    let mut i: usize = 0;
    assert(names.deep_view() =~= Seq::empty());
    while i < locals.len()
        invariant
            i <= locals.len(),
            names.deep_view() == names_in_scope(locals.deep_view(), scope, i as nat),
        decreases locals.len() - i,
    {
        assert(locals.deep_view()[i as int] == locals@[i as int].deep_view());
        if locals[i].scope.start == scope.start && locals[i].scope.end == scope.end {
            let ghost before = names;
            let entry = LocalBindingEntry { name: locals[i].name.clone() };
            names.push(entry);
            assert(names.deep_view() =~= before.deep_view().push(entry.deep_view()));
        }
        i += 1;
    }
    names
}

impl ScopeBindingIndex {
    /// Group the local bindings of a semantic index by their scope. An index
    /// without local bindings has no scope index.
    pub fn from_semantic(semantic: &Semantic) -> (index: Option<ScopeBindingIndex>)
        ensures
            index is None <==> semantic.locals@.len() == 0,
            index matches Some(found) ==> is_scope_index(
                semantic.locals.deep_view(),
                found.scopes.deep_view(),
            ),
    {
        if semantic.locals.len() == 0 {
            return None;
        }
        let ghost locals = semantic.locals.deep_view();
        let mut keys: Vec<Span> = Vec::new();
        let mut i: usize = 0;
        while i < semantic.locals.len()
            invariant
                i <= semantic.locals.len(),
                locals == semantic.locals.deep_view(),
                sorted_spans(keys@),
                forall|k: int| 0 <= k < i ==> keys@.contains((#[trigger] locals[k]).scope),
                forall|s: Span|
                    keys@.contains(s) ==> exists|k: int| 0 <= k < i && (#[trigger] locals[k]).scope == s,
            decreases semantic.locals.len() - i,
        {
            assert(locals[i as int] == semantic.locals@[i as int].deep_view());
            let ghost before = keys@;
            insert_sorted(&mut keys, semantic.locals[i].scope);
            proof {
                assert forall|s: Span| keys@.contains(s) implies exists|k: int|
                    0 <= k < i + 1 && (#[trigger] locals[k]).scope == s by {
                    if before.contains(s) {
                        let k = choose|k: int| 0 <= k < i && (#[trigger] locals[k]).scope == s;
                        assert(locals[k].scope == s);
                    } else {
                        assert(locals[i as int].scope == s);
                    }
                }
            }
            i += 1;
        }
        let mut scopes: Vec<ScopeBindings> = Vec::new();
        let mut j: usize = 0;
        assert(scopes.deep_view() =~= Seq::empty());
        while j < keys.len()
            invariant
                j <= keys.len(),
                locals == semantic.locals.deep_view(),
                scopes@.len() == j,
                forall|k: int| 0 <= k < j ==> (#[trigger] scopes.deep_view()[k]).span == keys@[k],
                forall|k: int|
                    0 <= k < j ==> (#[trigger] scopes.deep_view()[k]).locals == names_in_scope(
                        locals,
                        keys@[k],
                        locals.len(),
                    ),
            decreases keys.len() - j,
        {
            let ghost before = scopes;
            let entry = ScopeBindings { span: keys[j], locals: collect_names(&semantic.locals, keys[j]) };
            scopes.push(entry);
            proof {
                assert(scopes.deep_view() =~= before.deep_view().push(entry.deep_view()));
            }
            j += 1;
        }
        proof {
            let views = scopes.deep_view();
            assert forall|a: int, b: int| 0 <= a < b < views.len() implies span_before(
                (#[trigger] views[a]).span,
                (#[trigger] views[b]).span,
            ) by {
                assert(span_before(keys@[a], keys@[b]));
            }
            assert forall|a: int| 0 <= a < views.len() implies is_scope_of_local(
                locals,
                (#[trigger] views[a]).span,
            ) by {
                assert(keys@.contains(keys@[a]));
                let k = choose|k: int|
                    0 <= k < semantic.locals.len() && (#[trigger] locals[k]).scope == keys@[a];
                assert(locals[k].scope == views[a].span);
            }
            assert forall|k: int| 0 <= k < locals.len() implies has_scope(
                views,
                (#[trigger] locals[k]).scope,
            ) by {
                assert(keys@.contains(locals[k].scope));
                let a = choose|a: int| 0 <= a < keys@.len() && keys@[a] == locals[k].scope;
                assert(views[a].span == locals[k].scope);
            }
            assert forall|a: int| 0 <= a < views.len() implies (#[trigger] views[a]).locals
                == names_in_scope(locals, views[a].span, locals.len()) by {
                assert(views[a].span == keys@[a]);
            }
            assert(is_scope_index(locals, views));
        }
        Some(ScopeBindingIndex { scopes })
    }

    /// Whether block `k` is the answer for `offset`: it contains the offset,
    /// no block that contains the offset is shorter, and it is the first
    /// such block of the index.
    pub open spec fn is_smallest_scope(scopes: Seq<ScopeBindingsView>, offset: usize, k: int) -> bool {
        &&& 0 <= k < scopes.len()
        &&& scopes[k].span.spec_contains(offset)
        &&& forall|j: int|
            0 <= j < scopes.len() && (#[trigger] scopes[j]).span.spec_contains(offset)
                ==> scopes[k].span.spec_len() <= scopes[j].span.spec_len()
        &&& forall|j: int|
            0 <= j < k && (#[trigger] scopes[j]).span.spec_contains(offset) ==> scopes[k].span.spec_len()
                < scopes[j].span.spec_len()
    }

    /// The names bound in the smallest block that contains `offset`.
    pub fn bindings_at(&self, offset: usize) -> (bindings: Option<&Vec<LocalBindingEntry>>)
        ensures
            match bindings {
                Some(found) => names_at(self.scopes.deep_view(), offset) == Some(found.deep_view()),
                None => names_at(self.scopes.deep_view(), offset) is None,
            },
            bindings is None <==> forall|j: int|
                0 <= j < self.scopes@.len() ==> !(#[trigger] self.scopes@[j]).span.spec_contains(offset),
            bindings matches Some(found) ==> exists|k: int|
                Self::is_smallest_scope(self.scopes.deep_view(), offset, k) && *found
                    == #[trigger] self.scopes@[k].locals,
    {
        let mut best: Option<usize> = None;
        let mut i: usize = 0;
        while i < self.scopes.len()
            invariant
                i <= self.scopes.len(),
                best is None ==> forall|j: int|
                    0 <= j < i ==> !(#[trigger] self.scopes@[j]).span.spec_contains(offset),
                best matches Some(k) ==> k < i && self.scopes@[k as int].span.spec_contains(offset)
                    && (forall|j: int|
                    0 <= j < i && (#[trigger] self.scopes@[j]).span.spec_contains(offset)
                        ==> self.scopes@[k as int].span.spec_len() <= self.scopes@[j].span.spec_len())
                    && (forall|j: int|
                    0 <= j < k && (#[trigger] self.scopes@[j]).span.spec_contains(offset)
                        ==> self.scopes@[k as int].span.spec_len() < self.scopes@[j].span.spec_len()),
            decreases self.scopes.len() - i,
        {
            if span_contains(&self.scopes[i].span, offset) {
                let replace = match best {
                    Some(k) => span_len(&self.scopes[i].span) < span_len(&self.scopes[k].span),
                    None => true,
                };
                if replace {
                    best = Some(i);
                }
            }
            i += 1;
        }
        match best {
            Some(k) => {
                proof {
                    let views = self.scopes.deep_view();
                    assert forall|j: int| 0 <= j < views.len() implies (#[trigger] views[j]).span
                        == self.scopes@[j].span by {}
                    assert(Self::is_smallest_scope(views, offset, k as int));
                    lemma_smallest_scope_is(views, offset, k as int);
                    assert(views[k as int] == self.scopes@[k as int].deep_view());
                }
                Some(&self.scopes[k].locals)
            },
            None => {
                proof {
                    let views = self.scopes.deep_view();
                    assert forall|k: int| !Self::is_smallest_scope(views, offset, k) by {
                        if 0 <= k < views.len() {
                            assert(views[k].span == self.scopes@[k].span);
                        }
                    }
                }
                None
            },
        }
    }
}

/// The block of the index that answers for `offset`, if any contains it.
pub open spec fn smallest_scope(scopes: Seq<ScopeBindingsView>, offset: usize) -> Option<int> {
    if exists|k: int| ScopeBindingIndex::is_smallest_scope(scopes, offset, k) {
        Some(choose|k: int| ScopeBindingIndex::is_smallest_scope(scopes, offset, k))
    } else {
        None
    }
}

/// The names bound in the block that answers for `offset`.
pub open spec fn names_at(scopes: Seq<ScopeBindingsView>, offset: usize) -> Option<Seq<Seq<char>>> {
    match smallest_scope(scopes, offset) {
        Some(k) => Some(scopes[k].locals),
        None => None,
    }
}

/// At most one block answers for an offset.
pub proof fn lemma_smallest_scope_is(scopes: Seq<ScopeBindingsView>, offset: usize, k: int)
    requires
        ScopeBindingIndex::is_smallest_scope(scopes, offset, k),
    ensures
        smallest_scope(scopes, offset) == Some(k),
{
    let c = choose|c: int| ScopeBindingIndex::is_smallest_scope(scopes, offset, c);
    if c < k {
        assert(scopes[c].span.spec_contains(offset));
    } else if k < c {
        assert(scopes[k].span.spec_contains(offset));
    }
}

} // verus!
