//! Completion candidates drawn from the document.
use crate::completion_items::{
    build_completion_item, detail_of, detail_with_parent, extend_items, identifier_text, label_text_of,
    plain_item, snippet_item, CompletionItem, CompletionItemKind, CompletionItemView, InsertTextFormat,
};
use crate::completion_cache::semantic_opt;
use crate::completion_items::{
    static_completion_items, static_items, top_level_completion_items, top_level_items,
};
use crate::completion_order::{
    append_sorted_items, appended_sorted, lemma_text_lt_irreflexive, lemma_text_lt_total,
    lemma_text_lt_transitive, push_all_unique, push_unique_all, str_lt, text_lt,
};
use crate::context_spans::CompletionContext;
use crate::config::ServiceSnippetStyle;
use crate::context_spans::span_contains;
use crate::cursor_context::{inside_service_block, inside_service_block_chars, CursorContext, CursorContextView};
use crate::hover::import_text;
use crate::markdown::{snippet_with_docs_markdown, MarkdownWriterView};
use crate::navigation::{find_import, import_of};
use crate::rope::{rope_slice, rope_text};
use crate::scope_index::{names_at, ScopeBindingIndex, ScopeBindingsView};
use crate::semantic_analyze::{
    ActorMetadataView, FieldMetadata, FieldMetadataView, MethodMetadata, MethodMetadataView,
    ParamMetadata, ParamRole, Semantic, SemanticView,
};
use crate::service_snippets::{
    joined_upto, method_signature_detail, service_snippet_for, signature_detail, snippet_for,
};
use crate::symbol_table::{ImportEntry, ImportEntryView, ImportKind, SymbolId};
use crate::tasks::{DocumentTaskKind, DocumentTaskState, DocumentTaskToken};
use crate::text::{push_str_chars, str_eq, string_of};
use crate::type_docs::{TypeDoc, TypeDocView};
use ropey::Rope;
use vstd::prelude::*;

verus! {

/// The candidate for a local name.
pub open spec fn local_item(name: Seq<char>) -> CompletionItemView {
    plain_item(name, CompletionItemKind::Variable, Some("local binding"@), None)
}

/// The candidates for the names bound in the smallest block around `offset`.
pub open spec fn scoped_items(scopes: Option<Seq<ScopeBindingsView>>, offset: usize) -> Seq<
    CompletionItemView,
> {
    match scopes {
        Some(scopes) => match names_at(scopes, offset) {
            Some(names) => Seq::new(names.len(), |i: int| local_item(names[i])),
            None => Seq::empty(),
        },
        None => Seq::empty(),
    }
}

pub open spec fn scopes_view(scope_index: Option<&ScopeBindingIndex>) -> Option<Seq<ScopeBindingsView>> {
    match scope_index {
        Some(index) => Some(index.scopes.deep_view()),
        None => None,
    }
}

pub fn scoped_local_items(scope_index: Option<&ScopeBindingIndex>, offset: usize) -> (items: Vec<
    CompletionItem,
>)
    ensures
        items.deep_view() == scoped_items(scopes_view(scope_index), offset),
{
    let mut items: Vec<CompletionItem> = Vec::new();
    let index = match scope_index {
        Some(index) => index,
        None => {
            assert(items.deep_view() =~= Seq::empty());
            return items;
        },
    };
    let bindings = match index.bindings_at(offset) {
        Some(bindings) => bindings,
        None => {
            assert(items.deep_view() =~= Seq::empty());
            return items;
        },
    };
    let mut i: usize = 0;
    while i < bindings.len()
        invariant
            i <= bindings.len(),
            items@.len() == i,
            forall|k: int|
                0 <= k < i ==> (#[trigger] items@[k]).deep_view() == local_item(bindings@[k].name@),
        decreases bindings.len() - i,
    {
        items.push(
            build_completion_item(
                bindings[i].name.as_str(),
                CompletionItemKind::Variable,
                Some("local binding"),
                None,
            ),
        );
        i += 1;
    }
    proof {
        let names = bindings.deep_view();
        assert forall|k: int| 0 <= k < names.len() implies names[k] == bindings@[k].name@ by {}
        assert(items.deep_view() =~= Seq::new(names.len(), |i: int| local_item(names[i])));
    }
    items
}

/// The candidate that names a service method, where its name is found in the text.
pub open spec fn method_label_item(method: MethodMetadataView, text: Seq<char>) -> Option<
    CompletionItemView,
> {
    match method.name_span {
        Some(span) => match label_text_of(text, span) {
            Some(label) => Some(
                plain_item(
                    label,
                    CompletionItemKind::Method,
                    Some(detail_of("service method"@, method.parent_name)),
                    method.docs,
                ),
            ),
            None => None,
        },
        None => None,
    }
}

pub open spec fn push_opt(items: Seq<CompletionItemView>, item: Option<CompletionItemView>) -> Seq<
    CompletionItemView,
> {
    match item {
        Some(item) => items.push(item),
        None => items,
    }
}

/// The name candidates of the first `n` service methods.
pub open spec fn method_labels_upto(sem: SemanticView, text: Seq<char>, n: nat) -> Seq<CompletionItemView>
    decreases n,
{
    if n == 0 || n > sem.service_methods.len() {
        Seq::empty()
    } else {
        push_opt(
            method_labels_upto(sem, text, (n - 1) as nat),
            method_label_item(sem.service_methods[n - 1], text),
        )
    }
}

pub open spec fn method_labels(sem: SemanticView, text: Seq<char>) -> Seq<CompletionItemView> {
    method_labels_upto(sem, text, sem.service_methods.len())
}

fn as_str_opt(text: &Option<String>) -> (slice: Option<&str>)
    ensures
        crate::completion_items::str_opt(slice) == text.deep_view(),
{
    match text {
        Some(text) => Some(text.as_str()),
        None => None,
    }
}

fn push_item_opt(items: &mut Vec<CompletionItem>, item: Option<CompletionItem>)
    ensures
        final(items).deep_view() == push_opt(old(items).deep_view(), item.deep_view()),
{
    match item {
        Some(item) => {
            items.push(item);
            assert(items.deep_view() =~= old(items).deep_view().push(item.deep_view()));
        },
        None => {},
    }
}

fn method_label(method: &MethodMetadata, rope: &Rope) -> (item: Option<CompletionItem>)
    ensures
        item.deep_view() == method_label_item(method.deep_view(), rope_text(*rope)),
{
    match &method.name_span {
        Some(span) => match identifier_text(rope, span) {
            Some(label) => {
                let detail = detail_with_parent("service method", method.parent_name.as_ref());
                Some(
                    build_completion_item(
                        label.as_str(),
                        CompletionItemKind::Method,
                        as_str_opt(&detail),
                        as_str_opt(&method.docs),
                    ),
                )
            },
            None => None,
        },
        None => None,
    }
}

pub fn service_method_labels(semantic: &Semantic, rope: &Rope) -> (items: Vec<CompletionItem>)
    ensures
        items.deep_view() == method_labels(semantic.deep_view(), rope_text(*rope)),
{
    let mut items: Vec<CompletionItem> = Vec::new();
    assert(items.deep_view() =~= Seq::empty());
    let mut i: usize = 0;
    while i < semantic.service_methods.len()
        invariant
            i <= semantic.service_methods.len(),
            items.deep_view() == method_labels_upto(semantic.deep_view(), rope_text(*rope), i as nat),
        decreases semantic.service_methods.len() - i,
    {
        assert(semantic.deep_view().service_methods[i as int] == semantic.service_methods@[i as int].deep_view());
        push_item_opt(&mut items, method_label(&semantic.service_methods[i], rope));
        i += 1;
    }
    items
}

/// The candidate that inserts a call of a service method.
pub open spec fn method_snippet_item(method: MethodMetadataView, text: Seq<char>, style: ServiceSnippetStyle) -> Option<
    CompletionItemView,
> {
    match method.name_span {
        Some(span) => match label_text_of(text, span) {
            Some(label) => Some(
                snippet_item(
                    plain_item(
                        label,
                        CompletionItemKind::Snippet,
                        Some(signature_detail(label, method.signature)),
                        MarkdownWriterView::empty().push_snippet_with_docs(
                            snippet_for(label, method.signature, style),
                            method.docs,
                        ).finish(),
                    ),
                    snippet_for(label, method.signature, style),
                ),
            ),
            None => None,
        },
        None => None,
    }
}

/// The call snippets of the first `n` service methods. Outside a service
/// block only the methods whose span contains the offset have one.
pub open spec fn method_snippets_upto(
    sem: SemanticView,
    text: Seq<char>,
    offset: usize,
    style: ServiceSnippetStyle,
    inside_block: bool,
    n: nat,
) -> Seq<CompletionItemView>
    decreases n,
{
    if n == 0 || n > sem.service_methods.len() {
        Seq::empty()
    } else {
        let before = method_snippets_upto(sem, text, offset, style, inside_block, (n - 1) as nat);
        let method = sem.service_methods[n - 1];
        if !inside_block && !method.span.spec_contains(offset) {
            before
        } else {
            push_opt(before, method_snippet_item(method, text, style))
        }
    }
}

/// Whether the position counts as inside a service block: as the cursor
/// context says, or else as the text before the offset says.
pub open spec fn inside_block_at(text: Seq<char>, offset: usize, cursor: Option<CursorContextView>) -> bool {
    match cursor {
        Some(cursor) => cursor.inside_service_block,
        None => if offset == 0 || offset > text.len() {
            false
        } else {
            inside_service_block(text.subrange(0, offset as int))
        },
    }
}

pub open spec fn cursor_opt(cursor_context: Option<&CursorContext>) -> Option<CursorContextView> {
    match cursor_context {
        Some(context) => Some(context@),
        None => None,
    }
}

pub open spec fn method_snippets(
    sem: SemanticView,
    text: Seq<char>,
    offset: usize,
    style: ServiceSnippetStyle,
    cursor: Option<CursorContextView>,
) -> Seq<CompletionItemView> {
    method_snippets_upto(
        sem,
        text,
        offset,
        style,
        inside_block_at(text, offset, cursor),
        sem.service_methods.len(),
    )
}

fn inside_service_block_at(rope: &Rope, offset: usize) -> (inside: bool)
    ensures
        inside == inside_block_at(rope_text(*rope), offset, None),
{
    if offset == 0 {
        return false;
    }
    match rope_slice(rope, 0, offset) {
        Some(chars) => inside_service_block_chars(&chars),
        None => false,
    }
}

fn method_snippet(method: &MethodMetadata, rope: &Rope, style: ServiceSnippetStyle) -> (item: Option<
    CompletionItem,
>)
    ensures
        item.deep_view() == method_snippet_item(method.deep_view(), rope_text(*rope), style),
{
    match &method.name_span {
        Some(span) => match identifier_text(rope, span) {
            Some(label) => {
                let snippet = service_snippet_for(label.as_str(), method.signature.as_ref(), style);
                let docs = snippet_with_docs_markdown(snippet.as_str(), as_str_opt(&method.docs));
                let detail = method_signature_detail(label.as_str(), method.signature.as_ref());
                let mut item = build_completion_item(
                    label.as_str(),
                    CompletionItemKind::Snippet,
                    Some(detail.as_str()),
                    as_str_opt(&docs),
                );
                item.insert_text = Some(snippet);
                item.insert_text_format = Some(InsertTextFormat::Snippet);
                Some(item)
            },
            None => None,
        },
        None => None,
    }
}

pub fn service_method_snippets(
    semantic: &Semantic,
    rope: &Rope,
    offset: usize,
    style: ServiceSnippetStyle,
    cursor_context: Option<&CursorContext>,
) -> (items: Vec<CompletionItem>)
    ensures
        items.deep_view() == method_snippets(
            semantic.deep_view(),
            rope_text(*rope),
            offset,
            style,
            cursor_opt(cursor_context),
        ),
{
    let inside_block = match cursor_context {
        Some(context) => context.inside_service_block(),
        None => inside_service_block_at(rope, offset),
    };
    let mut items: Vec<CompletionItem> = Vec::new();
    assert(items.deep_view() =~= Seq::empty());
    let mut i: usize = 0;
    while i < semantic.service_methods.len()
        invariant
            i <= semantic.service_methods.len(),
            items.deep_view() == method_snippets_upto(
                semantic.deep_view(),
                rope_text(*rope),
                offset,
                style,
                inside_block,
                i as nat,
            ),
        decreases semantic.service_methods.len() - i,
    {
        assert(semantic.deep_view().service_methods[i as int] == semantic.service_methods@[i as int].deep_view());
        let method = &semantic.service_methods[i];
        if inside_block || span_contains(&method.span, offset) {
            push_item_opt(&mut items, method_snippet(method, rope, style));
        }
        i += 1;
    }
    items
}

/// What a parameter is called in its candidate.
pub open spec fn param_detail_text(role: ParamRole) -> Seq<char> {
    match role {
        ParamRole::Argument => "function argument"@,
        ParamRole::Result => "function result"@,
    }
}

pub fn param_detail(role: ParamRole) -> (detail: &'static str)
    ensures
        detail@ == param_detail_text(role),
{
    match role {
        ParamRole::Argument => "function argument",
        ParamRole::Result => "function result",
    }
}

/// The candidate for a named parameter.
pub open spec fn param_item(param: ParamMetadata, text: Seq<char>) -> Option<CompletionItemView> {
    match param.name_span {
        Some(span) => match label_text_of(text, span) {
            Some(label) => Some(
                plain_item(
                    label,
                    CompletionItemKind::Variable,
                    Some(param_detail_text(param.role)),
                    None,
                ),
            ),
            None => None,
        },
        None => None,
    }
}

pub open spec fn param_items_upto(sem: SemanticView, text: Seq<char>, n: nat) -> Seq<CompletionItemView>
    decreases n,
{
    if n == 0 || n > sem.params.len() {
        Seq::empty()
    } else {
        push_opt(param_items_upto(sem, text, (n - 1) as nat), param_item(sem.params[n - 1], text))
    }
}

fn param_completion_items(semantic: &Semantic, rope: &Rope) -> (items: Vec<CompletionItem>)
    ensures
        items.deep_view() == param_items_upto(
            semantic.deep_view(),
            rope_text(*rope),
            semantic.deep_view().params.len(),
        ),
{
    let mut items: Vec<CompletionItem> = Vec::new();
    assert(items.deep_view() =~= Seq::empty());
    let mut i: usize = 0;
    while i < semantic.params.len()
        invariant
            i <= semantic.params.len(),
            items.deep_view() == param_items_upto(semantic.deep_view(), rope_text(*rope), i as nat),
        decreases semantic.params.len() - i,
    {
        let item = match &semantic.params[i].name_span {
            Some(span) => match identifier_text(rope, span) {
                Some(label) => Some(
                    build_completion_item(
                        label.as_str(),
                        CompletionItemKind::Variable,
                        Some(param_detail(semantic.params[i].role)),
                        None,
                    ),
                ),
                None => None,
            },
            None => None,
        };
        push_item_opt(&mut items, item);
        i += 1;
    }
    items
}

/// The candidate for the name of the top-level service.
pub open spec fn actor_item(actor: Option<ActorMetadataView>, text: Seq<char>) -> Option<
    CompletionItemView,
> {
    match actor {
        Some(actor) => match actor.name_span {
            Some(span) => match label_text_of(text, span) {
                Some(label) => Some(
                    plain_item(label, CompletionItemKind::Interface, Some("actor"@), actor.docs),
                ),
                None => None,
            },
            None => None,
        },
        None => None,
    }
}

fn actor_completion_item(semantic: &Semantic, rope: &Rope) -> (item: Option<CompletionItem>)
    ensures
        item.deep_view() == actor_item(semantic.deep_view().actor, rope_text(*rope)),
{
    match &semantic.actor {
        Some(actor) => match &actor.name_span {
            Some(span) => match identifier_text(rope, span) {
                Some(label) => Some(
                    build_completion_item(
                        label.as_str(),
                        CompletionItemKind::Interface,
                        Some("actor"),
                        as_str_opt(&actor.docs),
                    ),
                ),
                None => None,
            },
            None => None,
        },
        None => None,
    }
}

/// The place of a text among texts in order: before the first that does
/// not come before it.
pub open spec fn lower_position(sorted: Seq<Seq<char>>, label: Seq<char>, i: int) -> int
    decreases sorted.len() - i,
{
    if i < 0 || i >= sorted.len() || !text_lt(sorted[i], label) {
        i
    } else {
        lower_position(sorted, label, i + 1)
    }
}

/// `sorted` with `label` put at its place, unless it stands there already.
pub open spec fn insert_text(sorted: Seq<Seq<char>>, label: Seq<char>) -> Seq<Seq<char>> {
    let p = lower_position(sorted, label, 0);
    if 0 <= p < sorted.len() && sorted[p] == label {
        sorted
    } else {
        sorted.insert(p, label)
    }
}

/// Whether each text comes before the next: the texts stand in order, and
/// none stands twice.
pub open spec fn is_strictly_ordered(texts: Seq<Seq<char>>) -> bool {
    forall|i: int, j: int| 0 <= i < j < texts.len() ==> text_lt(#[trigger] texts[i], #[trigger] texts[j])
}

/// The texts before the place of a new one come before it; those from the
/// place on do not.
pub proof fn lemma_lower_position_splits(sorted: Seq<Seq<char>>, label: Seq<char>, i: int)
    requires
        0 <= i <= sorted.len(),
        is_strictly_ordered(sorted),
    ensures
        i <= lower_position(sorted, label, i) <= sorted.len(),
        forall|k: int| i <= k < lower_position(sorted, label, i) ==> text_lt(#[trigger] sorted[k], label),
        forall|k: int|
            lower_position(sorted, label, i) <= k < sorted.len() ==> !text_lt(#[trigger] sorted[k], label),
    decreases sorted.len() - i,
{
    if i < sorted.len() {
        if text_lt(sorted[i], label) {
            lemma_lower_position_splits(sorted, label, i + 1);
        } else {
            assert forall|k: int| i <= k < sorted.len() implies !text_lt(#[trigger] sorted[k], label) by {
                if k > i && text_lt(sorted[k], label) {
                    lemma_text_lt_transitive(sorted[i], sorted[k], label, 0);
                }
            }
        }
    }
}

/// Law of the ordered set: a text put at its place keeps the texts in order
/// and each there once, and adds nothing but itself.
pub proof fn lemma_insert_text(sorted: Seq<Seq<char>>, label: Seq<char>)
    requires
        is_strictly_ordered(sorted),
    ensures
        is_strictly_ordered(insert_text(sorted, label)),
        forall|x: Seq<char>| #[trigger]
            insert_text(sorted, label).contains(x) <==> sorted.contains(x) || x == label,
{
    let p = lower_position(sorted, label, 0);
    lemma_lower_position_splits(sorted, label, 0);
    let after = insert_text(sorted, label);
    if p < sorted.len() && sorted[p] == label {
        assert forall|x: Seq<char>| #[trigger] after.contains(x) <==> sorted.contains(x) || x == label by {
            if x == label {
                assert(sorted[p] == x);
            }
        }
    } else {
        assert forall|k: int| p <= k < sorted.len() implies text_lt(label, #[trigger] sorted[k]) by {
            if !text_lt(label, sorted[k]) {
                lemma_text_lt_total(label, sorted[k], 0);
                assert(label =~= sorted[k]);
                if k > p {
                    lemma_text_lt_irreflexive(label, 0);
                    assert(text_lt(sorted[p], sorted[k]));
                }
            }
        }
        assert forall|i: int, j: int| 0 <= i < j < after.len() implies text_lt(
            #[trigger] after[i],
            #[trigger] after[j],
        ) by {
            if j == p {
                assert(after[i] == sorted[i]);
            } else if i == p {
                assert(after[j] == sorted[j - 1]);
            } else {
                let x = if i < p { i } else { i - 1 };
                let y = if j < p { j } else { j - 1 };
                assert(after[i] == sorted[x]);
                assert(after[j] == sorted[y]);
            }
        }
        assert forall|x: Seq<char>| #[trigger] after.contains(x) <==> sorted.contains(x) || x == label by {
            if after.contains(x) {
                let k = choose|k: int| 0 <= k < after.len() && after[k] == x;
                if k < p {
                    assert(sorted[k] == x);
                } else if k > p {
                    assert(sorted[k - 1] == x);
                }
            }
            if sorted.contains(x) {
                let k = choose|k: int| 0 <= k < sorted.len() && sorted[k] == x;
                if k < p {
                    assert(after[k] == x);
                } else {
                    assert(after[k + 1] == x);
                }
            }
            if x == label {
                assert(after[p] == x);
            }
        }
    }
}

fn insert_text_sorted(sorted: &mut Vec<String>, label: &String)
    ensures
        final(sorted).deep_view() == insert_text(old(sorted).deep_view(), label@),
{
    let mut p: usize = 0;
    let mut placed = false;
    while p < sorted.len() && !placed
        invariant
            p <= sorted.len(),
            *sorted == *old(sorted),
            lower_position(sorted.deep_view(), label@, p as int) == lower_position(
                sorted.deep_view(),
                label@,
                0,
            ),
            placed ==> p < sorted.len() && !text_lt(sorted.deep_view()[p as int], label@),
        decreases sorted.len() - p, if placed { 0int } else { 1int },
    {
        assert(sorted.deep_view()[p as int] == sorted@[p as int]@);
        if str_lt(sorted[p].as_str(), label.as_str()) {
            p += 1;
        } else {
            placed = true;
        }
    }
    assert(lower_position(sorted.deep_view(), label@, 0) == p);
    if p < sorted.len() {
        assert(sorted.deep_view()[p as int] == sorted@[p as int]@);
        if str_eq(sorted[p].as_str(), label.as_str()) {
            return ;
        }
    }
    let copy = label.clone();
    sorted.insert(p, copy);
    assert(sorted.deep_view() =~= old(sorted).deep_view().insert(p as int, label@));
}

/// The label under which a field is offered: its recorded label, or else
/// the text of its label span.
pub open spec fn field_label_of(field: FieldMetadataView, text: Seq<char>) -> Option<Seq<char>> {
    match field.label {
        Some(label) => Some(label),
        None => match field.label_span {
            Some(span) => label_text_of(text, span),
            None => None,
        },
    }
}

fn field_label(field: &FieldMetadata, rope: &Rope) -> (label: Option<String>)
    ensures
        label.deep_view() == field_label_of(field.deep_view(), rope_text(*rope)),
{
    match &field.label {
        Some(label) => Some(label.clone()),
        None => match &field.label_span {
            Some(span) => identifier_text(rope, span),
            None => None,
        },
    }
}

/// The labels of the first `n` fields, in order and each once.
pub open spec fn group_labels_upto(fields: Seq<FieldMetadataView>, text: Seq<char>, n: nat) -> Seq<
    Seq<char>,
>
    decreases n,
{
    if n == 0 || n > fields.len() {
        Seq::empty()
    } else {
        let before = group_labels_upto(fields, text, (n - 1) as nat);
        match field_label_of(fields[n - 1], text) {
            Some(label) => insert_text(before, label),
            None => before,
        }
    }
}

/// The names of the records and variants that have a field `label` among
/// the first `n` fields, in order and each once.
pub open spec fn group_parents_upto(fields: Seq<FieldMetadataView>, text: Seq<char>, label: Seq<char>, n: nat) -> Seq<
    Seq<char>,
>
    decreases n,
{
    if n == 0 || n > fields.len() {
        Seq::empty()
    } else {
        let before = group_parents_upto(fields, text, label, (n - 1) as nat);
        if field_label_of(fields[n - 1], text) == Some(label) {
            match fields[n - 1].parent_name {
                Some(parent) => insert_text(before, parent),
                None => before,
            }
        } else {
            before
        }
    }
}

/// The documentation of the first documented field `label` among the first `n` fields.
pub open spec fn group_docs_upto(fields: Seq<FieldMetadataView>, text: Seq<char>, label: Seq<char>, n: nat) -> Option<
    Seq<char>,
>
    decreases n,
{
    if n == 0 || n > fields.len() {
        None
    } else {
        match group_docs_upto(fields, text, label, (n - 1) as nat) {
            Some(docs) => Some(docs),
            None => if field_label_of(fields[n - 1], text) == Some(label) {
                fields[n - 1].docs
            } else {
                None
            },
        }
    }
}

/// Whether one of the first `n` fields is offered under `label`.
pub open spec fn has_field_label(fields: Seq<FieldMetadataView>, text: Seq<char>, label: Seq<char>, n: nat) -> bool {
    exists|k: int| 0 <= k < n && #[trigger] field_label_of(fields[k], text) == Some(label)
}

/// Whether one of the first `n` fields is offered under `label` and belongs
/// to the record or variant `parent`.
pub open spec fn has_field_parent(
    fields: Seq<FieldMetadataView>,
    text: Seq<char>,
    label: Seq<char>,
    parent: Seq<char>,
    n: nat,
) -> bool {
    exists|k: int|
        0 <= k < n && #[trigger] field_label_of(fields[k], text) == Some(label) && fields[k].parent_name
            == Some(parent)
}

/// Law of the groups: the labels stand in order, each once, and they are
/// the labels of the fields.
pub proof fn lemma_group_labels(fields: Seq<FieldMetadataView>, text: Seq<char>, n: nat)
    requires
        n <= fields.len(),
    ensures
        is_strictly_ordered(group_labels_upto(fields, text, n)),
        forall|label: Seq<char>| #[trigger]
            group_labels_upto(fields, text, n).contains(label) <==> has_field_label(fields, text, label, n),
    decreases n,
{
    if n > 0 {
        let before = group_labels_upto(fields, text, (n - 1) as nat);
        let after = group_labels_upto(fields, text, n);
        lemma_group_labels(fields, text, (n - 1) as nat);
        if let Some(found) = field_label_of(fields[n - 1], text) {
            lemma_insert_text(before, found);
        }
        assert forall|label: Seq<char>| #[trigger]
            after.contains(label) <==> has_field_label(fields, text, label, n) by {
            assert(before.contains(label) <==> has_field_label(fields, text, label, (n - 1) as nat));
            if has_field_label(fields, text, label, n) {
                let k = choose|k: int| 0 <= k < n && #[trigger] field_label_of(fields[k], text) == Some(label);
                if k < n - 1 {
                    assert(has_field_label(fields, text, label, (n - 1) as nat));
                }
            }
            if after.contains(label) && !before.contains(label) {
                assert(field_label_of(fields[n - 1], text) == Some(label));
            }
            if before.contains(label) {
                let k = choose|k: int|
                    0 <= k < n - 1 && #[trigger] field_label_of(fields[k], text) == Some(label);
                assert(0 <= k < n && field_label_of(fields[k], text) == Some(label));
            }
        }
    } else {
        assert forall|label: Seq<char>| #[trigger]
            group_labels_upto(fields, text, n).contains(label) <==> has_field_label(fields, text, label, n) by {}
    }
}

/// Law of the parents: the names stand in order, each once, and they are
/// the parents of the fields with the label.
pub proof fn lemma_group_parents(fields: Seq<FieldMetadataView>, text: Seq<char>, label: Seq<char>, n: nat)
    requires
        n <= fields.len(),
    ensures
        is_strictly_ordered(group_parents_upto(fields, text, label, n)),
        forall|parent: Seq<char>| #[trigger]
            group_parents_upto(fields, text, label, n).contains(parent) <==> has_field_parent(
                fields,
                text,
                label,
                parent,
                n,
            ),
    decreases n,
{
    if n > 0 {
        let before = group_parents_upto(fields, text, label, (n - 1) as nat);
        let after = group_parents_upto(fields, text, label, n);
        lemma_group_parents(fields, text, label, (n - 1) as nat);
        let added = if field_label_of(fields[n - 1], text) == Some(label) {
            fields[n - 1].parent_name
        } else {
            None
        };
        if let Some(found) = added {
            lemma_insert_text(before, found);
        }
        assert forall|parent: Seq<char>| #[trigger]
            after.contains(parent) <==> has_field_parent(fields, text, label, parent, n) by {
            assert(before.contains(parent) <==> has_field_parent(
                fields,
                text,
                label,
                parent,
                (n - 1) as nat,
            ));
            if has_field_parent(fields, text, label, parent, n) {
                let k = choose|k: int|
                    0 <= k < n && #[trigger] field_label_of(fields[k], text) == Some(label)
                        && fields[k].parent_name == Some(parent);
                if k < n - 1 {
                    assert(has_field_parent(fields, text, label, parent, (n - 1) as nat));
                }
            }
            if after.contains(parent) && !before.contains(parent) {
                assert(added == Some(parent));
                assert(field_label_of(fields[n - 1], text) == Some(label));
            }
            if before.contains(parent) {
                let k = choose|k: int|
                    0 <= k < n - 1 && #[trigger] field_label_of(fields[k], text) == Some(label)
                        && fields[k].parent_name == Some(parent);
                assert(0 <= k < n && field_label_of(fields[k], text) == Some(label) && fields[k].parent_name
                    == Some(parent));
            }
        }
    } else {
        assert forall|parent: Seq<char>| #[trigger]
            group_parents_upto(fields, text, label, n).contains(parent) <==> has_field_parent(
                fields,
                text,
                label,
                parent,
                n,
            ) by {}
    }
}

/// What a field candidate says of where the field occurs: up to three
/// names, and a mark that there are more.
pub open spec fn field_detail_text(parents: Seq<Seq<char>>) -> Seq<char> {
    if parents.len() == 0 {
        "field"@
    } else {
        "field of "@ + joined_upto(
            parents,
            ", "@,
            if parents.len() > 3 {
                3
            } else {
                parents.len()
            },
        ) + (if parents.len() > 3 {
            ", ..."@
        } else {
            Seq::empty()
        })
    }
}

pub fn field_detail(parents: &Vec<String>) -> (detail: Option<String>)
    ensures
        detail.deep_view() == Some(field_detail_text(parents.deep_view())),
{
    if parents.len() == 0 {
        return Some("field".to_owned());
    }
    let mut buf: Vec<char> = Vec::new();
    push_str_chars(&mut buf, "field of ");
    let display_count: usize = if parents.len() > 3 {
        3
    } else {
        parents.len()
    };
    let ghost start = buf@;
    let mut i: usize = 0;
    while i < display_count
        invariant
            i <= display_count <= parents.len(),
            buf@ == start + joined_upto(parents.deep_view(), ", "@, i as nat),
        decreases display_count - i,
    {
        assert(parents.deep_view()[i as int] == parents@[i as int]@);
        if i > 0 {
            push_str_chars(&mut buf, ", ");
        }
        push_str_chars(&mut buf, parents[i].as_str());
        i += 1;
        assert(buf@ =~= start + joined_upto(parents.deep_view(), ", "@, i as nat));
    }
    if parents.len() > 3 {
        push_str_chars(&mut buf, ", ...");
    }
    assert(buf@ =~= field_detail_text(parents.deep_view()));
    Some(string_of(&buf))
}

/// The candidate for the fields labelled `label`.
pub open spec fn field_group_item(fields: Seq<FieldMetadataView>, text: Seq<char>, label: Seq<char>) -> CompletionItemView {
    plain_item(
        label,
        CompletionItemKind::Value,
        Some(field_detail_text(group_parents_upto(fields, text, label, fields.len()))),
        group_docs_upto(fields, text, label, fields.len()),
    )
}

/// The candidates for the fields of the document: one for each label, in
/// label order.
pub open spec fn field_items(fields: Seq<FieldMetadataView>, text: Seq<char>) -> Seq<CompletionItemView> {
    Seq::new(
        group_labels_upto(fields, text, fields.len()).len(),
        |i: int| field_group_item(fields, text, group_labels_upto(fields, text, fields.len())[i]),
    )
}

fn field_group(semantic: &Semantic, rope: &Rope, label: &String) -> (item: CompletionItem)
    ensures
        item.deep_view() == field_group_item(semantic.deep_view().fields, rope_text(*rope), label@),
{
    let ghost fields = semantic.deep_view().fields;
    let ghost text = rope_text(*rope);
    let mut parents: Vec<String> = Vec::new();
    let mut docs: Option<String> = None;
    assert(parents.deep_view() =~= Seq::empty());
    let mut i: usize = 0;
    while i < semantic.fields.len()
        invariant
            i <= semantic.fields.len(),
            fields == semantic.deep_view().fields,
            text == rope_text(*rope),
            parents.deep_view() == group_parents_upto(fields, text, label@, i as nat),
            docs.deep_view() == group_docs_upto(fields, text, label@, i as nat),
        decreases semantic.fields.len() - i,
    {
        assert(fields[i as int] == semantic.fields@[i as int].deep_view());
        let field = &semantic.fields[i];
        let matches = match field_label(field, rope) {
            Some(found) => str_eq(found.as_str(), label.as_str()),
            None => false,
        };
        if matches {
            match &field.parent_name {
                Some(parent) => {
                    insert_text_sorted(&mut parents, parent);
                },
                None => {},
            }
            if docs.is_none() {
                docs = match &field.docs {
                    Some(text) => Some(text.clone()),
                    None => None,
                };
            }
        }
        i += 1;
    }
    let detail = field_detail(&parents);
    build_completion_item(
        label.as_str(),
        CompletionItemKind::Value,
        as_str_opt(&detail),
        as_str_opt(&docs),
    )
}

fn field_completion_items(semantic: &Semantic, rope: &Rope) -> (items: Vec<CompletionItem>)
    ensures
        items.deep_view() == field_items(semantic.deep_view().fields, rope_text(*rope)),
{
    let ghost fields = semantic.deep_view().fields;
    let ghost text = rope_text(*rope);
    let mut labels: Vec<String> = Vec::new();
    assert(labels.deep_view() =~= Seq::empty());
    let mut i: usize = 0;
    while i < semantic.fields.len()
        invariant
            i <= semantic.fields.len(),
            fields == semantic.deep_view().fields,
            text == rope_text(*rope),
            labels.deep_view() == group_labels_upto(fields, text, i as nat),
        decreases semantic.fields.len() - i,
    {
        assert(fields[i as int] == semantic.fields@[i as int].deep_view());
        match field_label(&semantic.fields[i], rope) {
            Some(label) => {
                insert_text_sorted(&mut labels, &label);
            },
            None => {},
        }
        i += 1;
    }
    let mut items: Vec<CompletionItem> = Vec::new();
    let mut k: usize = 0;
    while k < labels.len()
        invariant
            k <= labels.len(),
            fields == semantic.deep_view().fields,
            text == rope_text(*rope),
            items@.len() == k,
            forall|j: int|
                0 <= j < k ==> (#[trigger] items@[j]).deep_view() == field_group_item(
                    fields,
                    text,
                    labels@[j]@,
                ),
        decreases labels.len() - k,
    {
        items.push(field_group(semantic, rope, &labels[k]));
        k += 1;
    }
    proof {
        let all = group_labels_upto(fields, text, fields.len());
        assert forall|j: int| 0 <= j < all.len() implies all[j] == labels@[j]@ by {
            assert(labels.deep_view()[j] == labels@[j]@);
        }
        assert(items.deep_view() =~= field_items(fields, text));
    }
    items
}

/// The candidates for a value position: the local names, the call
/// snippets, the fields, the service methods, the parameters and the actor.
pub open spec fn value_items(
    sem: SemanticView,
    text: Seq<char>,
    offset: usize,
    style: ServiceSnippetStyle,
    scopes: Option<Seq<ScopeBindingsView>>,
) -> Seq<CompletionItemView> {
    push_opt(
        scoped_items(scopes, offset) + method_snippets(sem, text, offset, style, None) + field_items(
            sem.fields,
            text,
        ) + method_labels(sem, text) + param_items_upto(sem, text, sem.params.len()),
        actor_item(sem.actor, text),
    )
}

pub fn value_completion_items(
    semantic: &Semantic,
    rope: &Rope,
    offset: usize,
    snippet_style: ServiceSnippetStyle,
    scope_index: Option<&ScopeBindingIndex>,
) -> (items: Vec<CompletionItem>)
    ensures
        items.deep_view() == value_items(
            semantic.deep_view(),
            rope_text(*rope),
            offset,
            snippet_style,
            scopes_view(scope_index),
        ),
{
    let mut items = scoped_local_items(scope_index, offset);
    let snippets = service_method_snippets(semantic, rope, offset, snippet_style, None);
    extend_items(&mut items, &snippets);
    let fields = field_completion_items(semantic, rope);
    extend_items(&mut items, &fields);
    let labels = service_method_labels(semantic, rope);
    extend_items(&mut items, &labels);
    let params = param_completion_items(semantic, rope);
    extend_items(&mut items, &params);
    push_item_opt(&mut items, actor_completion_item(semantic, rope));
    items
}

/// The candidates for a value position in lightweight mode: the local
/// names and the service methods.
pub open spec fn lightweight_value_items(
    sem: Option<SemanticView>,
    text: Seq<char>,
    offset: usize,
    scopes: Option<Seq<ScopeBindingsView>>,
) -> Seq<CompletionItemView> {
    match sem {
        Some(sem) => scoped_items(scopes, offset) + method_labels(sem, text),
        None => scoped_items(scopes, offset),
    }
}

pub fn lightweight_value_completion_items(
    semantic: Option<&Semantic>,
    rope: &Rope,
    offset: usize,
    scope_index: Option<&ScopeBindingIndex>,
) -> (items: Vec<CompletionItem>)
    ensures
        items.deep_view() == lightweight_value_items(
            crate::completion_cache::semantic_opt(semantic),
            rope_text(*rope),
            offset,
            scopes_view(scope_index),
        ),
{
    let mut items = scoped_local_items(scope_index, offset);
    match semantic {
        Some(semantic) => {
            let labels = service_method_labels(semantic, rope);
            extend_items(&mut items, &labels);
        },
        None => {},
    }
    items
}

/// The candidates offered inside a service block: the service methods, and
/// their call snippets unless the mode is lightweight.
pub open spec fn service_items(
    sem: SemanticView,
    text: Seq<char>,
    offset: usize,
    style: ServiceSnippetStyle,
    cursor: Option<CursorContextView>,
    lightweight: bool,
) -> Seq<CompletionItemView> {
    if lightweight {
        method_labels(sem, text)
    } else {
        method_labels(sem, text) + method_snippets(sem, text, offset, style, cursor)
    }
}

pub fn service_method_items(
    semantic: &Semantic,
    rope: &Rope,
    offset: usize,
    style: ServiceSnippetStyle,
    cursor_context: Option<&CursorContext>,
    lightweight: bool,
) -> (items: Vec<CompletionItem>)
    ensures
        items.deep_view() == service_items(
            semantic.deep_view(),
            rope_text(*rope),
            offset,
            style,
            cursor_opt(cursor_context),
            lightweight,
        ),
{
    let mut items = service_method_labels(semantic, rope);
    if !lightweight {
        let snippets = service_method_snippets(semantic, rope, offset, style, cursor_context);
        extend_items(&mut items, &snippets);
    }
    items
}


/// The candidate for a declared type: its definition as detail and as
/// documentation, where it has a rendered definition.
pub open spec fn type_item(label: Seq<char>, doc: Option<TypeDocView>) -> CompletionItemView {
    plain_item(
        label,
        CompletionItemKind::Struct,
        match doc {
            Some(doc) => Some(doc.definition),
            None => None,
        },
        match doc {
            Some(doc) => MarkdownWriterView::empty().push_snippet_with_docs(
                doc.definition,
                doc.docs,
            ).finish(),
            None => None,
        },
    )
}

pub fn type_doc_markdown(doc: &TypeDoc) -> (markdown: String)
    ensures
        Some(markdown@) == MarkdownWriterView::empty().push_snippet_with_docs(
            doc.definition@,
            doc.docs.deep_view(),
        ).finish(),
{
    match snippet_with_docs_markdown(doc.definition.as_str(), as_str_opt(&doc.docs)) {
        Some(markdown) => markdown,
        None => doc.definition.clone(),
    }
}

pub fn build_type_completion_item(label: String, doc: Option<&TypeDoc>) -> (item: CompletionItem)
    ensures
        item.deep_view() == type_item(
            label@,
            match doc {
                Some(doc) => Some(doc.deep_view()),
                None => None,
            },
        ),
{
    match doc {
        Some(doc) => {
            let documentation = type_doc_markdown(doc);
            build_completion_item(
                label.as_str(),
                CompletionItemKind::Struct,
                Some(doc.definition.as_str()),
                Some(documentation.as_str()),
            )
        },
        None => build_completion_item(label.as_str(), CompletionItemKind::Struct, None, None),
    }
}

/// The label under which a symbol is offered: its recorded name, or else
/// the text of its identifier span, or else that of its declaration.
pub open spec fn symbol_label(sem: SemanticView, text: Seq<char>, i: int) -> Option<Seq<char>> {
    if i < sem.symbol_ident_names.len() && sem.symbol_ident_names[i] is Some {
        sem.symbol_ident_names[i]
    } else {
        label_text_of(text, sem.binding_span(i))
    }
}

/// The candidate for symbol `i`. The symbol of an import has none here.
pub open spec fn symbol_item(sem: SemanticView, text: Seq<char>, i: int) -> Option<CompletionItemView> {
    if import_of(sem.table.imports, SymbolId(i as usize)) is Some {
        None
    } else {
        match symbol_label(sem, text, i) {
            Some(label) => Some(
                type_item(
                    label,
                    if i < sem.type_docs.len() {
                        sem.type_docs[i]
                    } else {
                        None
                    },
                ),
            ),
            None => None,
        }
    }
}

pub open spec fn symbol_items_upto(sem: SemanticView, text: Seq<char>, n: nat) -> Seq<CompletionItemView>
    decreases n,
{
    if n == 0 || n > sem.table.symbols.len() {
        Seq::empty()
    } else {
        push_opt(symbol_items_upto(sem, text, (n - 1) as nat), symbol_item(sem, text, n - 1))
    }
}

pub fn symbol_completion_items(semantic: &Semantic, rope: &Rope) -> (items: Vec<CompletionItem>)
    ensures
        items.deep_view() == symbol_items_upto(
            semantic.deep_view(),
            rope_text(*rope),
            semantic.deep_view().table.symbols.len(),
        ),
{
    let ghost sem = semantic.deep_view();
    let mut items: Vec<CompletionItem> = Vec::new();
    assert(items.deep_view() =~= Seq::empty());
    let mut i: usize = 0;
    while i < semantic.table.symbol_id_to_span.len()
        invariant
            i <= semantic.table.symbol_id_to_span.len(),
            sem == semantic.deep_view(),
            items.deep_view() == symbol_items_upto(sem, rope_text(*rope), i as nat),
        decreases semantic.table.symbol_id_to_span.len() - i,
    {
        let item = if find_import(&semantic.table.imports, SymbolId(i)).is_some() {
            None
        } else {
            let named = if i < semantic.symbol_ident_names.len() {
                assert(sem.symbol_ident_names[i as int] == semantic.symbol_ident_names@[i as int].deep_view());
                match &semantic.symbol_ident_names[i] {
                    Some(name) => Some(name.clone()),
                    None => None,
                }
            } else {
                None
            };
            let label = match named {
                Some(name) => Some(name),
                None => {
                    let overlay = if i < semantic.symbol_ident_spans.len() {
                        semantic.symbol_ident_spans[i]
                    } else {
                        None
                    };
                    let span = match overlay {
                        Some(span) => span,
                        None => semantic.table.symbol_id_to_span[i],
                    };
                    identifier_text(rope, &span)
                },
            };
            match label {
                Some(label) => {
                    if i < semantic.type_docs.len() {
                        assert(sem.type_docs[i as int] == semantic.type_docs@[i as int].deep_view());
                        Some(build_type_completion_item(label, semantic.type_docs[i].as_ref()))
                    } else {
                        Some(build_type_completion_item(label, None))
                    }
                },
                None => None,
            }
        };
        push_item_opt(&mut items, item);
        i += 1;
    }
    items
}

/// The candidate for an imported name.
pub open spec fn import_item(label: Seq<char>, entry: ImportEntryView) -> CompletionItemView {
    plain_item(
        label,
        match entry.kind {
            ImportKind::Type => CompletionItemKind::Struct,
            ImportKind::Service => CompletionItemKind::Interface,
        },
        Some(
            match entry.kind {
                ImportKind::Type => "imported type"@,
                ImportKind::Service => "imported service"@,
            },
        ),
        Some(import_text(entry.kind, entry.path)),
    )
}

pub fn build_import_completion_item(label: String, entry: &ImportEntry) -> (item: CompletionItem)
    ensures
        item.deep_view() == import_item(label@, entry.deep_view()),
{
    let mut docs: Vec<char> = Vec::new();
    push_str_chars(&mut docs, "Imported ");
    match entry.kind {
        ImportKind::Type => push_str_chars(&mut docs, "type"),
        ImportKind::Service => push_str_chars(&mut docs, "service"),
    }
    push_str_chars(&mut docs, " from `");
    push_str_chars(&mut docs, entry.path.as_str());
    push_str_chars(&mut docs, "`");
    assert(docs@ =~= import_text(entry.kind, entry.path@));
    let docs = string_of(&docs);
    match entry.kind {
        ImportKind::Type => build_completion_item(
            label.as_str(),
            CompletionItemKind::Struct,
            Some("imported type"),
            Some(docs.as_str()),
        ),
        ImportKind::Service => build_completion_item(
            label.as_str(),
            CompletionItemKind::Interface,
            Some("imported service"),
            Some(docs.as_str()),
        ),
    }
}

pub open spec fn import_items_upto(sem: SemanticView, text: Seq<char>, n: nat) -> Seq<CompletionItemView>
    decreases n,
{
    if n == 0 || n > sem.table.imports.len() {
        Seq::empty()
    } else {
        push_opt(
            import_items_upto(sem, text, (n - 1) as nat),
            match label_text_of(text, sem.table.imports[n - 1].span) {
                Some(label) => Some(import_item(label, sem.table.imports[n - 1])),
                None => None,
            },
        )
    }
}

pub fn import_completion_items(semantic: &Semantic, rope: &Rope) -> (items: Vec<CompletionItem>)
    ensures
        items.deep_view() == import_items_upto(
            semantic.deep_view(),
            rope_text(*rope),
            semantic.deep_view().table.imports.len(),
        ),
{
    let ghost sem = semantic.deep_view();
    let mut items: Vec<CompletionItem> = Vec::new();
    assert(items.deep_view() =~= Seq::empty());
    let mut i: usize = 0;
    while i < semantic.table.imports.len()
        invariant
            i <= semantic.table.imports.len(),
            sem == semantic.deep_view(),
            items.deep_view() == import_items_upto(sem, rope_text(*rope), i as nat),
        decreases semantic.table.imports.len() - i,
    {
        assert(sem.table.imports[i as int] == semantic.table.imports@[i as int].deep_view());
        let entry = &semantic.table.imports[i];
        let item = match identifier_text(rope, &entry.span) {
            Some(label) => Some(build_import_completion_item(label, entry)),
            None => None,
        };
        push_item_opt(&mut items, item);
        i += 1;
    }
    items
}

/// The candidates for the names that the document declares: its types,
/// then its imports.
pub open spec fn semantic_items(sem: SemanticView, text: Seq<char>) -> Seq<CompletionItemView> {
    symbol_items_upto(sem, text, sem.table.symbols.len()) + import_items_upto(
        sem,
        text,
        sem.table.imports.len(),
    )
}

pub fn semantic_completion_items(semantic: &Semantic, rope: &Rope) -> (items: Vec<CompletionItem>)
    ensures
        items.deep_view() == semantic_items(semantic.deep_view(), rope_text(*rope)),
{
    let mut items = symbol_completion_items(semantic, rope);
    let imports = import_completion_items(semantic, rope);
    extend_items(&mut items, &imports);
    items
}

/// What a completion request is answered from.
pub struct BuildCompletionItemsParams<'a> {
    pub context: CompletionContext,
    pub semantic_ref: Option<&'a Semantic>,
    pub rope: &'a Rope,
    pub snippet_style: ServiceSnippetStyle,
    pub scope_index: Option<&'a ScopeBindingIndex>,
    pub offset: Option<usize>,
    pub inside_service_block: bool,
    pub cursor_context: Option<&'a CursorContext>,
    pub lightweight: bool,
}

pub struct BuildParamsView {
    pub context: CompletionContext,
    pub sem: Option<SemanticView>,
    pub text: Seq<char>,
    pub style: ServiceSnippetStyle,
    pub scopes: Option<Seq<ScopeBindingsView>>,
    pub offset: Option<usize>,
    pub inside_service_block: bool,
    pub cursor: Option<CursorContextView>,
    pub lightweight: bool,
}

impl<'a> View for BuildCompletionItemsParams<'a> {
    type V = BuildParamsView;

    open spec fn view(&self) -> BuildParamsView {
        BuildParamsView {
            context: self.context,
            sem: semantic_opt(self.semantic_ref),
            text: rope_text(*self.rope),
            style: self.snippet_style,
            scopes: scopes_view(self.scope_index),
            offset: self.offset,
            inside_service_block: self.inside_service_block,
            cursor: cursor_opt(self.cursor_context),
            lightweight: self.lightweight,
        }
    }
}

impl<'a> BuildCompletionItemsParams<'a> {
    /// The inputs of one completion request.
    pub fn new(
        context: CompletionContext,
        semantic_ref: Option<&'a Semantic>,
        rope: &'a Rope,
        snippet_style: ServiceSnippetStyle,
        scope_index: Option<&'a ScopeBindingIndex>,
        offset: Option<usize>,
        inside_service_block: bool,
        cursor_context: Option<&'a CursorContext>,
        lightweight: bool,
    ) -> (params: BuildCompletionItemsParams<'a>)
        ensures
            params.context == context,
            params.semantic_ref == semantic_ref,
            params.rope == rope,
            params.snippet_style == snippet_style,
            params.scope_index == scope_index,
            params.offset == offset,
            params.inside_service_block == inside_service_block,
            params.cursor_context == cursor_context,
            params.lightweight == lightweight,
    {
        BuildCompletionItemsParams {
            context,
            semantic_ref,
            rope,
            snippet_style,
            scope_index,
            offset,
            inside_service_block,
            cursor_context,
            lightweight,
        }
    }
}

impl BuildParamsView {
    /// The value candidates at `offset`, by mode.
    pub open spec fn value_candidates(self, offset: usize) -> Seq<CompletionItemView> {
        if self.lightweight {
            lightweight_value_items(self.sem, self.text, offset, self.scopes)
        } else {
            match self.sem {
                Some(sem) => value_items(sem, self.text, offset, self.style, self.scopes),
                None => Seq::empty(),
            }
        }
    }

    /// Whether the request is answered by the first phase alone: a comment
    /// has no candidates, and neither has a definition outside a service
    /// block.
    pub open spec fn finished_early(self) -> bool {
        match self.context {
            CompletionContext::Definition => !(self.offset is Some && self.inside_service_block),
            CompletionContext::Comment => true,
            _ => false,
        }
    }

    /// The candidates of the first phase, by context.
    pub open spec fn first_phase(self) -> Seq<CompletionItemView> {
        match self.context {
            CompletionContext::Value => match self.offset {
                Some(offset) => appended_sorted(Seq::empty(), self.value_candidates(offset)),
                None => Seq::empty(),
            },
            CompletionContext::Definition => match self.offset {
                Some(offset) => if self.inside_service_block {
                    appended_sorted(Seq::empty(), self.value_candidates(offset))
                } else {
                    Seq::empty()
                },
                None => Seq::empty(),
            },
            CompletionContext::TopLevel => push_unique_all(Seq::empty(), top_level_items()),
            CompletionContext::Comment => Seq::empty(),
            _ => {
                let fixed = push_unique_all(Seq::empty(), static_items());
                match self.sem {
                    Some(sem) => if self.lightweight {
                        fixed
                    } else {
                        appended_sorted(fixed, semantic_items(sem, self.text))
                    },
                    None => fixed,
                }
            },
        }
    }

    /// Whether the second phase adds the candidates of the service block.
    pub open spec fn adds_service_items(self) -> bool {
        self.context != CompletionContext::Value && self.context != CompletionContext::Definition
            && self.sem is Some && self.offset is Some && self.inside_service_block
    }

    /// The candidates after the second phase.
    pub open spec fn second_phase(self, items: Seq<CompletionItemView>) -> Seq<CompletionItemView> {
        if self.adds_service_items() {
            appended_sorted(
                items,
                service_items(
                    self.sem->0,
                    self.text,
                    self.offset->0,
                    self.style,
                    self.cursor,
                    self.lightweight,
                ),
            )
        } else {
            items
        }
    }

    /// The candidates that answer the request.
    pub open spec fn items(self) -> Seq<CompletionItemView> {
        if self.finished_early() {
            self.first_phase()
        } else {
            self.second_phase(self.first_phase())
        }
    }
}

fn value_candidates(params: &BuildCompletionItemsParams<'_>, offset: usize) -> (items: Vec<CompletionItem>)
    ensures
        items.deep_view() == params@.value_candidates(offset),
{
    if params.lightweight {
        lightweight_value_completion_items(params.semantic_ref, params.rope, offset, params.scope_index)
    } else {
        match params.semantic_ref {
            Some(semantic) => value_completion_items(
                semantic,
                params.rope,
                offset,
                params.snippet_style,
                params.scope_index,
            ),
            None => {
                let items: Vec<CompletionItem> = Vec::new();
                assert(items.deep_view() =~= Seq::empty());
                items
            },
        }
    }
}

/// The first phase of an answer: the candidates that the context calls for.
pub fn first_phase_items(params: &BuildCompletionItemsParams<'_>) -> (items: Vec<CompletionItem>)
    ensures
        items.deep_view() == params@.first_phase(),
{
    let mut items: Vec<CompletionItem> = Vec::new();
    assert(items.deep_view() =~= Seq::empty());
    match params.context {
        CompletionContext::Value => {
            match params.offset {
                Some(offset) => {
                    let value_items = value_candidates(params, offset);
                    append_sorted_items(&mut items, value_items);
                },
                None => {},
            }
        },
        CompletionContext::Definition => {
            match params.offset {
                Some(offset) => {
                    if params.inside_service_block {
                        let value_items = value_candidates(params, offset);
                        append_sorted_items(&mut items, value_items);
                    }
                },
                None => {},
            }
        },
        CompletionContext::TopLevel => {
            let fixed = top_level_completion_items();
            push_all_unique(&mut items, &fixed);
        },
        CompletionContext::Comment => {},
        _ => {
            let fixed = static_completion_items();
            push_all_unique(&mut items, &fixed);
            if !params.lightweight {
                match params.semantic_ref {
                    Some(semantic) => {
                        let dynamic_items = semantic_completion_items(semantic, params.rope);
                        append_sorted_items(&mut items, dynamic_items);
                    },
                    None => {},
                }
            }
        },
    }
    items
}

fn finishes_early(params: &BuildCompletionItemsParams<'_>) -> (early: bool)
    ensures
        early == params@.finished_early(),
{
    match params.context {
        CompletionContext::Definition => !(params.offset.is_some() && params.inside_service_block),
        CompletionContext::Comment => true,
        _ => false,
    }
}

/// The second phase of an answer: inside a service block, the candidates
/// of the service are added.
pub fn second_phase_items(params: &BuildCompletionItemsParams<'_>, items: Vec<CompletionItem>) -> (result:
    Vec<CompletionItem>)
    ensures
        result.deep_view() == params@.second_phase(items.deep_view()),
{
    let mut items = items;
    let in_value = match params.context {
        CompletionContext::Value => true,
        CompletionContext::Definition => true,
        _ => false,
    };
    if !in_value && params.inside_service_block {
        match (params.semantic_ref, params.offset) {
            (Some(semantic), Some(offset)) => {
                let service_items = service_method_items(
                    semantic,
                    params.rope,
                    offset,
                    params.snippet_style,
                    params.cursor_context,
                    params.lightweight,
                );
                append_sorted_items(&mut items, service_items);
            },
            _ => {},
        }
    }
    items
}

/// Answer a completion request in one go.
pub fn build_completion_items_sync(params: &BuildCompletionItemsParams<'_>) -> (items: Vec<
    CompletionItem,
>)
    ensures
        items.deep_view() == params@.items(),
{
    let items = first_phase_items(params);
    if finishes_early(params) {
        return items;
    }
    second_phase_items(params, items)
}

/// How the building of an answer ended.
#[derive(Debug)]
pub enum CompletionBuildOutcome {
    Completed(Vec<CompletionItem>),
    Cancelled,
}

pub enum CompletionBuildOutcomeView {
    Completed(Seq<CompletionItemView>),
    Cancelled,
}

impl DeepView for CompletionBuildOutcome {
    type V = CompletionBuildOutcomeView;

    open spec fn deep_view(&self) -> CompletionBuildOutcomeView {
        match self {
            CompletionBuildOutcome::Completed(items) => CompletionBuildOutcomeView::Completed(
                items.deep_view(),
            ),
            CompletionBuildOutcome::Cancelled => CompletionBuildOutcomeView::Cancelled,
        }
    }
}

impl CompletionBuildOutcomeView {
    /// The candidates that a client is sent: those built, or none after a
    /// cancellation.
    pub open spec fn items(self) -> Seq<CompletionItemView> {
        match self {
            CompletionBuildOutcomeView::Completed(items) => items,
            CompletionBuildOutcomeView::Cancelled => Seq::empty(),
        }
    }
}

impl CompletionBuildOutcome {
    /// The candidates that a client is sent: those built, or none after a
    /// cancellation.
    pub fn into_items(self) -> (items: Vec<CompletionItem>)
        ensures
            items.deep_view() == self.deep_view().items(),
    {
        match self {
            CompletionBuildOutcome::Completed(items) => items,
            CompletionBuildOutcome::Cancelled => {
                let items: Vec<CompletionItem> = Vec::new();
                assert(items.deep_view() =~= Seq::empty());
                items
            },
        }
    }
}

/// Where the building of an answer stands.
#[derive(Clone, Copy, Debug, PartialEq, Eq, Structural)]
pub enum BuildStage {
    /// Nothing was done yet.
    Start,
    /// The first checkpoint was asked for.
    Main,
    /// The first phase is done and the second checkpoint was asked for.
    Service,
    /// The second phase is done and the last checkpoint was asked for.
    Finish,
    /// The outcome was handed out.
    Done,
}

/// What the caller is to do next.
#[derive(Debug)]
pub enum BuildStep {
    /// Yield, find out whether the task's token is still active, and step again.
    Checkpoint,
    Finished(CompletionBuildOutcome),
}

pub enum BuildStepView {
    Checkpoint,
    Finished(CompletionBuildOutcomeView),
}

impl DeepView for BuildStep {
    type V = BuildStepView;

    open spec fn deep_view(&self) -> BuildStepView {
        match self {
            BuildStep::Checkpoint => BuildStepView::Checkpoint,
            BuildStep::Finished(outcome) => BuildStepView::Finished(outcome.deep_view()),
        }
    }
}

/// The building of an answer in steps, with a checkpoint before each phase
/// and one before the answer is handed out.
pub struct CompletionBuilder {
    pub stage: BuildStage,
    pub items: Vec<CompletionItem>,
}

pub struct CompletionBuilderView {
    pub stage: BuildStage,
    pub items: Seq<CompletionItemView>,
}

impl View for CompletionBuilder {
    type V = CompletionBuilderView;

    open spec fn view(&self) -> CompletionBuilderView {
        CompletionBuilderView { stage: self.stage, items: self.items.deep_view() }
    }
}

impl CompletionBuilderView {
    /// The state after a step, and what the step tells the caller. `active`
    /// says whether the checkpoint that the last step asked for found the
    /// token active. Work is done only after a checkpoint that did; a
    /// checkpoint that did not ends the building with `Cancelled`.
    pub open spec fn step(self, params: BuildParamsView, active: bool) -> (CompletionBuilderView, BuildStepView) {
        match self.stage {
            BuildStage::Start => (
                CompletionBuilderView { stage: BuildStage::Main, ..self },
                BuildStepView::Checkpoint,
            ),
            BuildStage::Main => if !active {
                (
                    CompletionBuilderView { stage: BuildStage::Done, items: Seq::empty() },
                    BuildStepView::Finished(CompletionBuildOutcomeView::Cancelled),
                )
            } else if params.finished_early() {
                (
                    CompletionBuilderView { stage: BuildStage::Done, items: Seq::empty() },
                    BuildStepView::Finished(CompletionBuildOutcomeView::Completed(params.first_phase())),
                )
            } else {
                (
                    CompletionBuilderView { stage: BuildStage::Service, items: params.first_phase() },
                    BuildStepView::Checkpoint,
                )
            },
            BuildStage::Service => if !active {
                (
                    CompletionBuilderView { stage: BuildStage::Done, items: Seq::empty() },
                    BuildStepView::Finished(CompletionBuildOutcomeView::Cancelled),
                )
            } else {
                (
                    CompletionBuilderView {
                        stage: BuildStage::Finish,
                        items: params.second_phase(self.items),
                    },
                    BuildStepView::Checkpoint,
                )
            },
            BuildStage::Finish => if !active {
                (
                    CompletionBuilderView { stage: BuildStage::Done, items: Seq::empty() },
                    BuildStepView::Finished(CompletionBuildOutcomeView::Cancelled),
                )
            } else {
                (
                    CompletionBuilderView { stage: BuildStage::Done, items: Seq::empty() },
                    BuildStepView::Finished(CompletionBuildOutcomeView::Completed(self.items)),
                )
            },
            BuildStage::Done => (
                CompletionBuilderView { stage: BuildStage::Done, items: Seq::empty() },
                BuildStepView::Finished(CompletionBuildOutcomeView::Cancelled),
            ),
        }
    }
}

impl CompletionBuilder {
    /// A builder that has done nothing yet.
    pub fn new() -> (builder: CompletionBuilder)
        ensures
            builder@ == (CompletionBuilderView { stage: BuildStage::Start, items: Seq::empty() }),
    {
        let builder = CompletionBuilder { stage: BuildStage::Start, items: Vec::new() };
        assert(builder.items.deep_view() =~= Seq::empty());
        builder
    }

    fn take_items(&mut self) -> (items: Vec<CompletionItem>)
        ensures
            items == old(self).items,
            final(self).stage == old(self).stage,
            final(self).items.deep_view() == Seq::<CompletionItemView>::empty(),
    {
        let mut items: Vec<CompletionItem> = Vec::new();
        assert(items.deep_view() =~= Seq::empty());
        core::mem::swap(&mut items, &mut self.items);
        items
    }

    /// Take the next step of the building.
    pub fn step(&mut self, params: &BuildCompletionItemsParams<'_>, active: bool) -> (next: BuildStep)
        ensures
            (final(self)@, next.deep_view()) == old(self)@.step(params@, active),
    {
        match self.stage {
            BuildStage::Start => {
                self.stage = BuildStage::Main;
                BuildStep::Checkpoint
            },
            BuildStage::Main => {
                let _ = self.take_items();
                if !active {
                    self.stage = BuildStage::Done;
                    return BuildStep::Finished(CompletionBuildOutcome::Cancelled);
                }
                let items = first_phase_items(params);
                if finishes_early(params) {
                    self.stage = BuildStage::Done;
                    return BuildStep::Finished(CompletionBuildOutcome::Completed(items));
                }
                self.items = items;
                self.stage = BuildStage::Service;
                BuildStep::Checkpoint
            },
            BuildStage::Service => {
                let items = self.take_items();
                if !active {
                    self.stage = BuildStage::Done;
                    return BuildStep::Finished(CompletionBuildOutcome::Cancelled);
                }
                self.items = second_phase_items(params, items);
                self.stage = BuildStage::Finish;
                BuildStep::Checkpoint
            },
            BuildStage::Finish => {
                let items = self.take_items();
                self.stage = BuildStage::Done;
                if !active {
                    return BuildStep::Finished(CompletionBuildOutcome::Cancelled);
                }
                BuildStep::Finished(CompletionBuildOutcome::Completed(items))
            },
            BuildStage::Done => {
                let _ = self.take_items();
                BuildStep::Finished(CompletionBuildOutcome::Cancelled)
            },
        }
    }
}

/// The outcome of a building whose three checkpoints find the token active
/// or not as given.
pub open spec fn outcome_with_checkpoints(params: BuildParamsView, first: bool, second: bool, third: bool) -> CompletionBuildOutcomeView {
    if !first {
        CompletionBuildOutcomeView::Cancelled
    } else if params.finished_early() {
        CompletionBuildOutcomeView::Completed(params.first_phase())
    } else if !second || !third {
        CompletionBuildOutcomeView::Cancelled
    } else {
        CompletionBuildOutcomeView::Completed(params.items())
    }
}

/// Build an answer with its checkpoints answered in advance.
pub fn build_completion_items_with_checkpoints(
    params: &BuildCompletionItemsParams<'_>,
    first: bool,
    second: bool,
    third: bool,
) -> (outcome: CompletionBuildOutcome)
    ensures
        outcome.deep_view() == outcome_with_checkpoints(params@, first, second, third),
{
    let mut builder = CompletionBuilder::new();
    match builder.step(params, true) {
        BuildStep::Finished(outcome) => {
            return outcome;
        },
        BuildStep::Checkpoint => {},
    }
    match builder.step(params, first) {
        BuildStep::Finished(outcome) => {
            return outcome;
        },
        BuildStep::Checkpoint => {},
    }
    match builder.step(params, second) {
        BuildStep::Finished(outcome) => {
            return outcome;
        },
        BuildStep::Checkpoint => {},
    }
    match builder.step(params, third) {
        BuildStep::Finished(outcome) => outcome,
        BuildStep::Checkpoint => CompletionBuildOutcome::Cancelled,
    }
}

/// A building that no checkpoint stops gives the answer of the one-go
/// builder; a checkpoint that it reaches and that finds the token
/// cancelled makes it report `Cancelled`.
pub proof fn lemma_checkpoints_decide(params: BuildParamsView, first: bool, second: bool, third: bool)
    ensures
        first && second && third ==> outcome_with_checkpoints(params, first, second, third)
            == CompletionBuildOutcomeView::Completed(params.items()),
        !first ==> outcome_with_checkpoints(params, first, second, third)
            == CompletionBuildOutcomeView::Cancelled,
        first && !params.finished_early() && (!second || !third) ==> outcome_with_checkpoints(
            params,
            first,
            second,
            third,
        ) == CompletionBuildOutcomeView::Cancelled,
{
}

/// A request that a newer request of its kind overtakes before its first
/// checkpoint reports `Cancelled`, whatever it would have answered.
pub proof fn lemma_overtaken_request_is_cancelled(
    state: DocumentTaskState,
    params: BuildParamsView,
    second: bool,
    third: bool,
)
    ensures
        ({
            let issued = state.advanced(DocumentTaskKind::Completion);
            let token = DocumentTaskToken {
                kind: DocumentTaskKind::Completion,
                generation: issued.generation(DocumentTaskKind::Completion),
            };
            let overtaken = issued.advanced(DocumentTaskKind::Completion);
            outcome_with_checkpoints(params, !token.cancelled_in(overtaken), second, third)
                == CompletionBuildOutcomeView::Cancelled
        }),
{
}

} // verus!
