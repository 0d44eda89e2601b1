//! Completion candidates and the ones that do not depend on the document.
use crate::rope::{rope_len_chars, rope_slice, rope_text};
use crate::span::Span;
use crate::syntax::PrimType;
use crate::text::{push_str_chars, string_of, trim, trim_seq};
use crate::type_docs::{
    blob_body_text, blob_doc, doc_page, keyword_body_text, keyword_doc, keyword_kinds, keyword_position,
    keyword_text, primitive_body_text, primitive_doc, primitive_kinds, primitive_name,
    primitive_position, primitive_text, KeywordDoc,
};
use ropey::Rope;
use vstd::prelude::*;

verus! {

#[derive(Clone, Copy, Debug, PartialEq, Eq, Structural)]
pub enum CompletionItemKind {
    Struct,
    Keyword,
    Value,
    Variable,
    Method,
    Snippet,
    Interface,
}

#[derive(Clone, Copy, Debug, PartialEq, Eq, Structural)]
pub enum InsertTextFormat {
    PlainText,
    Snippet,
}

/// A completion candidate.
#[derive(Clone, Debug)]
pub struct CompletionItem {
    pub label: String,
    pub kind: Option<CompletionItemKind>,
    pub detail: Option<String>,
    /// Markdown shown with the candidate.
    pub documentation: Option<String>,
    pub insert_text: Option<String>,
    pub insert_text_format: Option<InsertTextFormat>,
}

pub struct CompletionItemView {
    pub label: Seq<char>,
    pub kind: Option<CompletionItemKind>,
    pub detail: Option<Seq<char>>,
    pub documentation: Option<Seq<char>>,
    pub insert_text: Option<Seq<char>>,
    pub insert_text_format: Option<InsertTextFormat>,
}

impl DeepView for CompletionItem {
    type V = CompletionItemView;

    open spec fn deep_view(&self) -> CompletionItemView {
        CompletionItemView {
            label: self.label@,
            kind: self.kind,
            detail: self.detail.deep_view(),
            documentation: self.documentation.deep_view(),
            insert_text: self.insert_text.deep_view(),
            insert_text_format: self.insert_text_format,
        }
    }
}

/// A candidate that inserts its label.
pub open spec fn plain_item(
    label: Seq<char>,
    kind: CompletionItemKind,
    detail: Option<Seq<char>>,
    docs: Option<Seq<char>>,
) -> CompletionItemView {
    CompletionItemView {
        label,
        kind: Some(kind),
        detail,
        documentation: docs,
        insert_text: None,
        insert_text_format: None,
    }
}

/// A candidate that inserts a snippet.
pub open spec fn snippet_item(item: CompletionItemView, snippet: Seq<char>) -> CompletionItemView {
    CompletionItemView {
        insert_text: Some(snippet),
        insert_text_format: Some(InsertTextFormat::Snippet),
        ..item
    }
}

pub open spec fn str_opt(text: Option<&str>) -> Option<Seq<char>> {
    match text {
        Some(text) => Some(text@),
        None => None,
    }
}

fn owned(text: Option<&str>) -> (copy: Option<String>)
    ensures
        copy.deep_view() == str_opt(text),
{
    match text {
        Some(text) => Some(text.to_owned()),
        None => None,
    }
}

pub fn build_completion_item(label: &str, kind: CompletionItemKind, detail: Option<&str>, docs: Option<
    &str,
>) -> (item: CompletionItem)
    ensures
        item.deep_view() == plain_item(label@, kind, str_opt(detail), str_opt(docs)),
{
    CompletionItem {
        label: label.to_owned(),
        kind: Some(kind),
        detail: owned(detail),
        documentation: owned(docs),
        insert_text: None,
        insert_text_format: None,
    }
}

impl CompletionItem {
    /// A copy of the candidate.
    pub fn clone_item(&self) -> (copy: CompletionItem)
        ensures
            copy.deep_view() == self.deep_view(),
    {
        CompletionItem {
            label: self.label.clone(),
            kind: self.kind,
            detail: match &self.detail {
                Some(text) => Some(text.clone()),
                None => None,
            },
            documentation: match &self.documentation {
                Some(text) => Some(text.clone()),
                None => None,
            },
            insert_text: match &self.insert_text {
                Some(text) => Some(text.clone()),
                None => None,
            },
            insert_text_format: self.insert_text_format,
        }
    }
}

/// What the completion of a keyword inserts, where that is more than the keyword.
pub open spec fn keyword_snippet_text(kind: KeywordDoc) -> Option<Seq<char>> {
    match kind {
        KeywordDoc::Record => Some("record { $0 };"@),
        KeywordDoc::Variant => Some("variant { $0 };"@),
        KeywordDoc::Import => Some("import \"${1:path}.did\";$0"@),
        _ => None,
    }
}

pub fn keyword_snippet(kind: KeywordDoc) -> (snippet: Option<String>)
    ensures
        snippet.deep_view() == keyword_snippet_text(kind),
{
    match kind {
        KeywordDoc::Record => Some("record { $0 };".to_owned()),
        KeywordDoc::Variant => Some("variant { $0 };".to_owned()),
        KeywordDoc::Import => Some("import \"${1:path}.did\";$0".to_owned()),
        _ => None,
    }
}

/// The candidate for a keyword: its documentation page, and its snippet
/// where it has one.
pub open spec fn keyword_item(kind: KeywordDoc) -> CompletionItemView {
    let item = plain_item(
        keyword_text(kind),
        CompletionItemKind::Keyword,
        Some("keyword"@),
        Some(doc_page(keyword_text(kind), keyword_body_text(kind))),
    );
    match keyword_snippet_text(kind) {
        Some(snippet) => snippet_item(item, snippet),
        None => item,
    }
}

pub fn build_keyword_completion_item(kind: KeywordDoc, docs: &str) -> (item: CompletionItem)
    ensures
        item.deep_view() == (match keyword_snippet_text(kind) {
            Some(snippet) => snippet_item(
                plain_item(keyword_text(kind), CompletionItemKind::Keyword, Some("keyword"@), Some(docs@)),
                snippet,
            ),
            None => plain_item(
                keyword_text(kind),
                CompletionItemKind::Keyword,
                Some("keyword"@),
                Some(docs@),
            ),
        }),
{
    let mut item = build_completion_item(
        kind.keyword(),
        CompletionItemKind::Keyword,
        Some("keyword"),
        Some(docs),
    );
    match keyword_snippet(kind) {
        Some(snippet) => {
            item.insert_text = Some(snippet);
            item.insert_text_format = Some(InsertTextFormat::Snippet);
        },
        None => {},
    }
    item
}

fn keyword_completion_item(kind: KeywordDoc) -> (item: CompletionItem)
    ensures
        item.deep_view() == keyword_item(kind),
{
    match keyword_doc(kind) {
        Some(docs) => build_keyword_completion_item(kind, docs.as_str()),
        None => build_keyword_completion_item(kind, ""),
    }
}

/// The candidates for the first `n` documented keywords other than `import`.
pub open spec fn keyword_items_upto(kinds: Seq<KeywordDoc>, n: nat) -> Seq<CompletionItemView>
    decreases n,
{
    if n == 0 || n > kinds.len() {
        Seq::empty()
    } else {
        let before = keyword_items_upto(kinds, (n - 1) as nat);
        if kinds[n - 1] == KeywordDoc::Import {
            before
        } else {
            before.push(keyword_item(kinds[n - 1]))
        }
    }
}

/// The documented keywords in their documented order.
pub open spec fn all_keywords() -> Seq<KeywordDoc> {
    seq![
        KeywordDoc::Func,
        KeywordDoc::Opt,
        KeywordDoc::Principal,
        KeywordDoc::Record,
        KeywordDoc::Service,
        KeywordDoc::Type,
        KeywordDoc::Variant,
        KeywordDoc::Vec,
        KeywordDoc::Oneway,
        KeywordDoc::Query,
        KeywordDoc::CompositeQuery,
        KeywordDoc::Import,
    ]
}

/// The primitive types in their documented order.
pub open spec fn all_primitives() -> Seq<PrimType> {
    seq![
        PrimType::Nat,
        PrimType::Nat8,
        PrimType::Nat16,
        PrimType::Nat32,
        PrimType::Nat64,
        PrimType::Int,
        PrimType::Int8,
        PrimType::Int16,
        PrimType::Int32,
        PrimType::Int64,
        PrimType::Float32,
        PrimType::Float64,
        PrimType::Bool,
        PrimType::Text,
        PrimType::Null,
        PrimType::Reserved,
        PrimType::Empty,
    ]
}

/// The candidates for every keyword but `import`.
pub open spec fn keyword_items() -> Seq<CompletionItemView> {
    keyword_items_upto(all_keywords(), all_keywords().len())
}

proof fn lemma_keyword_kinds(kinds: Seq<KeywordDoc>)
    requires
        kinds.len() == 12,
        forall|kind: KeywordDoc| #[trigger] kinds[keyword_position(kind)] == kind,
    ensures
        kinds == all_keywords(),
{
    assert(kinds[keyword_position(KeywordDoc::Func)] == KeywordDoc::Func);
    assert(kinds[keyword_position(KeywordDoc::Opt)] == KeywordDoc::Opt);
    assert(kinds[keyword_position(KeywordDoc::Principal)] == KeywordDoc::Principal);
    assert(kinds[keyword_position(KeywordDoc::Record)] == KeywordDoc::Record);
    assert(kinds[keyword_position(KeywordDoc::Service)] == KeywordDoc::Service);
    assert(kinds[keyword_position(KeywordDoc::Type)] == KeywordDoc::Type);
    assert(kinds[keyword_position(KeywordDoc::Variant)] == KeywordDoc::Variant);
    assert(kinds[keyword_position(KeywordDoc::Vec)] == KeywordDoc::Vec);
    assert(kinds[keyword_position(KeywordDoc::Oneway)] == KeywordDoc::Oneway);
    assert(kinds[keyword_position(KeywordDoc::Query)] == KeywordDoc::Query);
    assert(kinds[keyword_position(KeywordDoc::CompositeQuery)] == KeywordDoc::CompositeQuery);
    assert(kinds[keyword_position(KeywordDoc::Import)] == KeywordDoc::Import);
    assert(kinds =~= all_keywords());
}

proof fn lemma_primitive_kinds(kinds: Seq<PrimType>)
    requires
        kinds.len() == 17,
        forall|kind: PrimType| #[trigger] kinds[primitive_position(kind)] == kind,
    ensures
        kinds == all_primitives(),
{
    assert(kinds[primitive_position(PrimType::Nat)] == PrimType::Nat);
    assert(kinds[primitive_position(PrimType::Nat8)] == PrimType::Nat8);
    assert(kinds[primitive_position(PrimType::Nat16)] == PrimType::Nat16);
    assert(kinds[primitive_position(PrimType::Nat32)] == PrimType::Nat32);
    assert(kinds[primitive_position(PrimType::Nat64)] == PrimType::Nat64);
    assert(kinds[primitive_position(PrimType::Int)] == PrimType::Int);
    assert(kinds[primitive_position(PrimType::Int8)] == PrimType::Int8);
    assert(kinds[primitive_position(PrimType::Int16)] == PrimType::Int16);
    assert(kinds[primitive_position(PrimType::Int32)] == PrimType::Int32);
    assert(kinds[primitive_position(PrimType::Int64)] == PrimType::Int64);
    assert(kinds[primitive_position(PrimType::Float32)] == PrimType::Float32);
    assert(kinds[primitive_position(PrimType::Float64)] == PrimType::Float64);
    assert(kinds[primitive_position(PrimType::Bool)] == PrimType::Bool);
    assert(kinds[primitive_position(PrimType::Text)] == PrimType::Text);
    assert(kinds[primitive_position(PrimType::Null)] == PrimType::Null);
    assert(kinds[primitive_position(PrimType::Reserved)] == PrimType::Reserved);
    assert(kinds[primitive_position(PrimType::Empty)] == PrimType::Empty);
    assert(kinds =~= all_primitives());
}

pub fn keyword_completion_items() -> (items: Vec<CompletionItem>)
    ensures
        items.deep_view() == keyword_items(),
{
    let kinds = keyword_kinds();
    proof {
        lemma_keyword_kinds(kinds@);
    }
    let mut items: Vec<CompletionItem> = Vec::new();
    assert(items.deep_view() =~= Seq::empty());
    let mut i: usize = 0;
    while i < kinds.len()
        invariant
            i <= kinds.len(),
            kinds@ == all_keywords(),
            items.deep_view() == keyword_items_upto(all_keywords(), i as nat),
        decreases kinds.len() - i,
    {
        match kinds[i] {
            KeywordDoc::Import => {},
            kind => {
                let ghost before = items;
                let item = keyword_completion_item(kind);
                items.push(item);
                assert(items.deep_view() =~= before.deep_view().push(item.deep_view()));
            },
        }
        i += 1;
    }
    items
}

/// The candidates offered at the top level of a document.
pub open spec fn top_level_items() -> Seq<CompletionItemView> {
    seq![
        keyword_item(KeywordDoc::Type),
        keyword_item(KeywordDoc::Service),
        keyword_item(KeywordDoc::Import),
    ]
}

pub fn top_level_completion_items() -> (items: Vec<CompletionItem>)
    ensures
        items.deep_view() == top_level_items(),
{
    let first = keyword_completion_item(KeywordDoc::Type);
    let second = keyword_completion_item(KeywordDoc::Service);
    let third = keyword_completion_item(KeywordDoc::Import);
    let mut items: Vec<CompletionItem> = Vec::new();
    items.push(first);
    items.push(second);
    items.push(third);
    assert(items.deep_view() =~= top_level_items());
    items
}

/// The candidate for a primitive type.
pub open spec fn primitive_item(kind: PrimType) -> CompletionItemView {
    plain_item(
        primitive_text(kind),
        CompletionItemKind::Struct,
        Some("primitive type"@),
        Some(doc_page(primitive_text(kind), primitive_body_text(kind))),
    )
}

/// The candidates for every primitive type.
pub open spec fn primitive_items() -> Seq<CompletionItemView> {
    Seq::new(all_primitives().len(), |i: int| primitive_item(all_primitives()[i]))
}

pub fn primitive_completion_items() -> (items: Vec<CompletionItem>)
    ensures
        items.deep_view() == primitive_items(),
{
    let kinds = primitive_kinds();
    proof {
        lemma_primitive_kinds(kinds@);
    }
    let mut items: Vec<CompletionItem> = Vec::new();
    let mut i: usize = 0;
    while i < kinds.len()
        invariant
            i <= kinds.len(),
            kinds@ == all_primitives(),
            items@.len() == i,
            forall|k: int| 0 <= k < i ==> (#[trigger] items@[k]).deep_view() == primitive_item(kinds@[k]),
        decreases kinds.len() - i,
    {
        let docs = primitive_doc(&kinds[i]);
        items.push(
            build_completion_item(
                primitive_name(&kinds[i]),
                CompletionItemKind::Struct,
                Some("primitive type"),
                Some(docs.as_str()),
            ),
        );
        i += 1;
    }
    assert(items.deep_view() =~= primitive_items());
    items
}

/// The candidate for the `blob` alias.
pub open spec fn blob_item() -> CompletionItemView {
    plain_item(
        "blob"@,
        CompletionItemKind::Struct,
        Some("type alias"@),
        Some(doc_page("blob"@, blob_body_text())),
    )
}

pub fn blob_completion_item() -> (item: CompletionItem)
    ensures
        item.deep_view() == blob_item(),
{
    let docs = blob_doc();
    build_completion_item("blob", CompletionItemKind::Struct, Some("type alias"), Some(docs.as_str()))
}

/// The candidates that do not depend on the document: the keywords, the
/// primitive types and `blob`.
pub open spec fn static_items() -> Seq<CompletionItemView> {
    (keyword_items() + primitive_items()).push(blob_item())
}

/// Appends copies of `more` to `items`.
pub fn extend_items(items: &mut Vec<CompletionItem>, more: &Vec<CompletionItem>)
    ensures
        final(items).deep_view() == old(items).deep_view() + more.deep_view(),
{
    let mut i: usize = 0;
    assert(items.deep_view() =~= old(items).deep_view() + more.deep_view().take(0));
    while i < more.len()
        invariant
            i <= more.len(),
            items.deep_view() == old(items).deep_view() + more.deep_view().take(i as int),
        decreases more.len() - i,
    {
        let ghost before = *items;
        let item = more[i].clone_item();
        items.push(item);
        proof {
            assert(more.deep_view()[i as int] == more@[i as int].deep_view());
            assert(items.deep_view() =~= before.deep_view().push(item.deep_view()));
            assert(more.deep_view().take(i + 1) =~= more.deep_view().take(i as int).push(
                more.deep_view()[i as int],
            ));
            assert(items.deep_view() =~= old(items).deep_view() + more.deep_view().take(i + 1));
        }
        i += 1;
    }
    assert(more.deep_view().take(more.len() as int) =~= more.deep_view());
}

pub fn static_completion_items() -> (items: Vec<CompletionItem>)
    ensures
        items.deep_view() == static_items(),
{
    let mut items = keyword_completion_items();
    let primitives = primitive_completion_items();
    extend_items(&mut items, &primitives);
    let ghost before = items;
    let blob = blob_completion_item();
    items.push(blob);
    assert(items.deep_view() =~= before.deep_view().push(blob.deep_view()));
    items
}

/// The text of a span as a label: without surrounding whitespace. A span
/// that is empty, reaches past the text or holds only whitespace has none.
pub open spec fn label_text_of(text: Seq<char>, span: Span) -> Option<Seq<char>> {
    if span.start >= span.end || span.end > text.len() {
        None
    } else {
        let trimmed = trim_seq(text.subrange(span.start as int, span.end as int));
        if trimmed.len() == 0 {
            None
        } else {
            Some(trimmed)
        }
    }
}

pub fn identifier_text(rope: &Rope, span: &Span) -> (label: Option<String>)
    ensures
        label.deep_view() == label_text_of(rope_text(*rope), *span),
{
    if span.start >= span.end || span.end > rope_len_chars(rope) {
        return None;
    }
    match rope_slice(rope, span.start, span.end) {
        Some(chars) => {
            let trimmed = trim(&chars);
            if trimmed.len() == 0 {
                None
            } else {
                Some(string_of(&trimmed))
            }
        },
        None => None,
    }
}

/// A kind of item, followed by what it belongs to where that is known.
pub open spec fn detail_of(kind: Seq<char>, parent: Option<Seq<char>>) -> Seq<char> {
    match parent {
        Some(parent) => kind + " of "@ + parent,
        None => kind,
    }
}

pub fn detail_with_parent(kind: &str, parent: Option<&String>) -> (detail: Option<String>)
    ensures
        detail is Some,
        detail->0@ == detail_of(
            kind@,
            match parent {
                Some(parent) => Some(parent@),
                None => None,
            },
        ),
{
    match parent {
        Some(parent) => {
            let mut buf: Vec<char> = Vec::new();
            push_str_chars(&mut buf, kind);
            push_str_chars(&mut buf, " of ");
            push_str_chars(&mut buf, parent.as_str());
            assert(buf@ =~= kind@ + " of "@ + parent@);
            Some(string_of(&buf))
        },
        None => Some(kind.to_owned()),
    }
}

} // verus!
