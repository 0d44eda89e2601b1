//! The Markdown shown when the cursor rests on an identifier.
use crate::markdown::{push_snippet_with_docs, MarkdownWriter, MarkdownWriterView};
use crate::navigation::{import_of, find_import, IdentifierInfo, IdentifierInfoView};
use crate::rope::rope_text;
use crate::semantic_analyze::{PrimitiveHover, Semantic, SemanticView};
use crate::span::Span;
use crate::span_search::{slice_span, slice_text};
use crate::symbol_table::ImportKind;
use crate::text::{
    find_char, first_index_of, push_str_chars, string_of, subvec, trim, trim_end, trim_end_seq,
    trim_seq,
};
use crate::type_docs::{
    blob_body_text, blob_doc, doc_page, keyword_body_text, keyword_doc, keyword_text, primitive_body_text,
    primitive_doc, primitive_text,
};
use ropey::Rope;
use vstd::prelude::*;

verus! {

/// The text of a span as a one-line snippet: without surrounding
/// whitespace, and cut after its first line with an ellipsis where it has
/// several. A span without text has no snippet.
pub open spec fn snippet_text(text: Seq<char>, span: Span) -> Option<Seq<char>> {
    match slice_text(text, span) {
        None => None,
        Some(slice) => {
            let trimmed = trim_seq(slice);
            if trimmed.len() == 0 {
                None
            } else {
                match first_index_of(trimmed, '\n') {
                    None => Some(trimmed),
                    Some(end) => Some(trim_end_seq(trimmed.subrange(0, end)) + " \u{2026}"@),
                }
            }
        },
    }
}

/// The one-line snippet of a span: none where the span does not lie in the
/// text or holds nothing but whitespace.
pub fn snippet_from_span(rope: &Rope, span: &Span) -> (snippet: Option<String>)
    ensures
        snippet.deep_view() == snippet_text(rope_text(*rope), *span),
{
    let slice = match slice_span(rope, *span) {
        Some(slice) => slice,
        None => {
            return None;
        },
    };
    let trimmed = trim(&slice);
    if trimmed.len() == 0 {
        return None;
    }
    match find_char(&trimmed, '\n') {
        None => Some(string_of(&trimmed)),
        Some(end) => {
            let first = subvec(&trimmed, 0, end);
            let mut line = trim_end(&first);
            push_str_chars(&mut line, " \u{2026}");
            Some(string_of(&line))
        },
    }
}

/// What a hover shows first, by the kind of identifier under the cursor.
pub enum HoverSubject {
    Param { snippet: String },
    Method { parent: Option<String>, snippet: String, docs: Option<String> },
    Actor { snippet: String, docs: Option<String> },
    Field { parent: Option<String>, snippet: String, docs: Option<String> },
    TypeDoc { definition: String, docs: Option<String> },
    Ident { snippet: String },
    Nothing,
}

pub enum HoverSubjectView {
    Param { snippet: Seq<char> },
    Method { parent: Option<Seq<char>>, snippet: Seq<char>, docs: Option<Seq<char>> },
    Actor { snippet: Seq<char>, docs: Option<Seq<char>> },
    Field { parent: Option<Seq<char>>, snippet: Seq<char>, docs: Option<Seq<char>> },
    TypeDoc { definition: Seq<char>, docs: Option<Seq<char>> },
    Ident { snippet: Seq<char> },
    Nothing,
}

impl DeepView for HoverSubject {
    type V = HoverSubjectView;

    open spec fn deep_view(&self) -> HoverSubjectView {
        match self {
            HoverSubject::Param { snippet } => HoverSubjectView::Param { snippet: snippet@ },
            HoverSubject::Method { parent, snippet, docs } => HoverSubjectView::Method {
                parent: parent.deep_view(),
                snippet: snippet@,
                docs: docs.deep_view(),
            },
            HoverSubject::Actor { snippet, docs } => HoverSubjectView::Actor {
                snippet: snippet@,
                docs: docs.deep_view(),
            },
            HoverSubject::Field { parent, snippet, docs } => HoverSubjectView::Field {
                parent: parent.deep_view(),
                snippet: snippet@,
                docs: docs.deep_view(),
            },
            HoverSubject::TypeDoc { definition, docs } => HoverSubjectView::TypeDoc {
                definition: definition@,
                docs: docs.deep_view(),
            },
            HoverSubject::Ident { snippet } => HoverSubjectView::Ident { snippet: snippet@ },
            HoverSubject::Nothing => HoverSubjectView::Nothing,
        }
    }
}

/// The subject of a parameter: the text of the parameter.
pub open spec fn param_subject(sem: SemanticView, text: Seq<char>, info: IdentifierInfoView) -> Option<
    HoverSubjectView,
> {
    match info.param {
        Some(param) => if param.id.0 < sem.params.len() {
            match snippet_text(text, sem.params[param.id.0 as int].span) {
                Some(snippet) => Some(HoverSubjectView::Param { snippet }),
                None => None,
            }
        } else {
            None
        },
        None => None,
    }
}

/// The subject of a service method: its text, its service and its documentation.
pub open spec fn method_subject(sem: SemanticView, text: Seq<char>, info: IdentifierInfoView) -> Option<
    HoverSubjectView,
> {
    match info.service_method {
        Some(method) => if method.id.0 < sem.service_methods.len() {
            let metadata = sem.service_methods[method.id.0 as int];
            match snippet_text(text, metadata.span) {
                Some(snippet) => Some(
                    HoverSubjectView::Method {
                        parent: metadata.parent_name,
                        snippet,
                        docs: metadata.docs,
                    },
                ),
                None => None,
            }
        } else {
            None
        },
        None => None,
    }
}

/// The subject of the actor: its rendered declaration, or else its text.
pub open spec fn actor_subject(sem: SemanticView, text: Seq<char>, info: IdentifierInfoView) -> Option<
    HoverSubjectView,
> {
    if info.actor is Some {
        match sem.actor {
            Some(actor) => match actor.definition {
                Some(definition) => Some(
                    HoverSubjectView::Actor { snippet: definition, docs: actor.docs },
                ),
                None => match snippet_text(text, actor.span) {
                    Some(snippet) => Some(HoverSubjectView::Actor { snippet, docs: actor.docs }),
                    None => None,
                },
            },
            None => None,
        }
    } else {
        None
    }
}

/// The subject of a field: its text, its record or variant and its documentation.
pub open spec fn field_subject(sem: SemanticView, text: Seq<char>, info: IdentifierInfoView) -> Option<
    HoverSubjectView,
> {
    match info.field {
        Some(field) => if field.id.0 < sem.fields.len() {
            let metadata = sem.fields[field.id.0 as int];
            match snippet_text(text, metadata.span) {
                Some(snippet) => Some(
                    HoverSubjectView::Field {
                        parent: metadata.parent_name,
                        snippet,
                        docs: metadata.docs,
                    },
                ),
                None => None,
            }
        } else {
            None
        },
        None => None,
    }
}

/// The subject of a declared type: its rendered definition and documentation.
pub open spec fn type_doc_subject(sem: SemanticView, info: IdentifierInfoView) -> Option<HoverSubjectView> {
    match info.symbol_id {
        Some(symbol) => if symbol.0 < sem.type_docs.len() {
            match sem.type_docs[symbol.0 as int] {
                Some(doc) => Some(
                    HoverSubjectView::TypeDoc { definition: doc.definition, docs: doc.docs },
                ),
                None => None,
            }
        } else {
            None
        },
        None => None,
    }
}

/// What a hover over the identifier shows first: the first that applies of
/// parameter, service method, actor, field and declared type, or else the
/// identifier's own text.
pub open spec fn subject_of(sem: SemanticView, text: Seq<char>, info: IdentifierInfoView) -> HoverSubjectView {
    if let Some(subject) = param_subject(sem, text, info) {
        subject
    } else if let Some(subject) = method_subject(sem, text, info) {
        subject
    } else if let Some(subject) = actor_subject(sem, text, info) {
        subject
    } else if let Some(subject) = field_subject(sem, text, info) {
        subject
    } else if let Some(subject) = type_doc_subject(sem, info) {
        subject
    } else {
        match snippet_text(text, info.ident_span) {
            Some(snippet) => HoverSubjectView::Ident { snippet },
            None => HoverSubjectView::Nothing,
        }
    }
}

fn clone_opt(text: &Option<String>) -> (copy: Option<String>)
    ensures
        copy.deep_view() == text.deep_view(),
{
    match text {
        Some(s) => Some(s.clone()),
        None => None,
    }
}

pub fn extract_subject(rope: &Rope, semantic: &Semantic, info: &IdentifierInfo) -> (subject: HoverSubject)
    ensures
        subject.deep_view() == subject_of(semantic.deep_view(), rope_text(*rope), info.deep_view()),
{
    let ghost sem = semantic.deep_view();
    match &info.param {
        Some(param) => {
            if param.id.0 < semantic.params.len() {
                match snippet_from_span(rope, &semantic.params[param.id.0].span) {
                    Some(snippet) => {
                        return HoverSubject::Param { snippet };
                    },
                    None => {},
                }
            }
        },
        None => {},
    }
    match &info.service_method {
        Some(method) => {
            if method.id.0 < semantic.service_methods.len() {
                let metadata = &semantic.service_methods[method.id.0];
                assert(sem.service_methods[method.id.0 as int] == metadata.deep_view());
                match snippet_from_span(rope, &metadata.span) {
                    Some(snippet) => {
                        return HoverSubject::Method {
                            parent: clone_opt(&metadata.parent_name),
                            snippet,
                            docs: clone_opt(&metadata.docs),
                        };
                    },
                    None => {},
                }
            }
        },
        None => {},
    }
    if info.actor.is_some() {
        match &semantic.actor {
            Some(actor) => {
                match &actor.definition {
                    Some(definition) => {
                        return HoverSubject::Actor {
                            snippet: definition.clone(),
                            docs: clone_opt(&actor.docs),
                        };
                    },
                    None => {},
                }
                match snippet_from_span(rope, &actor.span) {
                    Some(snippet) => {
                        return HoverSubject::Actor { snippet, docs: clone_opt(&actor.docs) };
                    },
                    None => {},
                }
            },
            None => {},
        }
    }
    match &info.field {
        Some(field) => {
            if field.id.0 < semantic.fields.len() {
                let metadata = &semantic.fields[field.id.0];
                assert(sem.fields[field.id.0 as int] == metadata.deep_view());
                match snippet_from_span(rope, &metadata.span) {
                    Some(snippet) => {
                        return HoverSubject::Field {
                            parent: clone_opt(&metadata.parent_name),
                            snippet,
                            docs: clone_opt(&metadata.docs),
                        };
                    },
                    None => {},
                }
            }
        },
        None => {},
    }
    match info.symbol_id {
        Some(symbol) => {
            if symbol.0 < semantic.type_docs.len() {
                assert(sem.type_docs[symbol.0 as int] == semantic.type_docs@[symbol.0 as int].deep_view());
                match &semantic.type_docs[symbol.0] {
                    Some(doc) => {
                        return HoverSubject::TypeDoc {
                            definition: doc.definition.clone(),
                            docs: clone_opt(&doc.docs),
                        };
                    },
                    None => {},
                }
            }
        },
        None => {},
    }
    match snippet_from_span(rope, &info.ident_span) {
        Some(snippet) => HoverSubject::Ident { snippet },
        None => HoverSubject::Nothing,
    }
}

impl MarkdownWriterView {
    pub open spec fn push_code_block_opt(self, snippet: Option<Seq<char>>) -> MarkdownWriterView {
        match snippet {
            Some(snippet) => self.push_code_block(snippet),
            None => self,
        }
    }

    /// The sections of a subject: a method or field is headed by the name of
    /// what it belongs to; documentation follows the snippet after a rule.
    pub open spec fn push_subject(self, subject: HoverSubjectView) -> MarkdownWriterView {
        match subject {
            HoverSubjectView::Param { snippet } => self.push_code_block(snippet),
            HoverSubjectView::Method { parent, snippet, docs } => self.push_code_block_opt(
                parent,
            ).push_snippet_with_docs(snippet, docs),
            HoverSubjectView::Actor { snippet, docs } => self.push_snippet_with_docs(snippet, docs),
            HoverSubjectView::Field { parent, snippet, docs } => self.push_code_block_opt(
                parent,
            ).push_snippet_with_docs(snippet, docs),
            HoverSubjectView::TypeDoc { definition, docs } => self.push_snippet_with_docs(
                definition,
                docs,
            ),
            HoverSubjectView::Ident { snippet } => self.push_code_block(snippet),
            HoverSubjectView::Nothing => self,
        }
    }

    pub open spec fn push_text_opt(self, text: Option<Seq<char>>) -> MarkdownWriterView {
        match text {
            Some(text) => self.push_text(text),
            None => self,
        }
    }
}

/// The documentation page of a built-in type name.
pub open spec fn primitive_page(kind: PrimitiveHover) -> Seq<char> {
    match kind {
        PrimitiveHover::Prim(prim) => doc_page(primitive_text(prim), primitive_body_text(prim)),
        PrimitiveHover::Blob => doc_page("blob"@, blob_body_text()),
    }
}

/// The sentence that says where an imported symbol comes from.
pub open spec fn import_text(kind: ImportKind, path: Seq<char>) -> Seq<char> {
    "Imported "@ + (match kind {
        ImportKind::Type => "type"@,
        ImportKind::Service => "service"@,
    }) + " from `"@ + path + "`"@
}

/// The sentence about the import that declares the identifier's symbol.
pub open spec fn import_note(sem: SemanticView, info: IdentifierInfoView) -> Option<Seq<char>> {
    match info.symbol_id {
        Some(symbol) => match import_of(sem.table.imports, symbol) {
            Some(entry) => Some(import_text(entry.kind, entry.path)),
            None => None,
        },
        None => None,
    }
}

/// The line that names the definition where nothing else was shown.
pub open spec fn definition_note(text: Seq<char>, info: IdentifierInfoView, empty: bool) -> Option<
    Seq<char>,
> {
    match info.definition_span {
        Some(span) => if empty && span != info.ident_span {
            match snippet_text(text, span) {
                Some(snippet) => Some("Definition: `"@ + snippet + "`"@),
                None => None,
            }
        } else {
            None
        },
        None => None,
    }
}

/// The Markdown of a hover. A built-in type name or a keyword shows its
/// documentation page only; every other identifier shows its subject. Then
/// comes the note about an import, and where nothing was shown so far, the
/// definition.
pub open spec fn hover_markdown(sem: SemanticView, text: Seq<char>, info: IdentifierInfoView) -> Option<
    Seq<char>,
> {
    let subject = if info.primitive is Some || info.keyword is Some {
        MarkdownWriterView::empty()
    } else {
        MarkdownWriterView::empty().push_subject(subject_of(sem, text, info))
    };
    let references = subject.push_text_opt(
        match info.primitive {
            Some(kind) => Some(primitive_page(kind)),
            None => None,
        },
    ).push_text_opt(
        match info.keyword {
            Some(keyword) => Some(doc_page(keyword_text(keyword), keyword_body_text(keyword))),
            None => None,
        },
    ).push_text_opt(import_note(sem, info));
    references.push_text_opt(definition_note(text, info, references.sections == 0)).finish()
}

fn push_code_block_opt(writer: &mut MarkdownWriter, snippet: &Option<String>)
    ensures
        final(writer)@ == old(writer)@.push_code_block_opt(snippet.deep_view()),
{
    match snippet {
        Some(snippet) => writer.push_code_block(snippet.as_str()),
        None => {},
    }
}

fn push_with_docs(writer: &mut MarkdownWriter, snippet: &String, docs: &Option<String>)
    ensures
        final(writer)@ == old(writer)@.push_snippet_with_docs(snippet@, docs.deep_view()),
{
    match docs {
        Some(docs) => push_snippet_with_docs(writer, snippet.as_str(), Some(docs.as_str())),
        None => push_snippet_with_docs(writer, snippet.as_str(), None),
    }
}

fn collect_subject_sections(writer: &mut MarkdownWriter, subject: &HoverSubject)
    ensures
        final(writer)@ == old(writer)@.push_subject(subject.deep_view()),
{
    match subject {
        HoverSubject::Param { snippet } => {
            writer.push_code_block(snippet.as_str());
        },
        HoverSubject::Method { parent, snippet, docs } => {
            push_code_block_opt(writer, parent);
            push_with_docs(writer, snippet, docs);
        },
        HoverSubject::Actor { snippet, docs } => {
            push_with_docs(writer, snippet, docs);
        },
        HoverSubject::Field { parent, snippet, docs } => {
            push_code_block_opt(writer, parent);
            push_with_docs(writer, snippet, docs);
        },
        HoverSubject::TypeDoc { definition, docs } => {
            push_with_docs(writer, definition, docs);
        },
        HoverSubject::Ident { snippet } => {
            writer.push_code_block(snippet.as_str());
        },
        HoverSubject::Nothing => {},
    }
}

fn import_sentence(kind: ImportKind, path: &str) -> (sentence: String)
    ensures
        sentence@ == import_text(kind, path@),
{
    let mut buf: Vec<char> = Vec::new();
    push_str_chars(&mut buf, "Imported ");
    match kind {
        ImportKind::Type => push_str_chars(&mut buf, "type"),
        ImportKind::Service => push_str_chars(&mut buf, "service"),
    }
    push_str_chars(&mut buf, " from `");
    push_str_chars(&mut buf, path);
    push_str_chars(&mut buf, "`");
    assert(buf@ =~= import_text(kind, path@));
    string_of(&buf)
}

/// Compose the hover text for an identifier.
pub fn hover_contents(rope: &Rope, semantic: &Semantic, info: &IdentifierInfo) -> (contents: Option<
    String,
>)
    ensures
        contents.deep_view() == hover_markdown(
            semantic.deep_view(),
            rope_text(*rope),
            info.deep_view(),
        ),
{
    let mut writer = MarkdownWriter::new();
    if !(info.primitive.is_some() || info.keyword.is_some()) {
        let subject = extract_subject(rope, semantic, info);
        collect_subject_sections(&mut writer, &subject);
    }
    match &info.primitive {
        Some(PrimitiveHover::Prim(kind)) => {
            let page = primitive_doc(kind);
            writer.push_text(page.as_str());
        },
        Some(PrimitiveHover::Blob) => {
            let page = blob_doc();
            writer.push_text(page.as_str());
        },
        None => {},
    }
    match info.keyword {
        Some(keyword) => {
            match keyword_doc(keyword) {
                Some(page) => {
                    writer.push_text(page.as_str());
                },
                None => {},
            }
        },
        None => {},
    }
    match info.symbol_id {
        Some(symbol) => {
            match find_import(&semantic.table.imports, symbol) {
                Some(entry) => {
                    let sentence = import_sentence(entry.kind, entry.path.as_str());
                    writer.push_text(sentence.as_str());
                },
                None => {},
            }
        },
        None => {},
    }
    match info.definition_span {
        Some(span) => {
            let same = span.start == info.ident_span.start && span.end == info.ident_span.end;
            if writer.is_empty() && !same {
                match snippet_from_span(rope, &span) {
                    Some(snippet) => {
                        let mut buf: Vec<char> = Vec::new();
                        push_str_chars(&mut buf, "Definition: `");
                        push_str_chars(&mut buf, snippet.as_str());
                        push_str_chars(&mut buf, "`");
                        assert(buf@ =~= "Definition: `"@ + snippet@ + "`"@);
                        let line = string_of(&buf);
                        writer.push_text(line.as_str());
                    },
                    None => {},
                }
            }
        },
        None => {},
    }
    writer.finish()
}

} // verus!
