//! Answers to position-based requests, from an offset into the document.
use crate::hover::{hover_contents, hover_markdown};
use crate::ident_index::index_intervals;
use crate::navigation::{is_lookup_result, lookup_identifier, IdentifierInfoView};
use crate::position::{position_of, span_to_range, Range};
use crate::rope::rope_text;
use crate::semantic_analyze::Semantic;
use crate::span::Span;
use ropey::Rope;
use vstd::prelude::*;

verus! {

/// The answer to a hover request: Markdown, and the range it is about.
#[derive(Clone, Debug)]
pub struct Hover {
    pub contents: String,
    pub range: Option<Range>,
}

pub open spec fn span_in_text(span: Span, text: Seq<char>) -> bool {
    span.start <= text.len() && span.end <= text.len()
}

pub open spec fn range_of(span: Span, text: Seq<char>) -> Range {
    Range { start: position_of(text, span.start as int), end: position_of(text, span.end as int) }
}

/// Answer a hover request at an offset. There is an answer where the
/// lookup finds an identifier whose span lies in the text and of which
/// there is something to show.
pub fn hover_at_offset(rope: &Rope, semantic: &Semantic, offset: usize) -> (hover: Option<Hover>)
    ensures
        exists|info: Option<IdentifierInfoView>|
            #![trigger is_lookup_result(semantic.deep_view(), index_intervals(semantic.ident_range), offset, info)]
            is_lookup_result(semantic.deep_view(), index_intervals(semantic.ident_range), offset, info)
                && match info {
                Some(found) => if span_in_text(found.ident_span, rope_text(*rope)) {
                    match hover_markdown(semantic.deep_view(), rope_text(*rope), found) {
                        Some(markdown) => hover matches Some(answer) && answer.contents@ == markdown
                            && answer.range == Some(range_of(found.ident_span, rope_text(*rope))),
                        None => hover is None,
                    }
                } else {
                    hover is None
                },
                None => hover is None,
            },
{
    let info = match lookup_identifier(semantic, offset) {
        Some(info) => info,
        None => {
            return None;
        },
    };
    let hover_range = match span_to_range(&info.ident_span, rope) {
        Some(range) => range,
        None => {
            return None;
        },
    };
    let contents = match hover_contents(rope, semantic, &info) {
        Some(contents) => contents,
        None => {
            return None;
        },
    };
    Some(Hover { contents, range: Some(hover_range) })
}

/// Answer a definition request at an offset: the range of the definition
/// of the identifier found there, where it has one that lies in the text.
pub fn definition_at_offset(rope: &Rope, semantic: &Semantic, offset: usize) -> (definition: Option<
    Range,
>)
    ensures
        exists|info: Option<IdentifierInfoView>|
            #![trigger is_lookup_result(semantic.deep_view(), index_intervals(semantic.ident_range), offset, info)]
            is_lookup_result(semantic.deep_view(), index_intervals(semantic.ident_range), offset, info)
                && definition == (match info {
                Some(found) => match found.definition_span {
                    Some(span) => if span_in_text(span, rope_text(*rope)) {
                        Some(range_of(span, rope_text(*rope)))
                    } else {
                        None
                    },
                    None => None,
                },
                None => None,
            }),
{
    let info = match lookup_identifier(semantic, offset) {
        Some(info) => info,
        None => {
            assert(is_lookup_result(
                semantic.deep_view(),
                index_intervals(semantic.ident_range),
                offset,
                None,
            ));
            return None;
        },
    };
    assert(is_lookup_result(
        semantic.deep_view(),
        index_intervals(semantic.ident_range),
        offset,
        Some(info.deep_view()),
    ));
    match info.definition_span {
        Some(span) => span_to_range(&span, rope),
        None => None,
    }
}

} // verus!
