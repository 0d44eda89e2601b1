//! Searches of the document text that recover the spans of names.
//!
//! The syntax tree gives the span of a whole declaration, field or parameter;
//! the span of the name inside it is found by looking for the name's text.
use crate::rope::{rope_slice, rope_text};
use crate::span::Span;
use crate::syntax::{Binding, Label, TypeField};
use crate::text::{
    as_int, char_is_whitespace, chars_eq, chars_of, find_char, find_first, find_last, first_index_of,
    first_match, is_whitespace, last_index_of, last_match, rfind_char, starts_with, starts_with_seq,
    subvec, trim, trim_seq, trim_start, trim_start_seq,
};
use crate::type_display::{decimal_chars, decimal_text};
use ropey::Rope;
use vstd::prelude::*;

verus! {

/// The text that a span covers. A span that is empty, inverted or reaches
/// past the end of the text covers nothing.
pub open spec fn slice_text(text: Seq<char>, span: Span) -> Option<Seq<char>> {
    if span.start < span.end && span.end <= text.len() {
        Some(text.subrange(span.start as int, span.end as int))
    } else {
        None
    }
}

pub fn slice_span(rope: &Rope, span: Span) -> (slice: Option<Vec<char>>)
    ensures
        slice is Some <==> slice_text(rope_text(*rope), span) is Some,
        slice matches Some(v) ==> slice_text(rope_text(*rope), span) == Some(v@) && v@.len()
            == span.end - span.start,
{
    if span.start >= span.end {
        return None;
    }
    rope_slice(rope, span.start, span.end)
}

/// The span of the first occurrence of `needle` inside `span`, or of the last
/// one where `from_end` is set. An empty needle is never found.
pub open spec fn identifier_span(text: Seq<char>, span: Span, needle: Seq<char>, from_end: bool) -> Option<
    Span,
> {
    if needle.len() == 0 {
        None
    } else {
        match slice_text(text, span) {
            None => None,
            Some(slice) => {
                let found = if from_end {
                    last_match(slice, needle)
                } else {
                    first_match(slice, needle)
                };
                match found {
                    None => None,
                    Some(idx) => Some(
                        Span {
                            start: (span.start + idx) as usize,
                            end: (span.start + idx + needle.len()) as usize,
                        },
                    ),
                }
            },
        }
    }
}

/// A span found by `identifier_span` lies inside the searched span and has
/// the needle's length.
pub proof fn lemma_identifier_span_within(text: Seq<char>, span: Span, needle: Seq<char>, from_end: bool)
    ensures
        identifier_span(text, span, needle, from_end) matches Some(found) ==> span.start <= found.start
            && found.start < found.end && found.end <= span.end && found.end <= text.len()
            && found.end - found.start == needle.len() && text.subrange(
            found.start as int,
            found.end as int,
        ) == needle,
{
    if needle.len() > 0 {
        if let Some(slice) = slice_text(text, span) {
            let found = if from_end {
                last_match(slice, needle)
            } else {
                first_match(slice, needle)
            };
            if let Some(idx) = found {
                assert(crate::text::matches_at(slice, needle, idx));
                assert(slice.subrange(idx, idx + needle.len()) =~= text.subrange(
                    span.start + idx,
                    span.start + idx + needle.len(),
                ));
            }
        }
    }
}

pub fn find_identifier_span(rope: &Rope, span: Span, needle: &Vec<char>, from_end: bool) -> (found:
    Option<Span>)
    ensures
        found == identifier_span(rope_text(*rope), span, needle@, from_end),
{
    if needle.len() == 0 {
        return None;
    }
    let slice = match slice_span(rope, span) {
        Some(slice) => slice,
        None => {
            return None;
        },
    };
    let idx = if from_end {
        find_last(&slice, needle)
    } else {
        find_first(&slice, needle)
    };
    match idx {
        None => None,
        Some(idx) => {
            proof {
                lemma_identifier_span_within(rope_text(*rope), span, needle@, from_end);
            }
            let start = span.start + idx;
            Some(Span { start, end: start + needle.len() })
        },
    }
}

/// The offset of the first `ch` inside `span`.
pub open spec fn char_in_span(text: Seq<char>, span: Span, ch: char) -> Option<int> {
    match slice_text(text, span) {
        None => None,
        Some(slice) => match first_index_of(slice, ch) {
            None => None,
            Some(idx) => Some(span.start + idx),
        },
    }
}

pub fn find_char_in_span(rope: &Rope, span: Span, ch: char) -> (found: Option<usize>)
    ensures
        as_int(found) == char_in_span(rope_text(*rope), span, ch),
        found matches Some(pos) ==> span.start <= pos < span.end && pos < rope_text(*rope).len(),
{
    let slice = match slice_span(rope, span) {
        Some(slice) => slice,
        None => {
            return None;
        },
    };
    match find_char(&slice, ch) {
        None => None,
        Some(idx) => Some(span.start + idx),
    }
}

/// Where the arguments of a function type begin: just after its first
/// opening parenthesis, or at its start where it has none.
pub open spec fn args_region_start_of(text: Seq<char>, span: Span) -> int {
    match char_in_span(text, span, '(') {
        Some(pos) => pos + 1,
        None => span.start as int,
    }
}

pub fn args_region_start(rope: &Rope, span: Span) -> (start: usize)
    ensures
        start == args_region_start_of(rope_text(*rope), span),
{
    match find_char_in_span(rope, span, '(') {
        Some(pos) => pos + 1,
        None => span.start,
    }
}

/// The index just after the last `(` or `,` of `s`; zero where it has neither.
pub open spec fn after_last_delimiter(s: Seq<char>) -> int {
    let paren = match last_index_of(s, '(') {
        Some(i) => i + 1,
        None => 0,
    };
    let comma = match last_index_of(s, ',') {
        Some(i) => i + 1,
        None => 0,
    };
    if paren >= comma {
        paren
    } else {
        comma
    }
}

/// The span of a parameter's name. The name is the text between the last
/// delimiter and the last colon of the searched region, without whitespace.
pub open spec fn param_name_span(text: Seq<char>, search: Span) -> Option<Span> {
    match slice_text(text, search) {
        None => None,
        Some(slice) => match last_index_of(slice, ':') {
            None => None,
            Some(colon) => {
                let before = slice.subrange(0, colon);
                let candidate = before.subrange(after_last_delimiter(before), before.len() as int);
                let name = trim_seq(candidate);
                if name.len() == 0 {
                    None
                } else {
                    identifier_span(text, search, name, true)
                }
            },
        },
    }
}

pub fn compute_param_name_span(rope: &Rope, search: Span) -> (found: Option<Span>)
    ensures
        found == param_name_span(rope_text(*rope), search),
{
    let slice = match slice_span(rope, search) {
        Some(slice) => slice,
        None => {
            return None;
        },
    };
    let colon = match rfind_char(&slice, ':') {
        Some(colon) => colon,
        None => {
            return None;
        },
    };
    proof {
        let found = last_index_of(slice@, ':');
        assert(found == Some(colon as int));
        assert(crate::text::is_last_index_of(slice@, ':', colon as int));
    }
    let before = subvec(&slice, 0, colon);
    let paren: usize = match rfind_char(&before, '(') {
        Some(i) => {
            assert(crate::text::is_last_index_of(before@, '(', i as int));
            i + 1
        },
        None => 0,
    };
    let comma: usize = match rfind_char(&before, ',') {
        Some(i) => {
            assert(crate::text::is_last_index_of(before@, ',', i as int));
            i + 1
        },
        None => 0,
    };
    let from = if paren >= comma {
        paren
    } else {
        comma
    };
    let candidate = subvec(&before, from, before.len());
    let name = trim(&candidate);
    if name.len() == 0 {
        return None;
    }
    find_identifier_span(rope, search, &name, true)
}

pub open spec fn is_leading_word_len(s: Seq<char>, k: int) -> bool {
    0 <= k <= s.len() && (forall|i: int| 0 <= i < k ==> !is_whitespace(s[i])) && (k < s.len()
        ==> is_whitespace(s[k]))
}

/// The number of characters of `s` before its first whitespace character.
pub open spec fn leading_word_len(s: Seq<char>) -> int {
    choose|k: int| is_leading_word_len(s, k)
}

/// A length that is the length of the leading word is that length: there is
/// only one.
pub proof fn lemma_leading_word_len_is(s: Seq<char>, k: int)
    requires
        is_leading_word_len(s, k),
    ensures
        leading_word_len(s) == k,
{
    let found = leading_word_len(s);
    if found < k {
        assert(!is_whitespace(s[found]));
    } else if k < found {
        assert(!is_whitespace(s[k]));
    }
}

/// The text of `s` up to its first whitespace character.
pub open spec fn first_word(s: Seq<char>) -> Seq<char> {
    s.subrange(0, leading_word_len(s))
}

pub fn take_first_word(s: &Vec<char>) -> (word: Vec<char>)
    ensures
        word@ == first_word(s@),
{
    let mut i: usize = 0;
    while i < s.len() && !char_is_whitespace(s[i])
        invariant
            i <= s.len(),
            forall|j: int| 0 <= j < i ==> !is_whitespace(s@[j]),
        decreases s.len() - i,
    {
        i += 1;
    }
    proof {
        lemma_leading_word_len_is(s@, i as int);
    }
    subvec(s, 0, i)
}

/// The span of the name of the top-level service: the first word after the
/// `service` keyword, looked for before the first colon of the declaration.
pub open spec fn actor_name_span(text: Seq<char>, actor_span: Span) -> Option<Span> {
    match char_in_span(text, actor_span, ':') {
        None => None,
        Some(colon) => {
            let search = Span { start: actor_span.start, end: colon as usize };
            let head = trim_start_seq(text.subrange(actor_span.start as int, colon));
            if !starts_with_seq(head, "service"@) {
                None
            } else {
                let rest = trim_start_seq(head.subrange("service"@.len() as int, head.len() as int));
                if rest.len() == 0 {
                    None
                } else {
                    identifier_span(text, search, first_word(rest), false)
                }
            }
        },
    }
}

pub fn compute_actor_name_span(rope: &Rope, actor_span: Span) -> (found: Option<Span>)
    ensures
        found == actor_name_span(rope_text(*rope), actor_span),
{
    let colon = match find_char_in_span(rope, actor_span, ':') {
        Some(colon) => colon,
        None => {
            return None;
        },
    };
    let search = Span { start: actor_span.start, end: colon };
    let before = match rope_slice(rope, actor_span.start, colon) {
        Some(before) => before,
        None => {
            return None;
        },
    };
    let head = trim_start(&before);
    let keyword = chars_of("service");
    if !starts_with(&head, &keyword) {
        return None;
    }
    let after = subvec(&head, keyword.len(), head.len());
    let rest = trim_start(&after);
    if rest.len() == 0 {
        return None;
    }
    let name = take_first_word(&rest);
    find_identifier_span(rope, search, &name, false)
}

/// The region in which the name of a declaration is looked for: from the
/// start of the declaration up to the start of its type, or up to the end of
/// the declaration where the type does not start after it.
pub open spec fn name_region(outer: Span, typ: Span) -> Option<Span> {
    let end = if typ.start <= outer.start {
        outer.end
    } else {
        typ.start
    };
    if end <= outer.start {
        None
    } else {
        Some(Span { start: outer.start, end })
    }
}

fn compute_name_region(outer: Span, typ: Span) -> (region: Option<Span>)
    ensures
        region == name_region(outer, typ),
{
    let start = outer.start;
    let mut end = typ.start;
    if end <= start {
        end = outer.end;
    }
    if end <= start {
        return None;
    }
    Some(Span { start, end })
}

/// The span of the identifier of a binding: the last occurrence of its name
/// before its type.
pub open spec fn binding_ident_span(text: Seq<char>, binding: Binding) -> Option<Span> {
    if binding.id@.len() == 0 {
        None
    } else {
        match name_region(binding.span, binding.typ.span) {
            None => None,
            Some(region) => identifier_span(text, region, binding.id@, true),
        }
    }
}

pub fn compute_binding_ident_span(binding: &Binding, rope: &Rope) -> (found: Option<Span>)
    ensures
        found == binding_ident_span(rope_text(*rope), *binding),
{
    let id = chars_of(binding.id.as_str());
    if id.len() == 0 {
        return None;
    }
    match compute_name_region(binding.span, binding.typ.span) {
        None => None,
        Some(region) => find_identifier_span(rope, region, &id, true),
    }
}

/// The name of a field as written in source: the name of a named label, the
/// decimal numeral of a numbered one.
pub open spec fn field_label_name(label: Label) -> Seq<char> {
    match label {
        Label::Named(name) => name@,
        Label::Id(id) => decimal_text(id as nat),
        Label::Unnamed(id) => decimal_text(id as nat),
    }
}

pub fn field_label_chars(label: &Label) -> (name: Vec<char>)
    ensures
        name@ == field_label_name(*label),
{
    match label {
        Label::Named(name) => chars_of(name.as_str()),
        Label::Id(id) => decimal_chars(*id),
        Label::Unnamed(id) => decimal_chars(*id),
    }
}

/// The span of the label of a field: the last occurrence of its name before
/// its type.
pub open spec fn field_label_span(text: Seq<char>, field: TypeField) -> Option<Span> {
    if field_label_name(field.label).len() == 0 {
        None
    } else {
        match name_region(field.span, field.typ.span) {
            None => None,
            Some(region) => identifier_span(text, region, field_label_name(field.label), true),
        }
    }
}

pub fn compute_field_label_span(field: &TypeField, rope: &Rope) -> (found: Option<Span>)
    ensures
        found == field_label_span(rope_text(*rope), *field),
{
    let label = field_label_chars(&field.label);
    if label.len() == 0 {
        return None;
    }
    match compute_name_region(field.span, field.typ.span) {
        None => None,
        Some(region) => find_identifier_span(rope, region, &label, true),
    }
}

/// Whether the text of `span`, without surrounding whitespace, is `needle`.
pub open spec fn span_text_is(text: Seq<char>, span: Span, needle: Seq<char>) -> bool {
    match slice_text(text, span) {
        None => false,
        Some(slice) => trim_seq(slice) == needle,
    }
}

pub fn span_text_eq(rope: &Rope, span: Span, needle: &Vec<char>) -> (same: bool)
    ensures
        same == span_text_is(rope_text(*rope), span, needle@),
{
    match slice_span(rope, span) {
        None => false,
        Some(slice) => {
            let trimmed = trim(&slice);
            chars_eq(&trimmed, needle)
        },
    }
}

} // verus!
