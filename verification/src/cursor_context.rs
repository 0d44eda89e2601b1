//! The lexical state of the text before the cursor, and the completion
//! context that it suggests.
use crate::context_spans::CompletionContext;
use crate::rope::{
    rope_char_to_line, rope_len_chars, rope_len_lines, rope_line_to_char, rope_slice, rope_text,
    text_line_count, text_line_of_char, text_line_start,
};
use crate::text::{
    as_int, char_is_word, chars_of, ends_with, ends_with_seq, has_match_at, is_word_char,
    last_index_of, matches_at, rfind_char, starts_with, starts_with_seq, string_of, subvec, trim,
    trim_end, trim_end_seq, trim_seq, trim_start, trim_start_seq, is_last_index_of,
};
use ropey::Rope;
use vstd::prelude::*;

verus! {

/// What a scan of the text before the cursor knows at its end.
#[derive(Clone, Copy, Debug, PartialEq, Eq, Structural)]
pub struct CursorScanState {
    /// The number of braces opened and not yet closed.
    pub depth: usize,
    pub in_line_comment: bool,
    pub in_block_comment: bool,
    pub in_string: bool,
}

impl CursorScanState {
    pub open spec fn initial() -> CursorScanState {
        CursorScanState { depth: 0, in_line_comment: false, in_block_comment: false, in_string: false }
    }

    pub open spec fn spec_is_top_level(self) -> bool {
        self.depth == 0 && !self.in_block_comment && !self.in_string && !self.in_line_comment
    }

    pub open spec fn spec_in_comment(self) -> bool {
        self.in_block_comment || self.in_line_comment
    }

    /// The state at the start of a text.
    pub fn new() -> (state: CursorScanState)
        ensures
            state == CursorScanState::initial(),
    {
        CursorScanState { depth: 0, in_line_comment: false, in_block_comment: false, in_string: false }
    }

    pub fn is_top_level(&self) -> (top: bool)
        ensures
            top == self.spec_is_top_level(),
    {
        self.depth == 0 && !self.in_block_comment && !self.in_string && !self.in_line_comment
    }

    pub fn in_comment(&self) -> (comment: bool)
        ensures
            comment == self.spec_in_comment(),
    {
        self.in_block_comment || self.in_line_comment
    }
}

pub open spec fn char_at_is(text: Seq<char>, i: int, c: char) -> bool {
    0 <= i < text.len() && text[i] == c
}

/// The state after the characters of `text` from index `i` on, starting in
/// state `st`. Inside a string a backslash escapes the next character and an
/// unescaped quote ends the string; a line comment ends at a line feed; a
/// block comment ends at `*/`. Elsewhere a quote opens a string, `//` and
/// `/*` open comments, and braces raise and lower the depth, which never
/// falls below zero.
pub open spec fn scan_from(text: Seq<char>, i: int, st: CursorScanState, escape: bool) -> CursorScanState
    decreases text.len() - i,
{
    if i < 0 || i >= text.len() {
        st
    } else if st.in_string {
        if escape {
            scan_from(text, i + 1, st, false)
        } else if text[i] == '\\' {
            scan_from(text, i + 1, st, true)
        } else if text[i] == '"' {
            scan_from(text, i + 1, CursorScanState { in_string: false, ..st }, escape)
        } else {
            scan_from(text, i + 1, st, escape)
        }
    } else if st.in_line_comment {
        if text[i] == '\n' {
            scan_from(text, i + 1, CursorScanState { in_line_comment: false, ..st }, escape)
        } else {
            scan_from(text, i + 1, st, escape)
        }
    } else if st.in_block_comment {
        if text[i] == '*' && char_at_is(text, i + 1, '/') {
            scan_from(text, i + 2, CursorScanState { in_block_comment: false, ..st }, escape)
        } else {
            scan_from(text, i + 1, st, escape)
        }
    } else if text[i] == '"' {
        scan_from(text, i + 1, CursorScanState { in_string: true, ..st }, escape)
    } else if text[i] == '/' {
        if char_at_is(text, i + 1, '/') {
            scan_from(text, i + 2, CursorScanState { in_line_comment: true, ..st }, escape)
        } else if char_at_is(text, i + 1, '*') {
            scan_from(text, i + 2, CursorScanState { in_block_comment: true, ..st }, escape)
        } else {
            scan_from(text, i + 1, st, escape)
        }
    } else if text[i] == '{' {
        scan_from(
            text,
            i + 1,
            CursorScanState {
                depth: if st.depth < usize::MAX {
                    (st.depth + 1) as usize
                } else {
                    st.depth
                },
                ..st
            },
            escape,
        )
    } else if text[i] == '}' {
        scan_from(
            text,
            i + 1,
            CursorScanState {
                depth: if st.depth > 0 {
                    (st.depth - 1) as usize
                } else {
                    st.depth
                },
                ..st
            },
            escape,
        )
    } else {
        scan_from(text, i + 1, st, escape)
    }
}

/// The state at the end of `text`, scanned from its start.
pub open spec fn scan_state(text: Seq<char>) -> CursorScanState {
    scan_from(text, 0, CursorScanState::initial(), false)
}

pub fn scan_chars(text: &Vec<char>) -> (state: CursorScanState)
    ensures
        state == scan_state(text@),
{
    let mut state = CursorScanState::new();
    let mut escape = false;
    let len = text.len();
    let mut i: usize = 0;
    while i < len
        invariant
            len == text.len(),
            i <= len,
            scan_from(text@, i as int, state, escape) == scan_state(text@),
        decreases len - i,
    {
        let ch = text[i];
        let followed = i + 1 < len;
        if state.in_string {
            if escape {
                escape = false;
            } else if ch == '\\' {
                escape = true;
            } else if ch == '"' {
                state.in_string = false;
            }
            i += 1;
        } else if state.in_line_comment {
            if ch == '\n' {
                state.in_line_comment = false;
            }
            i += 1;
        } else if state.in_block_comment {
            if ch == '*' && followed && text[i + 1] == '/' {
                state.in_block_comment = false;
                i += 2;
            } else {
                i += 1;
            }
        } else if ch == '"' {
            state.in_string = true;
            i += 1;
        } else if ch == '/' {
            if followed && text[i + 1] == '/' {
                state.in_line_comment = true;
                i += 2;
            } else if followed && text[i + 1] == '*' {
                state.in_block_comment = true;
                i += 2;
            } else {
                i += 1;
            }
        } else if ch == '{' {
            if state.depth < usize::MAX {
                state.depth += 1;
            }
            i += 1;
        } else if ch == '}' {
            if state.depth > 0 {
                state.depth -= 1;
            }
            i += 1;
        } else {
            i += 1;
        }
    }
    state
}

/// Scan the text before the cursor.
pub fn cursor_scan_state_from_text(text: &str) -> (state: CursorScanState)
    ensures
        state == scan_state(text@),
{
    let chars = chars_of(text);
    scan_chars(&chars)
}

/// The index of the last `{` of `text`, where no `}` follows it.
pub open spec fn unclosed_brace(text: Seq<char>) -> Option<int> {
    match last_index_of(text, '{') {
        None => None,
        Some(open) => match last_index_of(text, '}') {
            Some(close) => if close > open {
                None
            } else {
                Some(open)
            },
            None => Some(open),
        },
    }
}

fn find_unclosed_brace(text: &Vec<char>) -> (open: Option<usize>)
    ensures
        as_int(open) == unclosed_brace(text@),
        open matches Some(o) ==> o < text@.len(),
{
    let open = match rfind_char(text, '{') {
        Some(open) => open,
        None => {
            return None;
        },
    };
    assert(is_last_index_of(text@, '{', open as int));
    match rfind_char(text, '}') {
        Some(close) => if close > open {
            None
        } else {
            Some(open)
        },
        None => Some(open),
    }
}

/// Whether the cursor is inside an unclosed block that `record` or `variant` opens.
pub open spec fn inside_record_variant_block(text: Seq<char>) -> bool {
    match unclosed_brace(text) {
        None => false,
        Some(open) => {
            let prefix = trim_end_seq(text.subrange(0, open));
            ends_with_seq(prefix, "record"@) || ends_with_seq(prefix, "variant"@)
        },
    }
}

pub fn inside_record_variant_block_chars(text: &Vec<char>) -> (inside: bool)
    ensures
        inside == inside_record_variant_block(text@),
{
    match find_unclosed_brace(text) {
        None => false,
        Some(open) => {
            let head = subvec(text, 0, open);
            let prefix = trim_end(&head);
            let record = chars_of("record");
            let variant = chars_of("variant");
            ends_with(&prefix, &record) || ends_with(&prefix, &variant)
        },
    }
}

pub fn inside_record_variant_block_from_text(text: &str) -> (inside: bool)
    ensures
        inside == inside_record_variant_block(text@),
{
    let chars = chars_of(text);
    inside_record_variant_block_chars(&chars)
}

/// Whether the occurrence of `keyword` at `at` is a word of its own: no
/// letter, digit or underscore stands directly before or after it.
pub open spec fn word_bounded(text: Seq<char>, keyword: Seq<char>, at: int) -> bool {
    (at <= 0 || !is_word_char(text[at - 1])) && (at + keyword.len() >= text.len() || !is_word_char(
        text[at + keyword.len()],
    ))
}

/// Whether, from index `i` on, some occurrence of `keyword` is a word of
/// its own. After an occurrence that is not, the search goes on behind it.
pub open spec fn keyword_from(text: Seq<char>, keyword: Seq<char>, i: int) -> bool
    decreases text.len() - i,
{
    if keyword.len() == 0 || i < 0 || i + keyword.len() > text.len() {
        false
    } else if matches_at(text, keyword, i) {
        if word_bounded(text, keyword, i) {
            true
        } else {
            keyword_from(text, keyword, i + keyword.len())
        }
    } else {
        keyword_from(text, keyword, i + 1)
    }
}

/// Whether `keyword` occurs in `text` as a word of its own.
pub open spec fn has_keyword(text: Seq<char>, keyword: Seq<char>) -> bool {
    keyword_from(text, keyword, 0)
}

pub fn contains_keyword_chars(text: &Vec<char>, keyword: &Vec<char>) -> (found: bool)
    requires
        keyword@.len() > 0,
    ensures
        found == has_keyword(text@, keyword@),
{
    let n = keyword.len();
    let len = text.len();
    if n > len {
        return false;
    }
    let mut i: usize = 0;
    while i <= len - n
        invariant
            n == keyword.len(),
            len == text.len(),
            0 < n <= len,
            keyword_from(text@, keyword@, i as int) == has_keyword(text@, keyword@),
        decreases len - i,
    {
        if has_match_at(text, keyword, i) {
            let before_ok = i == 0 || !char_is_word(text[i - 1]);
            let after_ok = i + n >= len || !char_is_word(text[i + n]);
            if before_ok && after_ok {
                return true;
            }
            i += n;
        } else {
            i += 1;
        }
    }
    false
}

/// Whether `keyword`, which must not be empty, occurs in `text` as a word of its own.
pub fn contains_keyword(text: &str, keyword: &str) -> (found: bool)
    requires
        keyword@.len() > 0,
    ensures
        found == has_keyword(text@, keyword@),
{
    let chars = chars_of(text);
    let word = chars_of(keyword);
    contains_keyword_chars(&chars, &word)
}

/// Whether the cursor is inside an unclosed block that follows `service`,
/// an optional name and a colon.
pub open spec fn inside_service_block(text: Seq<char>) -> bool {
    match unclosed_brace(text) {
        None => false,
        Some(open) => {
            let prefix = trim_end_seq(text.subrange(0, open));
            match last_index_of(prefix, ':') {
                None => false,
                Some(colon) => if trim_seq(prefix.subrange(colon + 1, prefix.len() as int)).len() != 0 {
                    false
                } else {
                    has_keyword(trim_end_seq(prefix.subrange(0, colon)), "service"@)
                },
            }
        },
    }
}

pub fn inside_service_block_chars(text: &Vec<char>) -> (inside: bool)
    ensures
        inside == inside_service_block(text@),
{
    let open = match find_unclosed_brace(text) {
        Some(open) => open,
        None => {
            return false;
        },
    };
    let head = subvec(text, 0, open);
    let prefix = trim_end(&head);
    let colon = match rfind_char(&prefix, ':') {
        Some(colon) => colon,
        None => {
            return false;
        },
    };
    assert(is_last_index_of(prefix@, ':', colon as int));
    let prefix_len = prefix.len();
    let tail = subvec(&prefix, colon + 1, prefix_len);
    if trim(&tail).len() != 0 {
        return false;
    }
    let before = subvec(&prefix, 0, colon);
    let before_colon = trim_end(&before);
    let keyword = chars_of("service");
    proof {
        reveal_strlit("service");
    }
    contains_keyword_chars(&before_colon, &keyword)
}

pub fn inside_service_block_from_text(text: &str) -> (inside: bool)
    ensures
        inside == inside_service_block(text@),
{
    let chars = chars_of(text);
    inside_service_block_chars(&chars)
}

/// The lexical facts about a cursor position that the heuristic works from.
#[derive(Clone, Debug)]
pub struct CursorContext {
    /// The cursor offset, cut to the length of the text.
    pub clamped: usize,
    pub rope_len: usize,
    /// Where the cursor's line starts.
    pub line_start: usize,
    /// The text of the cursor's line before the cursor, without trailing whitespace.
    pub trimmed_line: String,
    pub cursor_state: CursorScanState,
    pub inside_record_variant_block: bool,
    pub inside_service_block: bool,
}

pub struct CursorContextView {
    pub clamped: usize,
    pub rope_len: usize,
    pub line_start: usize,
    pub trimmed_line: Seq<char>,
    pub cursor_state: CursorScanState,
    pub inside_record_variant_block: bool,
    pub inside_service_block: bool,
}

impl View for CursorContext {
    type V = CursorContextView;

    open spec fn view(&self) -> CursorContextView {
        CursorContextView {
            clamped: self.clamped,
            rope_len: self.rope_len,
            line_start: self.line_start,
            trimmed_line: self.trimmed_line@,
            cursor_state: self.cursor_state,
            inside_record_variant_block: self.inside_record_variant_block,
            inside_service_block: self.inside_service_block,
        }
    }
}

/// The line of the cursor: line zero in an empty text, the last line at the
/// end of the text, and the line of the character under the cursor otherwise.
pub open spec fn cursor_line(text: Seq<char>, clamped: int) -> int {
    let last = text_line_count(text) - 1;
    let line = if text.len() == 0 {
        0
    } else if clamped == text.len() {
        last
    } else {
        text_line_of_char(text, clamped)
    };
    if line <= last {
        line
    } else {
        last
    }
}

/// The lexical facts about the position `offset` of `text`.
pub open spec fn cursor_context_of(text: Seq<char>, offset: usize) -> CursorContextView {
    let clamped = if offset <= text.len() {
        offset as int
    } else {
        text.len() as int
    };
    let line_start = text_line_start(text, cursor_line(text, clamped));
    let prefix = text.subrange(0, clamped);
    CursorContextView {
        clamped: clamped as usize,
        rope_len: text.len() as usize,
        line_start: line_start as usize,
        trimmed_line: if clamped >= line_start && line_start >= 0 {
            trim_end_seq(text.subrange(line_start, clamped))
        } else {
            Seq::empty()
        },
        cursor_state: scan_state(prefix),
        inside_record_variant_block: inside_record_variant_block(prefix),
        inside_service_block: inside_service_block(prefix),
    }
}

impl CursorContext {
    /// What the text before an offset tells of the cursor. An offset past the
    /// end counts as the end.
    pub fn new(rope: &Rope, offset: usize) -> (context: CursorContext)
        ensures
            context@ == cursor_context_of(rope_text(*rope), offset),
    {
        let rope_len = rope_len_chars(rope);
        let clamped = if offset <= rope_len {
            offset
        } else {
            rope_len
        };
        let total_lines = rope_len_lines(rope);
        let last_line_index = total_lines - 1;
        let line_index = if rope_len == 0 {
            0
        } else if clamped == rope_len {
            last_line_index
        } else {
            match rope_char_to_line(rope, clamped) {
                Some(line) => line,
                None => last_line_index,
            }
        };
        let capped_index = if line_index <= last_line_index {
            line_index
        } else {
            last_line_index
        };
        let line_start = match rope_line_to_char(rope, capped_index) {
            Some(start) => start,
            None => 0,
        };
        let line_prefix: Vec<char> = if clamped >= line_start {
            match rope_slice(rope, line_start, clamped) {
                Some(chars) => chars,
                None => Vec::new(),
            }
        } else {
            Vec::new()
        };
        let trimmed_line = trim_end(&line_prefix);
        let prefix: Vec<char> = match rope_slice(rope, 0, clamped) {
            Some(chars) => chars,
            None => Vec::new(),
        };
        let cursor_state = scan_chars(&prefix);
        let inside_record_variant_block = inside_record_variant_block_chars(&prefix);
        let inside_service_block = inside_service_block_chars(&prefix);
        proof {
            if !(clamped >= line_start) {
                assert(trim_end_seq(Seq::<char>::empty()) =~= Seq::<char>::empty()) by {
                    crate::text::lemma_trailing_ws_is(Seq::<char>::empty(), 0);
                }
            }
        }
        CursorContext {
            clamped,
            rope_len,
            line_start,
            trimmed_line: string_of(&trimmed_line),
            cursor_state,
            inside_record_variant_block,
            inside_service_block,
        }
    }

    pub fn inside_service_block(&self) -> (inside: bool)
        ensures
            inside == self@.inside_service_block,
    {
        self.inside_service_block
    }
}

/// The completion context that the text before the cursor suggests.
pub open spec fn heuristic_context(cursor: CursorContextView) -> CompletionContext {
    let trimmed = cursor.trimmed_line;
    let in_value_block = cursor.inside_record_variant_block || cursor.inside_service_block;
    if cursor.rope_len == 0 {
        CompletionContext::TopLevel
    } else if cursor.clamped < cursor.line_start {
        CompletionContext::Unknown
    } else if cursor.cursor_state.spec_in_comment() {
        CompletionContext::Comment
    } else if trimmed.len() == 0 {
        if in_value_block {
            CompletionContext::Value
        } else if cursor.cursor_state.spec_is_top_level() {
            CompletionContext::TopLevel
        } else {
            CompletionContext::Unknown
        }
    } else if type_follows_equals(trimmed) {
        CompletionContext::Type
    } else if type_follows_colon(trimmed) {
        CompletionContext::Type
    } else if last_index_of(trimmed, ':') is None && in_value_block {
        CompletionContext::Value
    } else if starts_with_seq(trim_start_seq(trimmed), "type"@) && last_index_of(trimmed, '=') is None {
        CompletionContext::Definition
    } else if cursor.cursor_state.spec_is_top_level() {
        CompletionContext::TopLevel
    } else {
        CompletionContext::Unknown
    }
}

/// Whether the line has an `=` and what stands before its last one begins with `type`.
pub open spec fn type_follows_equals(trimmed: Seq<char>) -> bool {
    match last_index_of(trimmed, '=') {
        Some(eq) => starts_with_seq(trim_start_seq(trim_end_seq(trimmed.subrange(0, eq))), "type"@),
        None => false,
    }
}

/// Whether the line has a colon and what stands before its last one does
/// not end with `service`.
pub open spec fn type_follows_colon(trimmed: Seq<char>) -> bool {
    match last_index_of(trimmed, ':') {
        Some(colon) => !ends_with_seq(trim_end_seq(trimmed.subrange(0, colon)), "service"@),
        None => false,
    }
}

pub fn heuristic_context_from_cursor(cursor_context: &CursorContext) -> (context: CompletionContext)
    ensures
        context == heuristic_context(cursor_context@),
{
    if cursor_context.rope_len == 0 {
        return CompletionContext::TopLevel;
    }
    if cursor_context.clamped < cursor_context.line_start {
        return CompletionContext::Unknown;
    }
    let trimmed = chars_of(cursor_context.trimmed_line.as_str());
    let cursor_state = &cursor_context.cursor_state;
    let in_value_block = cursor_context.inside_record_variant_block
        || cursor_context.inside_service_block;
    if cursor_state.in_comment() {
        return CompletionContext::Comment;
    }
    if trimmed.len() == 0 {
        if in_value_block {
            return CompletionContext::Value;
        }
        return if cursor_state.is_top_level() {
            CompletionContext::TopLevel
        } else {
            CompletionContext::Unknown
        };
    }
    let type_keyword = chars_of("type");
    let last_equals = rfind_char(&trimmed, '=');
    match last_equals {
        Some(eq_idx) => {
            assert(is_last_index_of(trimmed@, '=', eq_idx as int));
            let head = subvec(&trimmed, 0, eq_idx);
            let before = trim_end(&head);
            if starts_with(&trim_start(&before), &type_keyword) {
                return CompletionContext::Type;
            }
        },
        None => {},
    }
    let last_colon = rfind_char(&trimmed, ':');
    match last_colon {
        Some(colon_idx) => {
            assert(is_last_index_of(trimmed@, ':', colon_idx as int));
            let head = subvec(&trimmed, 0, colon_idx);
            let before = trim_end(&head);
            let service = chars_of("service");
            if !ends_with(&before, &service) {
                return CompletionContext::Type;
            }
        },
        None => {},
    }
    if last_colon.is_none() && in_value_block {
        return CompletionContext::Value;
    }
    let stripped = trim_start(&trimmed);
    if starts_with(&stripped, &type_keyword) && last_equals.is_none() {
        return CompletionContext::Definition;
    }
    if cursor_state.is_top_level() {
        return CompletionContext::TopLevel;
    }
    CompletionContext::Unknown
}

/// A summary of the lexical facts about a cursor position.
#[derive(Clone, Copy, Debug, PartialEq, Eq, Structural)]
pub struct CursorContextSnapshot {
    pub trimmed_len: usize,
    pub depth: usize,
    pub inside_service_block: bool,
    pub inside_record_variant_block: bool,
    pub in_comment: bool,
}

/// Summarise the lexical facts about the position `offset` of a document.
/// The length of the trimmed line is counted in characters.
pub fn cursor_context_snapshot(rope: &Rope, offset: usize) -> (snapshot: CursorContextSnapshot)
    ensures
        snapshot.trimmed_len == cursor_context_of(rope_text(*rope), offset).trimmed_line.len(),
        snapshot.depth == cursor_context_of(rope_text(*rope), offset).cursor_state.depth,
        snapshot.inside_service_block == cursor_context_of(rope_text(*rope), offset).inside_service_block,
        snapshot.inside_record_variant_block == cursor_context_of(
            rope_text(*rope),
            offset,
        ).inside_record_variant_block,
        snapshot.in_comment == cursor_context_of(
            rope_text(*rope),
            offset,
        ).cursor_state.spec_in_comment(),
{
    let context = CursorContext::new(rope, offset);
    let trimmed = chars_of(context.trimmed_line.as_str());
    CursorContextSnapshot {
        trimmed_len: trimmed.len(),
        depth: context.cursor_state.depth,
        inside_service_block: context.inside_service_block,
        inside_record_variant_block: context.inside_record_variant_block,
        in_comment: context.cursor_state.in_comment(),
    }
}

} // verus!
