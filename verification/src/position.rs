//! Conversions between line/column positions and flat character offsets.
use crate::rope::{
    rope_char_to_line, rope_len_lines, rope_line_len, rope_line_to_char, rope_text, text_line_count,
    text_line_len, text_line_of_char, text_line_start,
};
use crate::span::Span;
use ropey::Rope;
use vstd::prelude::*;

verus! {

/// A zero-based line and a zero-based character column on that line.
#[derive(Clone, Copy, Debug, PartialEq, Eq, Hash, Structural)]
pub struct Position {
    pub line: u32,
    pub character: u32,
}

/// A pair of positions delimiting a region of a document.
#[derive(Clone, Copy, Debug, PartialEq, Eq, Hash, Structural)]
pub struct Range {
    pub start: Position,
    pub end: Position,
}

/// The position of `offset` in `text`: its line, and its distance from the
/// start of that line. Both are cut to 32 bits.
pub open spec fn position_of(text: Seq<char>, offset: int) -> Position {
    let line = text_line_of_char(text, offset);
    let first = text_line_start(text, line);
    Position {
        line: line as u32,
        character: (if offset >= first {
            offset - first
        } else {
            0
        }) as u32,
    }
}

/// Convert a character offset into a position. Offsets past the end of the
/// text have no position.
pub fn offset_to_position(offset: usize, rope: &Rope) -> (position: Option<Position>)
    ensures
        position is Some <==> offset <= rope_text(*rope).len(),
        position matches Some(p) ==> p == position_of(rope_text(*rope), offset as int),
{
    let line = match rope_char_to_line(rope, offset) {
        Some(line) => line,
        None => {
            return None;
        },
    };
    let first_char_of_line = match rope_line_to_char(rope, line) {
        Some(first) => first,
        None => {
            return None;
        },
    };
    let column: usize = if offset >= first_char_of_line {
        offset - first_char_of_line
    } else {
        0
    };
    Some(Position { line: #[verifier::truncate] (line as u32), character: #[verifier::truncate] (column as u32) })
}

/// Whether `position` names a place in `text`: its line exists, and its column
/// is no greater than that line's length.
pub open spec fn position_in_text(text: Seq<char>, position: Position) -> bool {
    position.line < text_line_count(text) && position.character <= text_line_len(
        text,
        position.line as int,
    )
}

/// Convert a position into a character offset. A position whose line is not
/// in the text, or whose column lies beyond its line, has no offset.
pub fn position_to_offset(position: Position, rope: &Rope) -> (offset: Option<usize>)
    ensures
        offset is Some <==> position_in_text(rope_text(*rope), position),
        offset matches Some(o) ==> o == text_line_start(rope_text(*rope), position.line as int)
            + position.character && o <= rope_text(*rope).len(),
{
    let line_idx = position.line as usize;
    if line_idx >= rope_len_lines(rope) {
        return None;
    }
    let line_start = match rope_line_to_char(rope, line_idx) {
        Some(start) => start,
        None => {
            return None;
        },
    };
    let column = position.character as usize;
    let line_len = match rope_line_len(rope, line_idx) {
        Some(len) => len,
        None => {
            return None;
        },
    };
    if column > line_len {
        return None;
    }
    Some(line_start + column)
}

/// Convert a span into a range of positions; both ends must lie in the text.
pub fn span_to_range(span: &Span, rope: &Rope) -> (range: Option<Range>)
    ensures
        range is Some <==> span.start <= rope_text(*rope).len() && span.end <= rope_text(
            *rope,
        ).len(),
        range matches Some(r) ==> r.start == position_of(rope_text(*rope), span.start as int)
            && r.end == position_of(rope_text(*rope), span.end as int),
{
    let start = match offset_to_position(span.start, rope) {
        Some(p) => p,
        None => {
            return None;
        },
    };
    let end = match offset_to_position(span.end, rope) {
        Some(p) => p,
        None => {
            return None;
        },
    };
    Some(Range { start, end })
}

} // verus!
