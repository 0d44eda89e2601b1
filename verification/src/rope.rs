//! The document text store.
//!
//! A document's text lives in a `ropey::Rope`. Nothing inside a rope is visible
//! to Verus: the items of this module state, without proof, what the
//! rope's own methods return, and the rest of the crate reasons from them.
use ropey::Rope;
use vstd::prelude::*;

verus! {

#[verifier::external_type_specification]
#[verifier::external_body]
pub struct ExRope(Rope);

/// The characters that a rope holds, in document order.
pub uninterp spec fn rope_text(rope: Rope) -> Seq<char>;

/// The number of lines of a text, as `Rope::len_lines` counts them.
pub uninterp spec fn text_line_count(text: Seq<char>) -> nat;

/// The index of the line that holds the character at `char_idx`, as
/// `Rope::try_char_to_line` computes it.
pub uninterp spec fn text_line_of_char(text: Seq<char>, char_idx: int) -> int;

/// The character index at which line `line_idx` starts, as
/// `Rope::try_line_to_char` computes it.
pub uninterp spec fn text_line_start(text: Seq<char>, line_idx: int) -> int;

/// The number of characters of line `line_idx`, its line break included, as
/// `Rope::get_line` followed by `RopeSlice::len_chars` computes it.
pub uninterp spec fn text_line_len(text: Seq<char>, line_idx: int) -> int;

/// `Rope::len_chars`: the number of characters in the rope.
#[verifier::external_body]
pub(crate) fn rope_len_chars(rope: &Rope) -> (n: usize)
    ensures
        n == rope_text(*rope).len(),
{
    rope.len_chars()
}

/// `Rope::len_lines`: the number of lines, which is the number of line breaks
/// plus one and so never zero.
#[verifier::external_body]
pub(crate) fn rope_len_lines(rope: &Rope) -> (n: usize)
    ensures
        n == text_line_count(rope_text(*rope)),
        n >= 1,
{
    rope.len_lines()
}

/// `Rope::try_char_to_line`: the line of a character index. It succeeds for
/// every index up to and including the text's length, and the line it gives
/// is one of the text's lines.
#[verifier::external_body]
pub(crate) fn rope_char_to_line(rope: &Rope, char_idx: usize) -> (line: Option<usize>)
    ensures
        line is Some <==> char_idx <= rope_text(*rope).len(),
        line matches Some(l) ==> l == text_line_of_char(rope_text(*rope), char_idx as int) && l
            < text_line_count(rope_text(*rope)),
{
    rope.try_char_to_line(char_idx).ok()
}

/// `Rope::try_line_to_char`: the character index at which a line starts. It
/// succeeds for every line index up to and including the line count.
#[verifier::external_body]
pub(crate) fn rope_line_to_char(rope: &Rope, line_idx: usize) -> (start: Option<usize>)
    ensures
        start is Some <==> line_idx <= text_line_count(rope_text(*rope)),
        start matches Some(s) ==> s == text_line_start(rope_text(*rope), line_idx as int),
{
    rope.try_line_to_char(line_idx).ok()
}

/// `Rope::get_line` and `RopeSlice::len_chars`: the length of a line. The line
/// exists for every index below the line count; it is the part of the text
/// that begins at the line's start, so it ends within the text, whose own
/// length is a `usize`.
#[verifier::external_body]
pub(crate) fn rope_line_len(rope: &Rope, line_idx: usize) -> (len: Option<usize>)
    ensures
        len is Some <==> line_idx < text_line_count(rope_text(*rope)),
        len matches Some(n) ==> n == text_line_len(rope_text(*rope), line_idx as int)
            && text_line_start(rope_text(*rope), line_idx as int) + n <= rope_text(*rope).len()
            <= usize::MAX,
{
    rope.get_line(line_idx).map(|line| line.len_chars())
}

/// `Rope::get_slice` over a character range, copied out: the characters from
/// `start` up to `end`. It succeeds when `start <= end` and `end` is within
/// the text.
#[verifier::external_body]
pub(crate) fn rope_slice(rope: &Rope, start: usize, end: usize) -> (chars: Option<Vec<char>>)
    ensures
        chars is Some <==> start <= end <= rope_text(*rope).len(),
        chars matches Some(v) ==> v@ == rope_text(*rope).subrange(start as int, end as int),
{
    rope.get_slice(start..end).map(|slice| slice.chars().collect())
}


/// `Rope::from_str`: a rope that holds the characters of `text`.
#[verifier::external_body]
pub(crate) fn rope_from_str(text: &str) -> (rope: Rope)
    ensures
        rope_text(rope) == text@,
{
    Rope::from_str(text)
}

/// `Rope::remove` over a character range: the characters from `start` up
/// to `end` leave the rope, the others stay in order. The range must lie
/// in the text.
#[verifier::external_body]
pub(crate) fn rope_remove(rope: &mut Rope, start: usize, end: usize)
    requires
        start <= end <= rope_text(*old(rope)).len(),
    ensures
        rope_text(*final(rope)) == rope_text(*old(rope)).subrange(0, start as int) + rope_text(
            *old(rope),
        ).subrange(end as int, rope_text(*old(rope)).len() as int),
{
    rope.remove(start..end)
}

/// `Rope::insert`: the characters of `text` enter the rope before the
/// character at `char_idx`, which must not lie past the end of the text.
#[verifier::external_body]
pub(crate) fn rope_insert(rope: &mut Rope, char_idx: usize, text: &str)
    requires
        char_idx <= rope_text(*old(rope)).len(),
    ensures
        rope_text(*final(rope)) == rope_text(*old(rope)).subrange(0, char_idx as int) + text@
            + rope_text(*old(rope)).subrange(char_idx as int, rope_text(*old(rope)).len() as int),
{
    rope.insert(char_idx, text)
}

} // verus!
