//! Tidying of pretty-printed text: what the printer drops is put back, and
//! indentation and blank lines follow the client's options.

use crate::docs::{leading_run, lemma_leading_run_is};
use crate::format_lines::{
    ends_with_newline, extract_imports_and_service_name, formatted_has_imports, has_imports,
    imports_and_name, inject_service_name, is_comment, is_comment_line, is_import, is_import_line,
    join_lines, joined_lines, lines_of, normalize_line, normalized_line, prepend_imports, split_lines,
    with_imports, with_service_name,
};
use crate::position::{Position, Range};
use crate::rope::{
    rope_len_chars, rope_len_lines, rope_line_len, rope_slice, rope_text, text_line_count, text_line_len,
};
use crate::service_snippets::joined_upto;
use crate::text::{
    all_whitespace, chars_eq, chars_of, contains, contains_seq, is_blank, push_chars, push_str_chars,
    string_of, subvec,
};
use ropey::Rope;
use vstd::prelude::*;

verus! {

/// What the client asks of the formatter.
#[derive(Clone, Copy, Debug, PartialEq, Eq, Structural)]
pub struct FormatOptions {
    /// The number of spaces per level of indentation.
    pub indent_width: Option<usize>,
    /// The largest number of blank lines in a row.
    pub blank_lines: Option<usize>,
}

impl Default for FormatOptions {
    fn default() -> (options: FormatOptions)
        ensures
            options == (FormatOptions { indent_width: None, blank_lines: None }),
    {
        FormatOptions { indent_width: None, blank_lines: None }
    }
}

/// A replacement of a range of the document by new text.
#[derive(Clone, Debug)]
pub struct TextEdit {
    pub range: Range,
    pub new_text: String,
}

/// `n` spaces.
pub open spec fn spaces(n: nat) -> Seq<char> {
    Seq::new(n, |i: int| ' ')
}

/// The product of two numbers, or the largest `usize` where the product
/// is larger.
pub open spec fn bounded_product(a: usize, b: usize) -> usize {
    if a * b <= usize::MAX {
        (a * b) as usize
    } else {
        usize::MAX
    }
}

fn bounded_mul(a: usize, b: usize) -> (product: usize)
    ensures
        product == bounded_product(a, b),
{
    if a == 0 || b == 0 {
        assert(a * b == 0) by (nonlinear_arith)
            requires
                a == 0 || b == 0,
        ;
        return 0;
    }
    if b > usize::MAX / a {
        assert(a * b > usize::MAX) by (nonlinear_arith)
            requires
                a > 0,
                b > usize::MAX / a,
        ;
        usize::MAX
    } else {
        assert(a * b <= usize::MAX) by (nonlinear_arith)
            requires
                a > 0,
                b <= usize::MAX / a,
        ;
        a * b
    }
}

/// A line at the given indentation width. A line indented by an even
/// number of spaces, two per level, is indented by `width` per level; a
/// blank line becomes empty; any other line stays as it is.
pub open spec fn reindented_line(line: Seq<char>, width: usize) -> Seq<char> {
    if is_blank(line) {
        Seq::empty()
    } else {
        let leading = leading_run(line, ' ');
        if leading % 2 != 0 {
            line
        } else {
            spaces(bounded_product((leading / 2) as usize, width) as nat) + line.subrange(
                leading,
                line.len() as int,
            )
        }
    }
}

pub open spec fn reindented_upto(lines: Seq<Seq<char>>, width: usize, n: nat) -> Seq<char>
    decreases n,
{
    if n == 0 || n > lines.len() {
        Seq::empty()
    } else {
        reindented_upto(lines, width, (n - 1) as nat) + (if n > 1 {
            "\n"@
        } else {
            Seq::empty()
        }) + reindented_line(lines[n - 1], width)
    }
}

/// The formatted text at the given indentation width; a width of zero
/// changes nothing.
pub open spec fn with_indent_width(formatted: Seq<char>, width: usize) -> Seq<char> {
    if width == 0 {
        formatted
    } else {
        reindented_upto(lines_of(formatted), width, lines_of(formatted).len()) + (if ends_with_newline(
            formatted,
        ) {
            "\n"@
        } else {
            Seq::empty()
        })
    }
}

fn reindent_line(line: &Vec<char>, width: usize, output: &mut Vec<char>)
    ensures
        final(output)@ == old(output)@ + reindented_line(line@, width),
{
    if all_whitespace(line) {
        assert(output@ =~= old(output)@ + Seq::<char>::empty());
        return ;
    }
    let mut leading: usize = 0;
    while leading < line.len() && line[leading] == ' '
        invariant
            leading <= line.len(),
            forall|j: int| 0 <= j < leading ==> line@[j] == ' ',
        decreases line.len() - leading,
    {
        leading += 1;
    }
    proof {
        lemma_leading_run_is(line@, ' ', leading as int);
    }
    if leading % 2 != 0 {
        push_chars(output, line);
        return ;
    }
    let count = bounded_mul(leading / 2, width);
    let ghost start = output@;
    let mut i: usize = 0;
    while i < count
        invariant
            i <= count,
            output@ == start + spaces(i as nat),
        decreases count - i,
    {
        output.push(' ');
        i += 1;
        assert(output@ =~= start + spaces(i as nat));
    }
    let remainder = subvec(line, leading, line.len());
    push_chars(output, &remainder);
    assert(output@ =~= old(output)@ + reindented_line(line@, width));
}

pub fn apply_indent_width(formatted: &Vec<char>, indent_width: usize) -> (output: Vec<char>)
    ensures
        output@ == with_indent_width(formatted@, indent_width),
{
    if indent_width == 0 {
        return subvec(formatted, 0, formatted.len());
    }
    let lines = split_lines(formatted);
    let mut output: Vec<char> = Vec::new();
    let mut idx: usize = 0;
    while idx < lines.len()
        invariant
            idx <= lines.len(),
            lines.deep_view() == lines_of(formatted@),
            output@ == reindented_upto(lines.deep_view(), indent_width, idx as nat),
        decreases lines.len() - idx,
    {
        assert(lines.deep_view()[idx as int] == lines@[idx as int]@);
        if idx > 0 {
            push_str_chars(&mut output, "\n");
        }
        let line = chars_of(lines[idx].as_str());
        reindent_line(&line, indent_width, &mut output);
        idx += 1;
        assert(output@ =~= reindented_upto(lines.deep_view(), indent_width, idx as nat));
    }
    if formatted.len() > 0 && formatted[formatted.len() - 1] == '\n' {
        push_str_chars(&mut output, "\n");
    } else {
        assert(output@ =~= output@ + Seq::<char>::empty());
    }
    output
}

/// The lines kept among the first `n`, and the number of blank lines at
/// their end: of a run of blank lines, the first `max` are kept.
pub open spec fn kept_lines_upto(lines: Seq<Seq<char>>, max: usize, n: nat) -> (Seq<Seq<char>>, usize)
    decreases n,
{
    if n == 0 || n > lines.len() {
        (Seq::empty(), 0)
    } else {
        let before = kept_lines_upto(lines, max, (n - 1) as nat);
        if is_blank(lines[n - 1]) {
            let run = if before.1 < usize::MAX {
                (before.1 + 1) as usize
            } else {
                before.1
            };
            (
                if run <= max {
                    before.0.push(lines[n - 1])
                } else {
                    before.0
                },
                run,
            )
        } else {
            (before.0.push(lines[n - 1]), 0)
        }
    }
}

/// The formatted text with at most `max` blank lines in a row.
pub open spec fn with_blank_lines(formatted: Seq<char>, max: usize) -> Seq<char> {
    joined_lines(kept_lines_upto(lines_of(formatted), max, lines_of(formatted).len()).0) + (
    if ends_with_newline(formatted) {
        "\n"@
    } else {
        Seq::empty()
    })
}

pub fn collapse_blank_lines(formatted: &Vec<char>, max_blank_lines: usize) -> (output: Vec<char>)
    ensures
        output@ == with_blank_lines(formatted@, max_blank_lines),
{
    let all = split_lines(formatted);
    let mut lines: Vec<String> = Vec::new();
    let mut blank_run: usize = 0;
    assert(lines.deep_view() =~= Seq::empty());
    let mut i: usize = 0;
    while i < all.len()
        invariant
            i <= all.len(),
            (lines.deep_view(), blank_run) == kept_lines_upto(all.deep_view(), max_blank_lines, i as nat),
        decreases all.len() - i,
    {
        assert(all.deep_view()[i as int] == all@[i as int]@);
        let line = chars_of(all[i].as_str());
        let ghost before = lines;
        if all_whitespace(&line) {
            if blank_run < usize::MAX {
                blank_run += 1;
            }
            if blank_run <= max_blank_lines {
                let entry = all[i].clone();
                lines.push(entry);
                assert(lines.deep_view() =~= before.deep_view().push(entry@));
            }
        } else {
            blank_run = 0;
            let entry = all[i].clone();
            lines.push(entry);
            assert(lines.deep_view() =~= before.deep_view().push(entry@));
        }
        i += 1;
    }
    let mut output = join_lines(&lines);
    if formatted.len() > 0 && formatted[formatted.len() - 1] == '\n' {
        push_str_chars(&mut output, "\n");
    } else {
        assert(output@ =~= output@ + Seq::<char>::empty());
    }
    output
}

/// Whether a line holds code: it is neither blank nor a comment.
pub open spec fn is_content(line: Seq<char>) -> bool {
    !is_blank(line) && !is_comment(line)
}

fn is_content_line(line: &Vec<char>) -> (content: bool)
    ensures
        content == is_content(line@),
{
    !all_whitespace(line) && !is_comment_line(line)
}

/// How many of the first `n` lines hold code that, whitespace aside, is `anchor`.
pub open spec fn anchor_count(lines: Seq<Seq<char>>, anchor: Seq<char>, n: nat) -> nat
    decreases n,
{
    if n == 0 || n > lines.len() {
        0
    } else {
        anchor_count(lines, anchor, (n - 1) as nat) + (if is_content(lines[n - 1]) && normalized_line(
            lines[n - 1],
        ) == anchor {
            1nat
        } else {
            0nat
        })
    }
}

/// A comment block that belongs to no declaration, and where it stood.
#[derive(Clone, Debug)]
pub struct OrphanCommentBlock {
    pub text: String,
    /// The code line after the block, without whitespace.
    pub anchor_next: Option<String>,
    /// Which of the equal code lines that is, counted from one.
    pub anchor_next_occurrence: usize,
    /// The code line before the block, without whitespace.
    pub anchor_prev: Option<String>,
    pub anchor_prev_occurrence: usize,
    /// Whether no code stands before the block.
    pub before_first: bool,
}

pub struct OrphanCommentBlockView {
    pub text: Seq<char>,
    pub anchor_next: Option<Seq<char>>,
    pub anchor_next_occurrence: usize,
    pub anchor_prev: Option<Seq<char>>,
    pub anchor_prev_occurrence: usize,
    pub before_first: bool,
}

impl DeepView for OrphanCommentBlock {
    type V = OrphanCommentBlockView;

    open spec fn deep_view(&self) -> OrphanCommentBlockView {
        OrphanCommentBlockView {
            text: self.text@,
            anchor_next: self.anchor_next.deep_view(),
            anchor_next_occurrence: self.anchor_next_occurrence,
            anchor_prev: self.anchor_prev.deep_view(),
            anchor_prev_occurrence: self.anchor_prev_occurrence,
            before_first: self.before_first,
        }
    }
}

/// The anchor that line `idx` gives: its code without whitespace, and
/// which of the equal code lines it is. A line that holds no code gives none.
pub open spec fn anchor_at(lines: Seq<Seq<char>>, idx: Option<int>) -> (Option<Seq<char>>, usize) {
    match idx {
        Some(i) => if 0 <= i < lines.len() && is_content(lines[i]) {
            (
                Some(normalized_line(lines[i])),
                anchor_count(lines, normalized_line(lines[i]), (i + 1) as nat) as usize,
            )
        } else {
            (None, 0)
        },
        None => (None, 0),
    }
}

/// The last line of the run of comment lines that begins at `start`.
pub open spec fn comment_run_end(lines: Seq<Seq<char>>, end: int) -> int
    decreases lines.len() - end,
{
    if end < 0 || end + 1 >= lines.len() || !is_comment(lines[end + 1]) {
        end
    } else {
        comment_run_end(lines, end + 1)
    }
}

/// The first line at or after `from` that holds code.
pub open spec fn next_content(lines: Seq<Seq<char>>, from: int) -> Option<int>
    decreases lines.len() - from,
{
    if from < 0 || from >= lines.len() {
        None
    } else if is_content(lines[from]) {
        Some(from)
    } else {
        next_content(lines, from + 1)
    }
}

/// The lines `start..=end` joined by line feeds.
pub open spec fn block_text(lines: Seq<Seq<char>>, start: int, end: int) -> Seq<char> {
    joined_lines(lines.subrange(start, end + 1))
}

/// The block of comment lines `start..=end`, with the code lines around it
/// as anchors.
pub open spec fn block_of(lines: Seq<Seq<char>>, start: int, end: int, next: Option<int>, last: Option<int>) -> OrphanCommentBlockView {
    OrphanCommentBlockView {
        text: block_text(lines, start, end),
        anchor_next: anchor_at(lines, next).0,
        anchor_next_occurrence: anchor_at(lines, next).1,
        anchor_prev: anchor_at(lines, last).0,
        anchor_prev_occurrence: anchor_at(lines, last).1,
        before_first: last is None,
    }
}

/// The orphan comment blocks from line `idx` on, where `last` is the last
/// code line before `idx`. A run of comment lines is an orphan block when
/// an import follows it directly, or when a blank line follows it.
pub open spec fn orphan_blocks_from(lines: Seq<Seq<char>>, idx: int, last: Option<int>) -> Seq<
    OrphanCommentBlockView,
>
    decreases lines.len() - idx,
{
    if idx < 0 || idx >= lines.len() {
        Seq::empty()
    } else if !is_comment(lines[idx]) {
        orphan_blocks_from(
            lines,
            idx + 1,
            if !is_blank(lines[idx]) {
                Some(idx)
            } else {
                last
            },
        )
    } else {
        let end = comment_run_end(lines, idx);
        if end < idx || end >= lines.len() {
            Seq::empty()
        } else {
            let rest = orphan_blocks_from(lines, end + 1, last);
            if end + 1 < lines.len() && is_import(lines[end + 1]) {
                seq![block_of(lines, idx, end, Some(end + 1), last)] + rest
            } else if end + 1 < lines.len() && is_blank(lines[end + 1]) {
                seq![block_of(lines, idx, end, next_content(lines, end + 2), last)] + rest
            } else {
                rest
            }
        }
    }
}

pub open spec fn orphan_blocks(src: Seq<char>) -> Seq<OrphanCommentBlockView> {
    orphan_blocks_from(lines_of(src), 0, None)
}

fn line_chars(lines: &Vec<String>, i: usize) -> (line: Vec<char>)
    requires
        i < lines@.len(),
    ensures
        line@ == lines.deep_view()[i as int],
{
    assert(lines.deep_view()[i as int] == lines@[i as int]@);
    chars_of(lines[i].as_str())
}

fn count_anchor(lines: &Vec<String>, anchor: &Vec<char>, n: usize) -> (count: usize)
    requires
        n <= lines@.len(),
    ensures
        count == anchor_count(lines.deep_view(), anchor@, n as nat),
{
    let mut count: usize = 0;
    let mut i: usize = 0;
    while i < n
        invariant
            i <= n <= lines@.len(),
            count <= i,
            count == anchor_count(lines.deep_view(), anchor@, i as nat),
        decreases n - i,
    {
        let line = line_chars(lines, i);
        if is_content_line(&line) {
            let normalized = normalize_line(&line);
            if chars_eq(&normalized, anchor) {
                count += 1;
            }
        }
        i += 1;
    }
    count
}

fn anchor_of(lines: &Vec<String>, idx: Option<usize>) -> (anchor: (Option<String>, usize))
    requires
        idx matches Some(i) ==> i < lines@.len(),
    ensures
        (anchor.0.deep_view(), anchor.1) == anchor_at(
            lines.deep_view(),
            match idx {
                Some(i) => Some(i as int),
                None => None,
            },
        ),
{
    match idx {
        Some(i) => {
            let line = line_chars(lines, i);
            if is_content_line(&line) {
                let normalized = normalize_line(&line);
                assert(i < lines.len());
                let count = count_anchor(lines, &normalized, i + 1);
                (Some(string_of(&normalized)), count)
            } else {
                (None, 0)
            }
        },
        None => (None, 0),
    }
}

fn join_block(lines: &Vec<String>, start: usize, end: usize) -> (text: String)
    requires
        start <= end < lines@.len(),
    ensures
        text@ == block_text(lines.deep_view(), start as int, end as int),
{
    let ghost part = lines.deep_view().subrange(start as int, end + 1);
    let total = lines.len();
    let mut buf: Vec<char> = Vec::new();
    let mut i: usize = start;
    while i <= end
        invariant
            start <= i <= end + 1,
            end < total,
            total == lines@.len(),
            part == lines.deep_view().subrange(start as int, end + 1),
            buf@ == joined_upto(part, "\n"@, (i - start) as nat),
        decreases end + 1 - i,
    {
        let line = line_chars(lines, i);
        assert(part[i - start] == line@);
        if i > start {
            push_str_chars(&mut buf, "\n");
        }
        push_chars(&mut buf, &line);
        i += 1;
        assert(buf@ =~= joined_upto(part, "\n"@, (i - start) as nat));
    }
    string_of(&buf)
}

fn find_next_content(lines: &Vec<String>, from: usize) -> (found: Option<usize>)
    ensures
        found matches Some(i) ==> i < lines@.len() && next_content(lines.deep_view(), from as int) == Some(
            i as int,
        ),
        found is None ==> next_content(lines.deep_view(), from as int) is None,
{
    let mut i: usize = from;
    while i < lines.len()
        invariant
            from <= i,
            next_content(lines.deep_view(), i as int) == next_content(lines.deep_view(), from as int),
        decreases lines.len() - i,
    {
        let line = line_chars(lines, i);
        if is_content_line(&line) {
            return Some(i);
        }
        i += 1;
    }
    None
}

pub fn extract_orphan_comment_blocks(src: &Vec<char>) -> (blocks: Vec<OrphanCommentBlock>)
    ensures
        blocks.deep_view() == orphan_blocks(src@),
{
    let lines = split_lines(src);
    let ghost all = lines.deep_view();
    let mut blocks: Vec<OrphanCommentBlock> = Vec::new();
    assert(blocks.deep_view() =~= Seq::empty());
    let mut idx: usize = 0;
    let mut last_non_comment_idx: Option<usize> = None;
    while idx < lines.len()
        invariant
            idx <= lines.len(),
            all == lines.deep_view(),
            last_non_comment_idx matches Some(last) ==> last < lines.len(),
            blocks.deep_view() + orphan_blocks_from(
                all,
                idx as int,
                match last_non_comment_idx {
                    Some(last) => Some(last as int),
                    None => None,
                },
            ) == orphan_blocks(src@),
        decreases lines.len() - idx,
    {
        let line = line_chars(&lines, idx);
        if !is_comment_line(&line) {
            if !all_whitespace(&line) {
                last_non_comment_idx = Some(idx);
            }
            idx += 1;
            continue ;
        }
        let start = idx;
        let mut end = idx;
        while end + 1 < lines.len() && is_comment_line(&line_chars(&lines, end + 1))
            invariant
                start <= end < lines.len(),
                all == lines.deep_view(),
                comment_run_end(all, end as int) == comment_run_end(all, start as int),
            decreases lines.len() - end,
        {
            end += 1;
        }
        let next_idx = end + 1;
        let ghost before = blocks;
        let ghost last = match last_non_comment_idx {
            Some(last) => Some(last as int),
            None => None,
        };
        if next_idx < lines.len() && is_import_line(&line_chars(&lines, next_idx)) {
            let next = anchor_of(&lines, Some(next_idx));
            let prev = anchor_of(&lines, last_non_comment_idx);
            let block = OrphanCommentBlock {
                text: join_block(&lines, start, end),
                anchor_next: next.0,
                anchor_next_occurrence: next.1,
                anchor_prev: prev.0,
                anchor_prev_occurrence: prev.1,
                before_first: last_non_comment_idx.is_none(),
            };
            blocks.push(block);
            proof {
                assert(blocks.deep_view() =~= before.deep_view().push(block.deep_view()));
                assert(block.deep_view() == block_of(all, start as int, end as int, Some(end + 1), last));
                assert(before.deep_view() + orphan_blocks_from(all, start as int, last)
                    =~= blocks.deep_view() + orphan_blocks_from(all, end + 1, last));
            }
        } else if next_idx < lines.len() && all_whitespace(&line_chars(&lines, next_idx)) {
            let anchor_next_idx = find_next_content(&lines, next_idx + 1);
            let next = anchor_of(&lines, anchor_next_idx);
            let prev = anchor_of(&lines, last_non_comment_idx);
            let block = OrphanCommentBlock {
                text: join_block(&lines, start, end),
                anchor_next: next.0,
                anchor_next_occurrence: next.1,
                anchor_prev: prev.0,
                anchor_prev_occurrence: prev.1,
                before_first: last_non_comment_idx.is_none(),
            };
            blocks.push(block);
            proof {
                assert(blocks.deep_view() =~= before.deep_view().push(block.deep_view()));
                assert(block.deep_view() == block_of(
                    all,
                    start as int,
                    end as int,
                    next_content(all, end + 2),
                    last,
                ));
                assert(before.deep_view() + orphan_blocks_from(all, start as int, last)
                    =~= blocks.deep_view() + orphan_blocks_from(all, end + 1, last));
            }
        }
        idx = end + 1;
    }
    assert(blocks.deep_view() + Seq::<OrphanCommentBlockView>::empty() =~= blocks.deep_view());
    blocks
}

/// The first line that holds code.
pub open spec fn first_content_line(lines: Seq<Seq<char>>) -> Option<int> {
    next_content(lines, 0)
}

pub fn first_content_line_index(lines: &Vec<String>) -> (found: Option<usize>)
    ensures
        found matches Some(i) ==> i < lines@.len() && first_content_line(lines.deep_view()) == Some(
            i as int,
        ),
        found is None ==> first_content_line(lines.deep_view()) is None,
{
    find_next_content(lines, 0)
}

/// The line that is the `occurrence`-th code line equal, whitespace aside,
/// to `anchor`, looking from line `from` on where `seen` such lines came
/// before. Occurrences are counted from one.
pub open spec fn anchor_line_from(lines: Seq<Seq<char>>, anchor: Seq<char>, occurrence: usize, from: int, seen: nat) -> Option<
    int,
>
    decreases lines.len() - from,
{
    if from < 0 || from >= lines.len() {
        None
    } else if is_content(lines[from]) && normalized_line(lines[from]) == anchor {
        if seen + 1 == occurrence {
            Some(from)
        } else {
            anchor_line_from(lines, anchor, occurrence, from + 1, seen + 1)
        }
    } else {
        anchor_line_from(lines, anchor, occurrence, from + 1, seen)
    }
}

pub open spec fn anchor_line(lines: Seq<Seq<char>>, anchor: Seq<char>, occurrence: usize) -> Option<int> {
    if occurrence == 0 {
        None
    } else {
        anchor_line_from(lines, anchor, occurrence, 0, 0)
    }
}

pub fn find_anchor_index(lines: &Vec<String>, anchor: &Vec<char>, occurrence: usize) -> (found: Option<
    usize,
>)
    ensures
        found matches Some(i) ==> i < lines@.len() && anchor_line(lines.deep_view(), anchor@, occurrence)
            == Some(i as int),
        found is None ==> anchor_line(lines.deep_view(), anchor@, occurrence) is None,
{
    if occurrence == 0 {
        return None;
    }
    let mut count: usize = 0;
    let mut idx: usize = 0;
    while idx < lines.len()
        invariant
            idx <= lines.len(),
            count <= idx,
            count < occurrence,
            anchor_line_from(lines.deep_view(), anchor@, occurrence, idx as int, count as nat)
                == anchor_line(lines.deep_view(), anchor@, occurrence),
        decreases lines.len() - idx,
    {
        let line = line_chars(lines, idx);
        if is_content_line(&line) {
            let normalized = normalize_line(&line);
            if chars_eq(&normalized, anchor) {
                count += 1;
                if count == occurrence {
                    return Some(idx);
                }
            }
        }
        idx += 1;
    }
    None
}

/// `lines` with `chunk` put in before line `at`.
pub open spec fn spliced(lines: Seq<Seq<char>>, at: int, chunk: Seq<Seq<char>>) -> Seq<Seq<char>> {
    lines.subrange(0, at) + chunk + lines.subrange(at, lines.len() as int)
}

fn copy_lines(output: &mut Vec<String>, lines: &Vec<String>, from: usize, to: usize)
    requires
        from <= to <= lines@.len(),
    ensures
        final(output).deep_view() == old(output).deep_view() + lines.deep_view().subrange(
            from as int,
            to as int,
        ),
{
    let mut i: usize = from;
    assert(output.deep_view() =~= old(output).deep_view() + lines.deep_view().subrange(
        from as int,
        from as int,
    ));
    while i < to
        invariant
            from <= i <= to <= lines@.len(),
            output.deep_view() == old(output).deep_view() + lines.deep_view().subrange(
                from as int,
                i as int,
            ),
        decreases to - i,
    {
        let ghost before = *output;
        assert(lines.deep_view()[i as int] == lines@[i as int]@);
        let entry = lines[i].clone();
        output.push(entry);
        assert(output.deep_view() =~= before.deep_view().push(entry@));
        i += 1;
        assert(output.deep_view() =~= old(output).deep_view() + lines.deep_view().subrange(
            from as int,
            i as int,
        ));
    }
}

fn splice_lines(lines: &mut Vec<String>, at: usize, chunk: &Vec<String>)
    requires
        at <= old(lines)@.len(),
    ensures
        final(lines).deep_view() == spliced(old(lines).deep_view(), at as int, chunk.deep_view()),
{
    let mut output: Vec<String> = Vec::new();
    assert(output.deep_view() =~= Seq::empty());
    copy_lines(&mut output, lines, 0, at);
    copy_lines(&mut output, chunk, 0, chunk.len());
    copy_lines(&mut output, lines, at, lines.len());
    proof {
        assert(chunk.deep_view().subrange(0, chunk@.len() as int) =~= chunk.deep_view());
        assert(output.deep_view() =~= spliced(lines.deep_view(), at as int, chunk.deep_view()));
    }
    *lines = output;
}

/// The lines of a block, followed by a blank line where the line they are
/// put before holds text.
pub open spec fn chunk_before(lines: Seq<Seq<char>>, at: int, text: Seq<char>) -> Seq<Seq<char>> {
    if 0 <= at < lines.len() && !is_blank(lines[at]) {
        lines_of(text).push(Seq::empty())
    } else {
        lines_of(text)
    }
}

/// The lines of a block and a blank line after them, preceded by a blank
/// line where the line they are put after holds text.
pub open spec fn chunk_after(lines: Seq<Seq<char>>, at: int, text: Seq<char>) -> Seq<Seq<char>> {
    (if 0 < at <= lines.len() && !is_blank(lines[at - 1]) {
        seq![Seq::<char>::empty()]
    } else {
        Seq::<Seq<char>>::empty()
    }) + lines_of(text).push(Seq::empty())
}

fn push_blank(lines: &mut Vec<String>)
    ensures
        final(lines).deep_view() == old(lines).deep_view().push(Seq::<char>::empty()),
{
    let blank = String::new();
    lines.push(blank);
    assert(lines.deep_view() =~= old(lines).deep_view().push(blank@));
}

pub fn insert_block_before(lines: &mut Vec<String>, insert_at: usize, block: &OrphanCommentBlock)
    requires
        insert_at <= old(lines)@.len(),
    ensures
        final(lines).deep_view() == spliced(
            old(lines).deep_view(),
            insert_at as int,
            chunk_before(old(lines).deep_view(), insert_at as int, block.text@),
        ),
{
    let text = chars_of(block.text.as_str());
    let mut chunk = split_lines(&text);
    if insert_at < lines.len() && !all_whitespace(&line_chars(lines, insert_at)) {
        push_blank(&mut chunk);
    }
    splice_lines(lines, insert_at, &chunk);
}

pub fn insert_block_after(lines: &mut Vec<String>, insert_at: usize, block: &OrphanCommentBlock)
    requires
        insert_at <= old(lines)@.len(),
    ensures
        final(lines).deep_view() == spliced(
            old(lines).deep_view(),
            insert_at as int,
            chunk_after(old(lines).deep_view(), insert_at as int, block.text@),
        ),
{
    let mut chunk: Vec<String> = Vec::new();
    assert(chunk.deep_view() =~= Seq::empty());
    if insert_at > 0 && !all_whitespace(&line_chars(lines, insert_at - 1)) {
        push_blank(&mut chunk);
        assert(chunk.deep_view() =~= seq![Seq::<char>::empty()]);
    }
    let text = chars_of(block.text.as_str());
    let block_lines = split_lines(&text);
    copy_lines(&mut chunk, &block_lines, 0, block_lines.len());
    assert(block_lines.deep_view().subrange(0, block_lines@.len() as int) =~= block_lines.deep_view());
    push_blank(&mut chunk);
    assert(chunk.deep_view() =~= chunk_after(lines.deep_view(), insert_at as int, block.text@));
    splice_lines(lines, insert_at, &chunk);
}

pub open spec fn option_text(text: Option<Seq<char>>) -> Seq<char> {
    match text {
        Some(text) => text,
        None => Seq::empty(),
    }
}

/// The lines with one block put back. A block that the formatted text
/// still holds is not put back. Otherwise the block goes before the code
/// line that followed it; or else, where it stood before all code, before
/// the first code line; or else after the code line that preceded it; or
/// else to the end.
pub open spec fn with_block(lines: Seq<Seq<char>>, formatted: Seq<char>, block: OrphanCommentBlockView) -> Seq<
    Seq<char>,
> {
    if contains_seq(formatted, block.text) {
        lines
    } else if block.anchor_next is Some && anchor_line(
        lines,
        option_text(block.anchor_next),
        block.anchor_next_occurrence,
    ) is Some {
        let at = anchor_line(lines, option_text(block.anchor_next), block.anchor_next_occurrence)->0;
        spliced(lines, at, chunk_before(lines, at, block.text))
    } else if block.before_first && first_content_line(lines) is Some {
        let at = first_content_line(lines)->0;
        spliced(lines, at, chunk_before(lines, at, block.text))
    } else if block.anchor_prev is Some && anchor_line(
        lines,
        option_text(block.anchor_prev),
        block.anchor_prev_occurrence,
    ) is Some {
        let at = anchor_line(lines, option_text(block.anchor_prev), block.anchor_prev_occurrence)->0
            + 1;
        spliced(lines, at, chunk_after(lines, at, block.text))
    } else {
        (if lines.len() > 0 && !is_blank(lines.last()) {
            lines.push(Seq::empty())
        } else {
            lines
        }) + lines_of(block.text).push(Seq::empty())
    }
}

pub open spec fn with_blocks_upto(
    lines: Seq<Seq<char>>,
    formatted: Seq<char>,
    blocks: Seq<OrphanCommentBlockView>,
    n: nat,
) -> Seq<Seq<char>>
    decreases n,
{
    if n == 0 || n > blocks.len() {
        lines
    } else {
        with_block(with_blocks_upto(lines, formatted, blocks, (n - 1) as nat), formatted, blocks[n - 1])
    }
}

/// The formatted text with the orphan comment blocks put back.
pub open spec fn with_orphan_blocks(formatted: Seq<char>, blocks: Seq<OrphanCommentBlockView>) -> Seq<char> {
    if blocks.len() == 0 {
        formatted
    } else {
        joined_lines(with_blocks_upto(lines_of(formatted), formatted, blocks, blocks.len()))
    }
}

fn opt_chars(text: &Option<String>) -> (chars: Vec<char>)
    ensures
        chars@ == option_text(text.deep_view()),
{
    match text {
        Some(text) => chars_of(text.as_str()),
        None => Vec::new(),
    }
}

fn inject_block(lines: &mut Vec<String>, formatted: &Vec<char>, block: &OrphanCommentBlock)
    ensures
        final(lines).deep_view() == with_block(old(lines).deep_view(), formatted@, block.deep_view()),
{
    let text = chars_of(block.text.as_str());
    if contains(formatted, &text) {
        return ;
    }
    if block.anchor_next.is_some() {
        let anchor = opt_chars(&block.anchor_next);
        match find_anchor_index(lines, &anchor, block.anchor_next_occurrence) {
            Some(insert_at) => {
                insert_block_before(lines, insert_at, block);
                return ;
            },
            None => {},
        }
    }
    if block.before_first {
        match first_content_line_index(lines) {
            Some(insert_at) => {
                insert_block_before(lines, insert_at, block);
                return ;
            },
            None => {},
        }
    }
    if block.anchor_prev.is_some() {
        let anchor = opt_chars(&block.anchor_prev);
        match find_anchor_index(lines, &anchor, block.anchor_prev_occurrence) {
            Some(insert_at) => {
                assert(insert_at < lines.len());
                insert_block_after(lines, insert_at + 1, block);
                return ;
            },
            None => {},
        }
    }
    let count = lines.len();
    if count > 0 && !all_whitespace(&line_chars(lines, count - 1)) {
        push_blank(lines);
    }
    let block_lines = split_lines(&text);
    copy_lines(lines, &block_lines, 0, block_lines.len());
    assert(block_lines.deep_view().subrange(0, block_lines@.len() as int) =~= block_lines.deep_view());
    push_blank(lines);
    assert(lines.deep_view() =~= with_block(old(lines).deep_view(), formatted@, block.deep_view()));
}

pub fn inject_orphan_comment_blocks(formatted: &Vec<char>, blocks: &Vec<OrphanCommentBlock>) -> (output:
    Vec<char>)
    ensures
        output@ == with_orphan_blocks(formatted@, blocks.deep_view()),
{
    if blocks.len() == 0 {
        return subvec(formatted, 0, formatted.len());
    }
    let mut lines = split_lines(formatted);
    let ghost start = lines.deep_view();
    let mut i: usize = 0;
    while i < blocks.len()
        invariant
            i <= blocks.len(),
            start == lines_of(formatted@),
            lines.deep_view() == with_blocks_upto(start, formatted@, blocks.deep_view(), i as nat),
        decreases blocks.len() - i,
    {
        assert(blocks.deep_view()[i as int] == blocks@[i as int].deep_view());
        inject_block(&mut lines, formatted, &blocks[i]);
        i += 1;
    }
    join_lines(&lines)
}

/// The text that replaces the document: the pretty-printed text with the
/// service name, the imports and the orphan comments of the document as it
/// stands put back, at the indentation and with the blank lines that the options ask for.
pub open spec fn formatted_text(pretty: Seq<char>, original: Seq<char>, options: FormatOptions) -> Seq<char> {
    let named = match imports_and_name(original).1 {
        Some(name) => with_service_name(pretty, name),
        None => pretty,
    };
    let imported = if imports_and_name(original).0.len() > 0 && !has_imports(named) {
        with_imports(named, imports_and_name(original).0)
    } else {
        named
    };
    let commented = if crate::format::orphan_blocks(original).len() > 0 {
        with_orphan_blocks(imported, crate::format::orphan_blocks(original))
    } else {
        imported
    };
    let indented = match options.indent_width {
        Some(width) => with_indent_width(commented, width),
        None => commented,
    };
    match options.blank_lines {
        Some(lines) => with_blank_lines(indented, lines),
        None => indented,
    }
}

pub fn format_text(pretty: &str, original: &str, options: &FormatOptions) -> (formatted: String)
    ensures
        formatted@ == formatted_text(pretty@, original@, *options),
{
    let original_text = chars_of(original);
    let found = extract_imports_and_service_name(&original_text);
    let imports = found.0;
    let service_name = found.1;
    let orphan_comments = extract_orphan_comment_blocks(&original_text);
    let mut formatted_text = chars_of(pretty);
    match &service_name {
        Some(name) => {
            let name = chars_of(name.as_str());
            let _ = inject_service_name(&mut formatted_text, &name);
        },
        None => {},
    }
    if imports.len() > 0 && !formatted_has_imports(&formatted_text) {
        formatted_text = prepend_imports(&formatted_text, &imports);
    }
    if orphan_comments.len() > 0 {
        formatted_text = inject_orphan_comment_blocks(&formatted_text, &orphan_comments);
    }
    match options.indent_width {
        Some(width) => {
            formatted_text = apply_indent_width(&formatted_text, width);
        },
        None => {},
    }
    match options.blank_lines {
        Some(lines) => {
            formatted_text = collapse_blank_lines(&formatted_text, lines);
        },
        None => {},
    }
    string_of(&formatted_text)
}

/// The range of the whole document: from its start to the end of its last line.
pub open spec fn full_range(text: Seq<char>) -> Range {
    Range {
        start: Position { line: 0, character: 0 },
        end: Position {
            line: (text_line_count(text) - 1) as u32,
            character: text_line_len(text, text_line_count(text) - 1) as u32,
        },
    }
}

/// The edit that replaces the whole document by its formatted text.
pub fn format_program_with_options(pretty: &str, rope: &Rope, options: &FormatOptions) -> (edits: Option<
    Vec<TextEdit>,
>)
    ensures
        edits is Some,
        edits->0@.len() == 1,
        edits->0@[0].range == full_range(rope_text(*rope)),
        edits->0@[0].new_text@ == formatted_text(pretty@, rope_text(*rope), *options),
{
    let len = rope_len_chars(rope);
    let original: Vec<char> = match rope_slice(rope, 0, len) {
        Some(chars) => chars,
        None => Vec::new(),
    };
    assert(original@ =~= rope_text(*rope));
    let original_text = string_of(&original);
    let new_text = format_text(pretty, original_text.as_str(), options);
    let last_line_idx = rope_len_lines(rope) - 1;
    let last_char_col = match rope_line_len(rope, last_line_idx) {
        Some(len) => len,
        None => 0,
    };
    let end_position = Position {
        line: #[verifier::truncate] (last_line_idx as u32),
        character: #[verifier::truncate] (last_char_col as u32),
    };
    let full_range = Range { start: Position { line: 0, character: 0 }, end: end_position };
    let mut edits: Vec<TextEdit> = Vec::new();
    edits.push(TextEdit { range: full_range, new_text });
    Some(edits)
}

/// The edits that format a document with the default options.
pub fn format_program(pretty: &str, rope: &Rope) -> (edits: Option<Vec<TextEdit>>)
    ensures
        edits is Some,
        edits->0@.len() == 1,
        edits->0@[0].range == full_range(rope_text(*rope)),
        edits->0@[0].new_text@ == formatted_text(
            pretty@,
            rope_text(*rope),
            FormatOptions { indent_width: None, blank_lines: None },
        ),
{
    let options = FormatOptions { indent_width: None, blank_lines: None };
    format_program_with_options(pretty, rope, &options)
}

} // verus!
