//! Line-level helpers for tidying formatted text.
use crate::docs::{strip_leading, trim_start_matches};
use crate::service_snippets::joined_upto;
use crate::text::{
    char_is_whitespace, char_is_word, chars_of, count_leading_ws, ends_with, ends_with_seq,
    has_match_at, is_whitespace, is_word_char, leading_ws, matches_at, push_chars, push_str_chars,
    starts_with, starts_with_seq, string_of, subvec, trim_end, trim_end_seq, trim_start,
    trim_start_seq,
};
use vstd::prelude::*;

verus! {

/// The index of the first line feed at or after `i`; the length of the text
/// where there is none.
pub open spec fn line_end(text: Seq<char>, i: int) -> int
    decreases text.len() - i,
{
    if i < 0 || i >= text.len() {
        text.len() as int
    } else if text[i] == '\n' {
        i
    } else {
        line_end(text, i + 1)
    }
}

proof fn lemma_line_end_bounds(text: Seq<char>, i: int)
    requires
        0 <= i <= text.len(),
    ensures
        i <= line_end(text, i) <= text.len(),
        line_end(text, i) < text.len() ==> text[line_end(text, i)] == '\n',
    decreases text.len() - i,
{
    if i < text.len() && text[i] != '\n' {
        lemma_line_end_bounds(text, i + 1);
    }
}

/// The line that occupies `text[start..end]`: a line that a line feed ends
/// loses a carriage return before that line feed.
pub open spec fn line_between(text: Seq<char>, start: int, end: int) -> Seq<char> {
    if end < text.len() && start < end && text[end - 1] == '\r' {
        text.subrange(start, end - 1)
    } else {
        text.subrange(start, end)
    }
}

/// The lines of `text` from index `i` on. Lines end at line feeds; a text
/// that ends with a line feed has no empty last line.
pub open spec fn lines_from(text: Seq<char>, i: int) -> Seq<Seq<char>>
    decreases text.len() - i,
{
    if i < 0 || i >= text.len() {
        Seq::empty()
    } else {
        let end = line_end(text, i);
        if end < i || end >= text.len() {
            seq![line_between(text, i, text.len() as int)]
        } else {
            seq![line_between(text, i, end)] + lines_from(text, end + 1)
        }
    }
}

/// The lines of `text`.
pub open spec fn lines_of(text: Seq<char>) -> Seq<Seq<char>> {
    lines_from(text, 0)
}

pub fn split_lines(text: &Vec<char>) -> (lines: Vec<String>)
    ensures
        lines.deep_view() == lines_of(text@),
{
    let mut lines: Vec<String> = Vec::new();
    assert(lines.deep_view() =~= Seq::empty());
    let len = text.len();
    let mut i: usize = 0;
    while i < len
        invariant
            len == text.len(),
            i <= len,
            lines.deep_view() + lines_from(text@, i as int) == lines_of(text@),
        decreases len - i,
    {
        let mut end: usize = i;
        while end < len && text[end] != '\n'
            invariant
                i <= end <= len,
                len == text.len(),
                line_end(text@, end as int) == line_end(text@, i as int),
            decreases len - end,
        {
            end += 1;
        }
        assert(line_end(text@, i as int) == end);
        assert(lines_from(text@, len as int) =~= Seq::empty());
        let stop = if end < len && i < end && text[end - 1] == '\r' {
            end - 1
        } else {
            end
        };
        let line = subvec(text, i, stop);
        let ghost before = lines;
        let entry = string_of(&line);
        lines.push(entry);
        proof {
            assert(lines.deep_view() =~= before.deep_view().push(entry@));
            assert(before.deep_view() + lines_from(text@, i as int) =~= lines.deep_view() + lines_from(
                text@,
                end + 1,
            ));
        }
        if end < len {
            i = end + 1;
        } else {
            i = len;
        }
    }
    assert(lines.deep_view() + lines_from(text@, i as int) =~= lines.deep_view());
    lines
}

/// The lines joined by line feeds.
pub open spec fn joined_lines(lines: Seq<Seq<char>>) -> Seq<char> {
    joined_upto(lines, "\n"@, lines.len())
}

pub fn join_lines(lines: &Vec<String>) -> (text: Vec<char>)
    ensures
        text@ == joined_lines(lines.deep_view()),
{
    let mut text: Vec<char> = Vec::new();
    let mut i: usize = 0;
    while i < lines.len()
        invariant
            i <= lines.len(),
            text@ == joined_upto(lines.deep_view(), "\n"@, i as nat),
        decreases lines.len() - i,
    {
        assert(lines.deep_view()[i as int] == lines@[i as int]@);
        if i > 0 {
            push_str_chars(&mut text, "\n");
        }
        push_str_chars(&mut text, lines[i].as_str());
        i += 1;
        assert(text@ =~= joined_upto(lines.deep_view(), "\n"@, i as nat));
    }
    text
}

pub open spec fn ends_with_newline(text: Seq<char>) -> bool {
    text.len() > 0 && text.last() == '\n'
}

/// Whether a line is a line comment.
pub open spec fn is_comment(line: Seq<char>) -> bool {
    starts_with_seq(trim_start_seq(line), "//"@)
}

pub fn is_comment_line(line: &Vec<char>) -> (comment: bool)
    ensures
        comment == is_comment(line@),
{
    let trimmed = trim_start(line);
    let marker = chars_of("//");
    starts_with(&trimmed, &marker)
}

/// Whether a line begins an import.
pub open spec fn is_import(line: Seq<char>) -> bool {
    starts_with_seq(trim_start_seq(line), "import"@)
}

pub fn is_import_line(line: &Vec<char>) -> (import: bool)
    ensures
        import == is_import(line@),
{
    let trimmed = trim_start(line);
    let keyword = chars_of("import");
    starts_with(&trimmed, &keyword)
}

/// The first `n` characters of a line without the whitespace among them.
pub open spec fn normalized_upto(line: Seq<char>, n: nat) -> Seq<char>
    decreases n,
{
    if n == 0 || n > line.len() {
        Seq::empty()
    } else {
        let before = normalized_upto(line, (n - 1) as nat);
        if is_whitespace(line[n - 1]) {
            before
        } else {
            before.push(line[n - 1])
        }
    }
}

/// A line without any whitespace: what two lines are compared by.
pub open spec fn normalized_line(line: Seq<char>) -> Seq<char> {
    normalized_upto(line, line.len())
}

pub fn normalize_line(line: &Vec<char>) -> (normalized: Vec<char>)
    ensures
        normalized@ == normalized_line(line@),
{
    let mut normalized: Vec<char> = Vec::new();
    let mut i: usize = 0;
    while i < line.len()
        invariant
            i <= line.len(),
            normalized@ == normalized_upto(line@, i as nat),
        decreases line.len() - i,
    {
        if !char_is_whitespace(line[i]) {
            normalized.push(line[i]);
        }
        i += 1;
    }
    normalized
}

/// Whether one of the first `n` lines begins an import.
pub open spec fn has_import_upto(lines: Seq<Seq<char>>, n: nat) -> bool
    decreases n,
{
    if n == 0 || n > lines.len() {
        false
    } else {
        has_import_upto(lines, (n - 1) as nat) || is_import(lines[n - 1])
    }
}

pub open spec fn has_imports(formatted: Seq<char>) -> bool {
    has_import_upto(lines_of(formatted), lines_of(formatted).len())
}

pub fn formatted_has_imports(formatted: &Vec<char>) -> (has: bool)
    ensures
        has == has_imports(formatted@),
{
    let lines = split_lines(formatted);
    let mut has = false;
    let mut i: usize = 0;
    while i < lines.len()
        invariant
            i <= lines.len(),
            has == has_import_upto(lines.deep_view(), i as nat),
        decreases lines.len() - i,
    {
        assert(lines.deep_view()[i as int] == lines@[i as int]@);
        let line = chars_of(lines[i].as_str());
        if is_import_line(&line) {
            has = true;
        }
        i += 1;
    }
    has
}

/// The imports, one per line, then a blank line, then the formatted text
/// without line feeds at its start.
pub open spec fn with_imports(formatted: Seq<char>, imports: Seq<Seq<char>>) -> Seq<char> {
    joined_lines(imports) + "\n"@ + (if formatted.len() > 0 && formatted[0] == '\n' {
        Seq::empty()
    } else {
        "\n"@
    }) + strip_leading(formatted, '\n')
}

pub fn prepend_imports(formatted: &Vec<char>, imports: &Vec<String>) -> (output: Vec<char>)
    ensures
        output@ == with_imports(formatted@, imports.deep_view()),
{
    let mut output = join_lines(imports);
    push_str_chars(&mut output, "\n");
    if !(formatted.len() > 0 && formatted[0] == '\n') {
        push_str_chars(&mut output, "\n");
    }
    let rest = trim_start_matches(formatted, '\n');
    push_chars(&mut output, &rest);
    assert(output@ =~= with_imports(formatted@, imports.deep_view()));
    output
}

pub open spec fn is_ident_start_char(ch: char) -> bool {
    ('a' <= ch && ch <= 'z') || ('A' <= ch && ch <= 'Z') || ch == '_'
}

pub fn is_ident_start(ch: char) -> (start: bool)
    ensures
        start == is_ident_start_char(ch),
{
    (ch >= 'a' && ch <= 'z') || (ch >= 'A' && ch <= 'Z') || ch == '_'
}

pub fn is_ident_continue(ch: char) -> (part: bool)
    ensures
        part == is_word_char(ch),
{
    char_is_word(ch)
}

pub open spec fn is_ident_len(s: Seq<char>, k: int) -> bool {
    0 <= k <= s.len() && (forall|i: int| 0 <= i < k ==> is_word_char(s[i])) && (k < s.len()
        ==> !is_word_char(s[k]))
}

/// The number of name characters at the start of `s`.
pub open spec fn ident_len(s: Seq<char>) -> int {
    choose|k: int| is_ident_len(s, k)
}

proof fn lemma_ident_len_is(s: Seq<char>, k: int)
    requires
        is_ident_len(s, k),
    ensures
        ident_len(s) == k,
{
    let found = ident_len(s);
    if found < k {
        assert(is_word_char(s[found]));
    } else if k < found {
        assert(is_word_char(s[k]));
    }
}

/// The name of the service that a line declares: the line begins with
/// `service`, a name follows, and a colon follows the name.
pub open spec fn service_name_of(trimmed: Seq<char>) -> Option<Seq<char>> {
    if !starts_with_seq(trimmed, "service"@) {
        None
    } else {
        let rest = trim_start_seq(trimmed.subrange("service"@.len() as int, trimmed.len() as int));
        if rest.len() == 0 || !is_ident_start_char(rest[0]) {
            None
        } else {
            let after = trim_start_seq(rest.subrange(ident_len(rest), rest.len() as int));
            if after.len() > 0 && after[0] == ':' {
                Some(rest.subrange(0, ident_len(rest)))
            } else {
                None
            }
        }
    }
}

pub fn extract_service_name_from_line(trimmed: &Vec<char>) -> (name: Option<Vec<char>>)
    ensures
        match name {
            Some(found) => service_name_of(trimmed@) == Some(found@),
            None => service_name_of(trimmed@) is None,
        },
{
    let keyword = chars_of("service");
    if !starts_with(trimmed, &keyword) {
        return None;
    }
    assert(matches_at(trimmed@, keyword@, 0));
    let tail = subvec(trimmed, keyword.len(), trimmed.len());
    let rest = trim_start(&tail);
    if rest.len() == 0 || !is_ident_start(rest[0]) {
        return None;
    }
    let mut end: usize = 0;
    while end < rest.len() && char_is_word(rest[end])
        invariant
            end <= rest.len(),
            forall|j: int| 0 <= j < end ==> is_word_char(rest@[j]),
        decreases rest.len() - end,
    {
        end += 1;
    }
    proof {
        lemma_ident_len_is(rest@, end as int);
    }
    let behind = subvec(&rest, end, rest.len());
    let after = trim_start(&behind);
    if after.len() > 0 && after[0] == ':' {
        Some(subvec(&rest, 0, end))
    } else {
        None
    }
}

/// Whether a line ends a statement.
pub open spec fn ends_statement(line: Seq<char>) -> bool {
    ends_with_seq(trim_end_seq(line), ";"@)
}

fn line_ends_statement(line: &Vec<char>) -> (ends: bool)
    ensures
        ends == ends_statement(line@),
{
    let trimmed = trim_end(line);
    let semicolon = chars_of(";");
    ends_with(&trimmed, &semicolon)
}

/// An import statement that starts on line `i` and has been read up to,
/// but not including, line `j`: its text, and the line after its end. The
/// statement goes on until a line ends it or the lines run out.
pub open spec fn import_statement(lines: Seq<Seq<char>>, text: Seq<char>, j: int) -> (Seq<char>, int)
    decreases lines.len() - j,
{
    if j < 0 || j >= lines.len() {
        (text, lines.len() as int)
    } else if ends_statement(lines[j]) {
        (text + "\n"@ + lines[j], j + 1)
    } else {
        import_statement(lines, text + "\n"@ + lines[j], j + 1)
    }
}

/// The import statements and the service name found from line `i` on,
/// given those found before.
pub open spec fn imports_and_name_from(
    lines: Seq<Seq<char>>,
    i: int,
    imports: Seq<Seq<char>>,
    name: Option<Seq<char>>,
) -> (Seq<Seq<char>>, Option<Seq<char>>)
    decreases lines.len() - i,
{
    if i < 0 || i >= lines.len() {
        (imports, name)
    } else if is_import(lines[i]) {
        if ends_statement(lines[i]) {
            imports_and_name_from(lines, i + 1, imports.push(lines[i]), name)
        } else {
            let statement = import_statement(lines, lines[i], i + 1);
            if i < statement.1 <= lines.len() {
                imports_and_name_from(lines, statement.1, imports.push(statement.0), name)
            } else {
                (imports, name)
            }
        }
    } else {
        imports_and_name_from(
            lines,
            i + 1,
            imports,
            if name is None {
                service_name_of(trim_start_seq(lines[i]))
            } else {
                name
            },
        )
    }
}

/// The import statements of a source text, each as written, and the name
/// of the first named service.
pub open spec fn imports_and_name(src: Seq<char>) -> (Seq<Seq<char>>, Option<Seq<char>>) {
    imports_and_name_from(lines_of(src), 0, Seq::empty(), None)
}

proof fn lemma_import_statement_end(lines: Seq<Seq<char>>, text: Seq<char>, j: int)
    requires
        0 <= j <= lines.len(),
    ensures
        j <= import_statement(lines, text, j).1 <= lines.len(),
    decreases lines.len() - j,
{
    if j < lines.len() && !ends_statement(lines[j]) {
        lemma_import_statement_end(lines, text + "\n"@ + lines[j], j + 1);
    }
}

pub fn extract_imports_and_service_name(src: &Vec<char>) -> (result: (Vec<String>, Option<String>))
    ensures
        (result.0.deep_view(), result.1.deep_view()) == imports_and_name(src@),
{
    let lines = split_lines(src);
    let ghost all = lines.deep_view();
    let mut imports: Vec<String> = Vec::new();
    let mut service_name: Option<String> = None;
    assert(imports.deep_view() =~= Seq::empty());
    let mut i: usize = 0;
    while i < lines.len()
        invariant
            i <= lines.len(),
            all == lines.deep_view(),
            imports_and_name_from(all, i as int, imports.deep_view(), service_name.deep_view())
                == imports_and_name(src@),
        decreases lines.len() - i,
    {
        assert(all[i as int] == lines@[i as int]@);
        let line = chars_of(lines[i].as_str());
        let ghost found = imports;
        if is_import_line(&line) {
            if line_ends_statement(&line) {
                let entry = string_of(&line);
                imports.push(entry);
                assert(imports.deep_view() =~= found.deep_view().push(entry@));
                i += 1;
            } else {
                let mut statement = line;
                let mut j: usize = i + 1;
                let mut ended = false;
                while j < lines.len() && !ended
                    invariant
                        i < j <= lines.len(),
                        all == lines.deep_view(),
                        !ended ==> import_statement(all, statement@, j as int) == import_statement(
                            all,
                            all[i as int],
                            i + 1,
                        ),
                        ended ==> (statement@, j as int) == import_statement(all, all[i as int], i + 1),
                    decreases lines.len() - j, if ended { 0int } else { 1int },
                {
                    assert(all[j as int] == lines@[j as int]@);
                    let next = chars_of(lines[j].as_str());
                    push_str_chars(&mut statement, "\n");
                    push_chars(&mut statement, &next);
                    if line_ends_statement(&next) {
                        ended = true;
                    }
                    j += 1;
                }
                proof {
                    lemma_import_statement_end(all, all[i as int], i + 1);
                }
                let entry = string_of(&statement);
                imports.push(entry);
                assert(imports.deep_view() =~= found.deep_view().push(entry@));
                i = j;
            }
        } else {
            if service_name.is_none() {
                let trimmed = trim_start(&line);
                service_name = match extract_service_name_from_line(&trimmed) {
                    Some(name) => Some(string_of(&name)),
                    None => None,
                };
            }
            i += 1;
        }
    }
    (imports, service_name)
}

/// Whether, at index `start` of the formatted text, an unnamed service is
/// declared: the word `service` stands there, not as the tail of a longer
/// name, and a colon follows it after optional whitespace. Gives the index
/// of that colon.
pub open spec fn service_colon_at(formatted: Seq<char>, start: int) -> Option<int> {
    if !matches_at(formatted, "service"@, start) || (start > 0 && is_word_char(formatted[start - 1])) {
        None
    } else {
        let rest = formatted.subrange(start + "service"@.len(), formatted.len() as int);
        let colon = start + "service"@.len() + leading_ws(rest);
        if colon < formatted.len() && formatted[colon] == ':' {
            Some(colon)
        } else {
            None
        }
    }
}

/// The first index, from `start` on, at which an unnamed service is declared.
pub open spec fn service_slot_from(formatted: Seq<char>, start: int) -> Option<int>
    decreases formatted.len() - start,
{
    if start < 0 || start >= formatted.len() {
        None
    } else if service_colon_at(formatted, start) is Some {
        Some(start)
    } else {
        service_slot_from(formatted, start + 1)
    }
}

/// The formatted text with its first unnamed service given the name; as it
/// is where it declares no unnamed service.
pub open spec fn with_service_name(formatted: Seq<char>, name: Seq<char>) -> Seq<char> {
    match service_slot_from(formatted, 0) {
        Some(start) => formatted.subrange(0, start) + "service "@ + name + " :"@ + formatted.subrange(
            service_colon_at(formatted, start)->0 + 1,
            formatted.len() as int,
        ),
        None => formatted,
    }
}

pub fn inject_service_name(formatted: &mut Vec<char>, name: &Vec<char>) -> (injected: bool)
    ensures
        injected == (service_slot_from(old(formatted)@, 0) is Some),
        final(formatted)@ == with_service_name(old(formatted)@, name@),
{
    let keyword = chars_of("service");
    let len = formatted.len();
    let mut start: usize = 0;
    while start < len
        invariant
            start <= len,
            len == formatted.len(),
            *formatted == *old(formatted),
            keyword@ == "service"@,
            service_slot_from(formatted@, start as int) == service_slot_from(formatted@, 0),
        decreases len - start,
    {
        if has_match_at(formatted, &keyword, start) && !(start > 0 && char_is_word(
            formatted[start - 1],
        )) {
            let cursor = start + keyword.len();
            let rest = subvec(formatted, cursor, len);
            let skipped = count_leading_ws(&rest);
            let colon = cursor + skipped;
            if colon < len && formatted[colon] == ':' {
                let mut output = subvec(formatted, 0, start);
                push_str_chars(&mut output, "service ");
                push_chars(&mut output, name);
                push_str_chars(&mut output, " :");
                let tail = subvec(formatted, colon + 1, len);
                push_chars(&mut output, &tail);
                assert(output@ =~= formatted@.subrange(0, start as int) + "service "@ + name@ + " :"@
                    + formatted@.subrange(colon + 1, len as int));
                *formatted = output;
                return true;
            }
        }
        start += 1;
    }
    false
}

} // verus!
