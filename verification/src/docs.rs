//! Documentation comments: cleaning the raw comment lines of a declaration
//! and preparing them for display as Markdown.
use crate::text::{chars_of, push_chars, push_str_chars, string_of, subvec, trim, trim_seq};
use vstd::prelude::*;

verus! {

pub open spec fn is_leading_run(s: Seq<char>, c: char, k: int) -> bool {
    0 <= k <= s.len() && (forall|i: int| 0 <= i < k ==> s[i] == c) && (k < s.len() ==> s[k] != c)
}

/// The number of copies of `c` at the start of `s`.
pub open spec fn leading_run(s: Seq<char>, c: char) -> int {
    choose|k: int| is_leading_run(s, c, k)
}

/// A count that is a leading run is the leading run: there is only one.
pub proof fn lemma_leading_run_is(s: Seq<char>, c: char, k: int)
    requires
        is_leading_run(s, c, k),
    ensures
        leading_run(s, c) == k,
{
    let found = leading_run(s, c);
    if found < k {
        assert(s[found] == c);
    } else if k < found {
        assert(s[k] == c);
    }
}

/// `s` without the copies of `c` at its start.
pub open spec fn strip_leading(s: Seq<char>, c: char) -> Seq<char> {
    s.subrange(leading_run(s, c), s.len() as int)
}

pub fn trim_start_matches(s: &Vec<char>, c: char) -> (r: Vec<char>)
    ensures
        r@ == strip_leading(s@, c),
{
    let mut i: usize = 0;
    while i < s.len() && s[i] == c
        invariant
            i <= s.len(),
            forall|j: int| 0 <= j < i ==> s@[j] == c,
        decreases s.len() - i,
    {
        i += 1;
    }
    proof {
        lemma_leading_run_is(s@, c, i as int);
    }
    subvec(s, i, s.len())
}

/// A raw comment line without its comment marker and surrounding whitespace.
pub open spec fn clean_doc_line(doc: Seq<char>) -> Seq<char> {
    trim_seq(strip_leading(trim_seq(doc), '/'))
}

/// The cleaned, non-empty lines among the first `n` comment lines, joined by
/// line feeds; `None` where there is no such line.
pub open spec fn joined_docs(docs: Seq<Seq<char>>, n: nat) -> Option<Seq<char>>
    decreases n,
{
    if n == 0 || n > docs.len() {
        None
    } else {
        let before = joined_docs(docs, (n - 1) as nat);
        let line = clean_doc_line(docs[n - 1]);
        if line.len() == 0 {
            before
        } else {
            match before {
                None => Some(line),
                Some(text) => Some(text + "\n"@ + line),
            }
        }
    }
}

/// What one character of documentation becomes. Outside a code block a line
/// end is preceded by two spaces, which Markdown reads as a hard break.
pub open spec fn annotated_char(c: char, in_code: bool) -> Seq<char> {
    if c == '\n' {
        if in_code {
            "\n"@
        } else {
            "  \n"@
        }
    } else if c == '\r' {
        if in_code {
            "\r"@
        } else {
            "  \r"@
        }
    } else {
        seq![c]
    }
}

pub open spec fn fence_at(text: Seq<char>, i: int) -> bool {
    0 <= i && i + 3 <= text.len() && text[i] == '`' && text[i + 1] == '`' && text[i + 2] == '`'
}

/// The annotated form of `text` from index `i` on. Each fence that opens a
/// code block is tagged with the language name; each other fence closes one.
pub open spec fn annotate_from(text: Seq<char>, i: int, in_code: bool) -> Seq<char>
    decreases text.len() - i,
{
    if i < 0 || i >= text.len() {
        Seq::empty()
    } else if fence_at(text, i) {
        "```"@ + (if in_code {
            Seq::empty()
        } else {
            "candid"@
        }) + annotate_from(text, i + 3, !in_code)
    } else {
        annotated_char(text[i], in_code) + annotate_from(text, i + 1, in_code)
    }
}

/// `text` with code fences tagged and line ends outside code blocks made hard breaks.
pub open spec fn annotated(text: Seq<char>) -> Seq<char> {
    annotate_from(text, 0, false)
}

pub fn annotate_code_fences(text: &Vec<char>) -> (result: Vec<char>)
    ensures
        result@ == annotated(text@),
{
    let mut result: Vec<char> = Vec::new();
    let len = text.len();
    let mut i: usize = 0;
    let mut in_code = false;
    while i < len
        invariant
            len == text.len(),
            i <= len,
            result@ + annotate_from(text@, i as int, in_code) == annotated(text@),
        decreases len - i,
    {
        let ghost before = result@;
        if len - i >= 3 && text[i] == '`' && text[i + 1] == '`' && text[i + 2] == '`' {
            push_str_chars(&mut result, "```");
            if !in_code {
                push_str_chars(&mut result, "candid");
            }
            assert(result@ + annotate_from(text@, i + 3, !in_code) =~= before + annotate_from(
                text@,
                i as int,
                in_code,
            ));
            i += 3;
            in_code = !in_code;
        } else {
            let ch = text[i];
            if ch == '\n' {
                if in_code {
                    push_str_chars(&mut result, "\n");
                } else {
                    push_str_chars(&mut result, "  \n");
                }
            } else if ch == '\r' {
                if in_code {
                    push_str_chars(&mut result, "\r");
                } else {
                    push_str_chars(&mut result, "  \r");
                }
            } else {
                result.push(ch);
            }
            assert(result@ =~= before + annotated_char(ch, in_code));
            assert(result@ + annotate_from(text@, i + 1, in_code) =~= before + annotate_from(
                text@,
                i as int,
                in_code,
            ));
            i += 1;
        }
    }
    assert(result@ =~= result@ + annotate_from(text@, i as int, in_code));
    result
}

/// The documentation of a declaration, ready for display: its cleaned lines
/// joined and annotated. A declaration without text in its comments has none.
pub open spec fn formatted_docs(docs: Seq<Seq<char>>) -> Option<Seq<char>> {
    match joined_docs(docs, docs.len()) {
        None => None,
        Some(text) => Some(annotated(text)),
    }
}

pub fn format_docs(docs: &Vec<String>) -> (result: Option<String>)
    ensures
        result.deep_view() == formatted_docs(docs.deep_view()),
{
    let mut joined: Option<Vec<char>> = None;
    let mut i: usize = 0;
    while i < docs.len()
        invariant
            i <= docs.len(),
            joined.deep_view() == joined_docs(docs.deep_view(), i as nat),
        decreases docs.len() - i,
    {
        let raw = chars_of(docs[i].as_str());
        assert(raw@ == docs.deep_view()[i as int]);
        let outer = trim(&raw);
        let stripped = trim_start_matches(&outer, '/');
        let line = trim(&stripped);
        if line.len() > 0 {
            joined = match joined {
                None => Some(line),
                Some(text) => {
                    let mut text = text;
                    text.push('\n');
                    push_chars(&mut text, &line);
                    proof {
                        reveal_strlit("\n");
                        assert(text@ =~= joined_docs(docs.deep_view(), i as nat)->0 + "\n"@ + line@);
                    }
                    Some(text)
                },
            };
        }
        i += 1;
    }
    assert(docs.deep_view().len() == docs.len());
    match joined {
        None => {
            assert(joined_docs(docs.deep_view(), docs.deep_view().len()) is None);
            None
        },
        Some(text) => {
            assert(joined_docs(docs.deep_view(), docs.deep_view().len()) == Some(text@));
            let result = annotate_code_fences(&text);
            Some(string_of(&result))
        },
    }
}

} // verus!
