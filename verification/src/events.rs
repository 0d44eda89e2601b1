//! The wording of the events that the server reports to its client.
use crate::text::{chars_of, push_chars, push_str_chars, string_of};
use crate::type_display::{decimal_text, push_decimal_u64};
use vstd::prelude::*;

verus! {

/// The decimal numeral of an integer, with a minus sign where it is negative.
pub open spec fn signed_decimal_text(n: int) -> Seq<char> {
    if n < 0 {
        seq!['-'] + decimal_text((-n) as nat)
    } else {
        decimal_text(n as nat)
    }
}

/// The tag that names a document's version.
pub open spec fn version_tag_text(version: Option<i32>) -> Seq<char> {
    match version {
        Some(value) => "(version: "@ + signed_decimal_text(value as int) + ")"@,
        None => "(version: none)"@,
    }
}

/// The line that reports an event, with its details where it has any.
pub open spec fn event_text(event: Seq<char>, details: Seq<char>) -> Seq<char> {
    if details.len() == 0 {
        "["@ + event + "]"@
    } else {
        "["@ + event + "] "@ + details
    }
}

pub fn version_tag(version: Option<i32>) -> (tag: String)
    ensures
        tag@ == version_tag_text(version),
{
    let mut buf: Vec<char> = Vec::new();
    match version {
        Some(value) => {
            push_str_chars(&mut buf, "(version: ");
            if value < 0 {
                buf.push('-');
                let magnitude: u64 = (-(value as i64)) as u64;
                push_decimal_u64(&mut buf, magnitude);
            } else {
                push_decimal_u64(&mut buf, value as u64);
            }
            push_str_chars(&mut buf, ")");
            assert(buf@ =~= version_tag_text(version));
        },
        None => {
            push_str_chars(&mut buf, "(version: none)");
            assert(buf@ =~= version_tag_text(version));
        },
    }
    string_of(&buf)
}

pub fn event_message(event: &str, details: &str) -> (message: String)
    ensures
        message@ == event_text(event@, details@),
{
    let rest = chars_of(details);
    let mut buf: Vec<char> = Vec::new();
    push_str_chars(&mut buf, "[");
    push_str_chars(&mut buf, event);
    if rest.len() == 0 {
        push_str_chars(&mut buf, "]");
    } else {
        push_str_chars(&mut buf, "] ");
        push_chars(&mut buf, &rest);
    }
    assert(buf@ =~= event_text(event@, details@));
    string_of(&buf)
}

} // verus!
