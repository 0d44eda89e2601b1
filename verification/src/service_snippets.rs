//! The snippets that insert a call of a service method.
use crate::config::ServiceSnippetStyle;
use crate::semantic_analyze::{MethodSignature, MethodSignatureView};
use crate::syntax::FuncMode;
use crate::text::{chars_of, push_chars, push_str_chars, string_of};
use crate::type_display::{decimal_text, func_mode_keyword, func_mode_text, push_decimal_u64};
use vstd::prelude::*;

verus! {

/// Numbers the placeholders of a snippet, starting at one.
pub struct PlaceholderCounter {
    pub next_index: usize,
}

/// The number of the placeholder after number `index`. Numbers stop at the
/// largest `usize`.
pub open spec fn following_index(index: usize) -> usize {
    if index < usize::MAX {
        (index + 1) as usize
    } else {
        index
    }
}

/// The number reached from `index` after `n` placeholders.
pub open spec fn index_after(index: usize, n: nat) -> usize
    decreases n,
{
    if n == 0 {
        index
    } else {
        following_index(index_after(index, (n - 1) as nat))
    }
}

/// A placeholder: its number and its label.
pub open spec fn placeholder_text(index: usize, label: Seq<char>) -> Seq<char> {
    "${"@ + decimal_text(index as nat) + ":"@ + label + "}"@
}

impl PlaceholderCounter {
    /// A counter whose first placeholder is number one.
    pub fn new() -> (counter: PlaceholderCounter)
        ensures
            counter.next_index == 1,
    {
        PlaceholderCounter { next_index: 1 }
    }

    /// The next placeholder, with the given label.
    pub fn take(&mut self, label: &Vec<char>) -> (placeholder: Vec<char>)
        ensures
            placeholder@ == placeholder_text(old(self).next_index, label@),
            final(self).next_index == following_index(old(self).next_index),
    {
        let current = self.next_index;
        if self.next_index < usize::MAX {
            self.next_index += 1;
        }
        let mut buf: Vec<char> = Vec::new();
        push_str_chars(&mut buf, "${");
        push_decimal_u64(&mut buf, current as u64);
        push_str_chars(&mut buf, ":");
        push_chars(&mut buf, label);
        push_str_chars(&mut buf, "}");
        assert(buf@ =~= placeholder_text(current, label@));
        buf
    }
}

/// The first `n` texts, separated by `separator`.
pub open spec fn joined_upto(values: Seq<Seq<char>>, separator: Seq<char>, n: nat) -> Seq<char>
    decreases n,
{
    if n == 0 || n > values.len() {
        Seq::empty()
    } else {
        joined_upto(values, separator, (n - 1) as nat) + (if n > 1 {
            separator
        } else {
            Seq::empty()
        }) + values[n - 1]
    }
}

/// A list of types in parentheses, separated by commas.
pub open spec fn tuple_of(values: Seq<Seq<char>>) -> Seq<char> {
    "("@ + joined_upto(values, ", "@, values.len()) + ")"@
}

pub fn tuple_chars(values: &Vec<String>) -> (text: Vec<char>)
    ensures
        text@ == tuple_of(values.deep_view()),
{
    let mut buf: Vec<char> = Vec::new();
    push_str_chars(&mut buf, "(");
    let ghost start = buf@;
    let mut i: usize = 0;
    while i < values.len()
        invariant
            i <= values.len(),
            buf@ == start + joined_upto(values.deep_view(), ", "@, i as nat),
        decreases values.len() - i,
    {
        assert(values.deep_view()[i as int] == values@[i as int]@);
        if i > 0 {
            push_str_chars(&mut buf, ", ");
        }
        push_str_chars(&mut buf, values[i].as_str());
        i += 1;
        assert(buf@ =~= start + joined_upto(values.deep_view(), ", "@, i as nat));
    }
    push_str_chars(&mut buf, ")");
    assert(buf@ =~= tuple_of(values.deep_view()));
    buf
}

pub fn tuple_text(values: &Vec<String>) -> (text: String)
    ensures
        text@ == tuple_of(values.deep_view()),
{
    let chars = tuple_chars(values);
    string_of(&chars)
}

/// The placeholders of the first `n` arguments, numbered from `index` and
/// separated by commas.
pub open spec fn argument_list_upto(args: Seq<Seq<char>>, index: usize, n: nat) -> Seq<char>
    decreases n,
{
    if n == 0 || n > args.len() {
        Seq::empty()
    } else {
        argument_list_upto(args, index, (n - 1) as nat) + (if n > 1 {
            ", "@
        } else {
            Seq::empty()
        }) + placeholder_text(index_after(index, (n - 1) as nat), args[n - 1])
    }
}

/// The argument placeholders of a call: one for each argument of the
/// signature, or a single one where the signature is not known.
pub open spec fn argument_text(signature: Option<MethodSignatureView>, index: usize) -> Seq<char> {
    match signature {
        Some(signature) => argument_list_upto(signature.args, index, signature.args.len()),
        None => placeholder_text(index, "args"@),
    }
}

/// The number of the first placeholder after the arguments.
pub open spec fn index_after_arguments(signature: Option<MethodSignatureView>, index: usize) -> usize {
    match signature {
        Some(signature) => index_after(index, signature.args.len()),
        None => following_index(index),
    }
}

pub open spec fn signature_view(signature: Option<&MethodSignature>) -> Option<MethodSignatureView> {
    match signature {
        Some(signature) => Some(signature.deep_view()),
        None => None,
    }
}

pub fn argument_placeholders(signature: Option<&MethodSignature>, counter: &mut PlaceholderCounter) -> (text:
    Vec<char>)
    ensures
        text@ == argument_text(signature_view(signature), old(counter).next_index),
        final(counter).next_index == index_after_arguments(
            signature_view(signature),
            old(counter).next_index,
        ),
{
    match signature {
        Some(signature) => {
            let mut buf: Vec<char> = Vec::new();
            let ghost args = signature.args.deep_view();
            let mut i: usize = 0;
            while i < signature.args.len()
                invariant
                    i <= signature.args.len(),
                    args == signature.args.deep_view(),
                    buf@ == argument_list_upto(args, old(counter).next_index, i as nat),
                    counter.next_index == index_after(old(counter).next_index, i as nat),
                decreases signature.args.len() - i,
            {
                assert(args[i as int] == signature.args@[i as int]@);
                if i > 0 {
                    push_str_chars(&mut buf, ", ");
                }
                let label = chars_of(signature.args[i].as_str());
                let placeholder = counter.take(&label);
                push_chars(&mut buf, &placeholder);
                i += 1;
                assert(buf@ =~= argument_list_upto(args, old(counter).next_index, i as nat));
            }
            buf
        },
        None => {
            let label = chars_of("args");
            counter.take(&label)
        },
    }
}

/// The placeholder for what a call returns: none where the method returns
/// nothing, the type of a single result, or the tuple of several.
pub open spec fn result_placeholder(signature: Option<MethodSignatureView>, index: usize) -> Option<
    Seq<char>,
> {
    match signature {
        Some(signature) => if signature.rets.len() == 0 {
            None
        } else if signature.rets.len() == 1 {
            Some(placeholder_text(index, "result : "@ + signature.rets[0]))
        } else {
            Some(placeholder_text(index, "results : "@ + tuple_of(signature.rets)))
        },
        None => Some(placeholder_text(index, "result"@)),
    }
}

pub fn format_result_placeholder(signature: Option<&MethodSignature>, counter: &mut PlaceholderCounter) -> (text:
    Option<Vec<char>>)
    ensures
        match text {
            Some(found) => result_placeholder(signature_view(signature), old(counter).next_index)
                == Some(found@),
            None => result_placeholder(signature_view(signature), old(counter).next_index) is None,
        },
        final(counter).next_index == (if text is Some {
            following_index(old(counter).next_index)
        } else {
            old(counter).next_index
        }),
{
    match signature {
        Some(signature) => {
            if signature.rets.len() == 0 {
                None
            } else {
                let mut label: Vec<char> = Vec::new();
                if signature.rets.len() == 1 {
                    assert(signature.rets.deep_view()[0] == signature.rets@[0]@);
                    push_str_chars(&mut label, "result : ");
                    push_str_chars(&mut label, signature.rets[0].as_str());
                    assert(label@ =~= "result : "@ + signature.rets.deep_view()[0]);
                } else {
                    push_str_chars(&mut label, "results : ");
                    let tuple = tuple_chars(&signature.rets);
                    push_chars(&mut label, &tuple);
                    assert(label@ =~= "results : "@ + tuple_of(signature.rets.deep_view()));
                }
                Some(counter.take(&label))
            }
        },
        None => {
            let label = chars_of("result");
            Some(counter.take(&label))
        },
    }
}

/// The keywords of the first `n` annotations, separated by spaces.
pub open spec fn mode_list_upto(modes: Seq<FuncMode>, n: nat) -> Seq<char>
    decreases n,
{
    if n == 0 || n > modes.len() {
        Seq::empty()
    } else {
        mode_list_upto(modes, (n - 1) as nat) + (if n > 1 {
            " "@
        } else {
            Seq::empty()
        }) + func_mode_text(modes[n - 1])
    }
}

/// The signature of a method as shown with its snippet.
pub open spec fn signature_detail(name: Seq<char>, signature: Option<MethodSignatureView>) -> Seq<char> {
    match signature {
        Some(signature) => name + " : "@ + tuple_of(signature.args) + " -> "@ + tuple_of(signature.rets)
            + (if signature.modes.len() > 0 {
            " "@ + mode_list_upto(signature.modes, signature.modes.len())
        } else {
            Seq::empty()
        }),
        None => "service call snippet"@,
    }
}

pub fn method_signature_detail(name: &str, signature: Option<&MethodSignature>) -> (detail: String)
    ensures
        detail@ == signature_detail(name@, signature_view(signature)),
{
    match signature {
        Some(signature) => {
            let mut buf: Vec<char> = Vec::new();
            push_str_chars(&mut buf, name);
            push_str_chars(&mut buf, " : ");
            let args = tuple_chars(&signature.args);
            push_chars(&mut buf, &args);
            push_str_chars(&mut buf, " -> ");
            let rets = tuple_chars(&signature.rets);
            push_chars(&mut buf, &rets);
            let ghost head = buf@;
            assert(head =~= name@ + " : "@ + tuple_of(signature.args.deep_view()) + " -> "@ + tuple_of(
                signature.rets.deep_view(),
            ));
            if signature.modes.len() > 0 {
                let mut suffix: Vec<char> = Vec::new();
                let mut i: usize = 0;
                while i < signature.modes.len()
                    invariant
                        i <= signature.modes.len(),
                        suffix@ == mode_list_upto(signature.modes@, i as nat),
                    decreases signature.modes.len() - i,
                {
                    if i > 0 {
                        push_str_chars(&mut suffix, " ");
                    }
                    push_str_chars(&mut suffix, func_mode_keyword(&signature.modes[i]));
                    i += 1;
                    assert(suffix@ =~= mode_list_upto(signature.modes@, i as nat));
                }
                push_str_chars(&mut buf, " ");
                push_chars(&mut buf, &suffix);
                assert(buf@ =~= head + (" "@ + mode_list_upto(signature.modes@, signature.modes@.len())));
            } else {
                assert(buf@ =~= head + Seq::<char>::empty());
            }
            string_of(&buf)
        },
        None => "service call snippet".to_owned(),
    }
}

/// `text` followed by `result`, after a space where `text` is not empty.
pub open spec fn spaced(text: Seq<char>, result: Seq<char>) -> Seq<char> {
    (if text.len() > 0 {
        text + " "@
    } else {
        text
    }) + result
}

pub fn push_result(text: &mut Vec<char>, result: &Vec<char>)
    ensures
        final(text)@ == spaced(old(text)@, result@),
{
    if text.len() > 0 {
        push_str_chars(text, " ");
    }
    push_chars(text, result);
}

/// A call followed by its result placeholder, where it has one, and by the
/// final cursor position.
pub open spec fn with_result(call: Seq<char>, placeholder: Option<Seq<char>>) -> Seq<char> {
    (match placeholder {
        Some(result) => spaced(call, result),
        None => call,
    }) + "$0"@
}

pub fn append_result(call: Vec<char>, placeholder: Option<Vec<char>>) -> (text: Vec<char>)
    ensures
        text@ == with_result(
            call@,
            match placeholder {
                Some(result) => Some(result@),
                None => None,
            },
        ),
{
    let mut text = call;
    match placeholder {
        Some(result) => {
            push_result(&mut text, &result);
        },
        None => {},
    }
    push_str_chars(&mut text, "$0");
    text
}

/// The snippet that inserts a call of the method `name` in the given style.
pub open spec fn snippet_for(name: Seq<char>, signature: Option<MethodSignatureView>, style: ServiceSnippetStyle) -> Seq<
    char,
> {
    let call = name + "("@ + argument_text(signature, 1) + ")"@;
    let awaited = "await "@ + call;
    let result = result_placeholder(signature, index_after_arguments(signature, 1));
    match style {
        ServiceSnippetStyle::Call => with_result(call, result),
        ServiceSnippetStyle::Await => with_result(awaited, result),
        ServiceSnippetStyle::Async => "async { "@ + (match result {
            Some(result) => spaced(call, result),
            None => call,
        }) + " }$0"@,
        ServiceSnippetStyle::AwaitLet => match result {
            Some(result) => "let "@ + result + " = "@ + awaited + ";\n$0"@,
            None => awaited + ";\n$0"@,
        },
    }
}

pub fn service_snippet_for(name: &str, signature: Option<&MethodSignature>, style: ServiceSnippetStyle) -> (snippet:
    String)
    ensures
        snippet@ == snippet_for(name@, signature_view(signature), style),
{
    let mut counter = PlaceholderCounter::new();
    let args = argument_placeholders(signature, &mut counter);
    let mut call: Vec<char> = Vec::new();
    push_str_chars(&mut call, name);
    push_str_chars(&mut call, "(");
    push_chars(&mut call, &args);
    push_str_chars(&mut call, ")");
    assert(call@ =~= name@ + "("@ + args@ + ")"@);
    let mut awaited_call: Vec<char> = Vec::new();
    push_str_chars(&mut awaited_call, "await ");
    push_chars(&mut awaited_call, &call);
    assert(awaited_call@ =~= "await "@ + call@);
    let result_placeholder = format_result_placeholder(signature, &mut counter);
    let text = match style {
        ServiceSnippetStyle::Call => append_result(call, result_placeholder),
        ServiceSnippetStyle::Await => append_result(awaited_call, result_placeholder),
        ServiceSnippetStyle::Async => {
            let mut inner = call;
            match result_placeholder {
                Some(result) => {
                    push_result(&mut inner, &result);
                },
                None => {},
            }
            let mut text: Vec<char> = Vec::new();
            push_str_chars(&mut text, "async { ");
            push_chars(&mut text, &inner);
            push_str_chars(&mut text, " }$0");
            assert(text@ =~= "async { "@ + inner@ + " }$0"@);
            text
        },
        ServiceSnippetStyle::AwaitLet => {
            let mut text: Vec<char> = Vec::new();
            match result_placeholder {
                Some(result) => {
                    push_str_chars(&mut text, "let ");
                    push_chars(&mut text, &result);
                    push_str_chars(&mut text, " = ");
                    push_chars(&mut text, &awaited_call);
                    push_str_chars(&mut text, ";\n$0");
                    assert(text@ =~= "let "@ + result@ + " = "@ + awaited_call@ + ";\n$0"@);
                },
                None => {
                    push_chars(&mut text, &awaited_call);
                    push_str_chars(&mut text, ";\n$0");
                    assert(text@ =~= awaited_call@ + ";\n$0"@);
                },
            }
            text
        },
    };
    string_of(&text)
}

} // verus!
