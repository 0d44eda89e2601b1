//! Names and static documentation of the language's keywords and primitive types.
use crate::syntax::PrimType;
use crate::text::{chars_of, push_chars, push_str_chars, string_of, trim};
use crate::text::trim_seq;
use vstd::prelude::*;

verus! {

/// The rendered definition of a declared type and its documentation comment.
#[derive(Clone, Debug, PartialEq, Eq)]
pub struct TypeDoc {
    pub definition: String,
    pub docs: Option<String>,
}

pub struct TypeDocView {
    pub definition: Seq<char>,
    pub docs: Option<Seq<char>>,
}

impl DeepView for TypeDoc {
    type V = TypeDocView;

    open spec fn deep_view(&self) -> TypeDocView {
        TypeDocView { definition: self.definition@, docs: self.docs.deep_view() }
    }
}

/// The keywords that carry documentation.
#[derive(Clone, Copy, Debug, PartialEq, Eq, Hash, Structural)]
pub enum KeywordDoc {
    Func,
    Opt,
    Principal,
    Record,
    Service,
    Type,
    Variant,
    Vec,
    Oneway,
    Query,
    CompositeQuery,
    Import,
}

/// The source spelling of a primitive type.
pub open spec fn primitive_text(kind: PrimType) -> Seq<char> {
    match kind {
        PrimType::Nat => "nat"@,
        PrimType::Nat8 => "nat8"@,
        PrimType::Nat16 => "nat16"@,
        PrimType::Nat32 => "nat32"@,
        PrimType::Nat64 => "nat64"@,
        PrimType::Int => "int"@,
        PrimType::Int8 => "int8"@,
        PrimType::Int16 => "int16"@,
        PrimType::Int32 => "int32"@,
        PrimType::Int64 => "int64"@,
        PrimType::Float32 => "float32"@,
        PrimType::Float64 => "float64"@,
        PrimType::Bool => "bool"@,
        PrimType::Text => "text"@,
        PrimType::Null => "null"@,
        PrimType::Reserved => "reserved"@,
        PrimType::Empty => "empty"@,
    }
}

/// The keyword of a primitive type.
pub fn primitive_name(kind: &PrimType) -> (name: &'static str)
    ensures
        name@ == primitive_text(*kind),
{
    match kind {
        PrimType::Nat => "nat",
        PrimType::Nat8 => "nat8",
        PrimType::Nat16 => "nat16",
        PrimType::Nat32 => "nat32",
        PrimType::Nat64 => "nat64",
        PrimType::Int => "int",
        PrimType::Int8 => "int8",
        PrimType::Int16 => "int16",
        PrimType::Int32 => "int32",
        PrimType::Int64 => "int64",
        PrimType::Float32 => "float32",
        PrimType::Float64 => "float64",
        PrimType::Bool => "bool",
        PrimType::Text => "text",
        PrimType::Null => "null",
        PrimType::Reserved => "reserved",
        PrimType::Empty => "empty",
    }
}

/// The source spelling of a keyword.
pub open spec fn keyword_text(kind: KeywordDoc) -> Seq<char> {
    match kind {
        KeywordDoc::Func => "func"@,
        KeywordDoc::Opt => "opt"@,
        KeywordDoc::Principal => "principal"@,
        KeywordDoc::Record => "record"@,
        KeywordDoc::Service => "service"@,
        KeywordDoc::Type => "type"@,
        KeywordDoc::Variant => "variant"@,
        KeywordDoc::Vec => "vec"@,
        KeywordDoc::Oneway => "oneway"@,
        KeywordDoc::Query => "query"@,
        KeywordDoc::CompositeQuery => "composite_query"@,
        KeywordDoc::Import => "import"@,
    }
}

impl KeywordDoc {
    /// The spelling of the keyword.
    pub fn keyword(self) -> (name: &'static str)
        ensures
            name@ == keyword_text(self),
    {
        match self {
            KeywordDoc::Func => "func",
            KeywordDoc::Opt => "opt",
            KeywordDoc::Principal => "principal",
            KeywordDoc::Record => "record",
            KeywordDoc::Service => "service",
            KeywordDoc::Type => "type",
            KeywordDoc::Variant => "variant",
            KeywordDoc::Vec => "vec",
            KeywordDoc::Oneway => "oneway",
            KeywordDoc::Query => "query",
            KeywordDoc::CompositeQuery => "composite_query",
            KeywordDoc::Import => "import",
        }
    }
}

/// The description shown for a primitive type.
pub open spec fn primitive_body_text(kind: PrimType) -> Seq<char> {
    match kind {
        PrimType::Nat => "Unbounded non-negative integers. Values are limited only by available memory."@,
        PrimType::Nat8 => "Unsigned 8-bit integers, from 0 to 255."@,
        PrimType::Nat16 => "Unsigned 16-bit integers, from 0 to 65535."@,
        PrimType::Nat32 => "Unsigned 32-bit integers, from 0 to 4294967295."@,
        PrimType::Nat64 => "Unsigned 64-bit integers, from 0 to 18446744073709551615."@,
        PrimType::Int => "Unbounded signed integers. Every `nat` is also an `int`."@,
        PrimType::Int8 => "Signed 8-bit integers, from -128 to 127."@,
        PrimType::Int16 => "Signed 16-bit integers, from -32768 to 32767."@,
        PrimType::Int32 => "Signed 32-bit integers, from -2147483648 to 2147483647."@,
        PrimType::Int64 => "Signed 64-bit integers, from -9223372036854775808 to 9223372036854775807."@,
        PrimType::Float32 => "Single-precision IEEE 754 floating-point numbers."@,
        PrimType::Float64 => "Double-precision IEEE 754 floating-point numbers."@,
        PrimType::Bool => "Logical values: `true` or `false`."@,
        PrimType::Text => "Human-readable text, a sequence of Unicode code points."@,
        PrimType::Null => "The type with the single value `null`."@,
        PrimType::Reserved => "A placeholder for a retired argument or field: it accepts any value and keeps none."@,
        PrimType::Empty => "The type without values, used for results that are never produced."@,
    }
}

fn primitive_body(kind: &PrimType) -> (body: &'static str)
    ensures
        body@ == primitive_body_text(*kind),
{
    match kind {
        PrimType::Nat => "Unbounded non-negative integers. Values are limited only by available memory.",
        PrimType::Nat8 => "Unsigned 8-bit integers, from 0 to 255.",
        PrimType::Nat16 => "Unsigned 16-bit integers, from 0 to 65535.",
        PrimType::Nat32 => "Unsigned 32-bit integers, from 0 to 4294967295.",
        PrimType::Nat64 => "Unsigned 64-bit integers, from 0 to 18446744073709551615.",
        PrimType::Int => "Unbounded signed integers. Every `nat` is also an `int`.",
        PrimType::Int8 => "Signed 8-bit integers, from -128 to 127.",
        PrimType::Int16 => "Signed 16-bit integers, from -32768 to 32767.",
        PrimType::Int32 => "Signed 32-bit integers, from -2147483648 to 2147483647.",
        PrimType::Int64 => "Signed 64-bit integers, from -9223372036854775808 to 9223372036854775807.",
        PrimType::Float32 => "Single-precision IEEE 754 floating-point numbers.",
        PrimType::Float64 => "Double-precision IEEE 754 floating-point numbers.",
        PrimType::Bool => "Logical values: `true` or `false`.",
        PrimType::Text => "Human-readable text, a sequence of Unicode code points.",
        PrimType::Null => "The type with the single value `null`.",
        PrimType::Reserved => "A placeholder for a retired argument or field: it accepts any value and keeps none.",
        PrimType::Empty => "The type without values, used for results that are never produced.",
    }
}

/// The description shown for the `blob` alias.
pub open spec fn blob_body_text() -> Seq<char> {
    "Binary data, a sequence of bytes. `blob` is shorthand for `vec nat8`."@
}

/// The description shown for a keyword.
pub open spec fn keyword_body_text(kind: KeywordDoc) -> Seq<char> {
    match kind {
        KeywordDoc::Func => "A reference to a function, given by its argument types, result types and annotations."@,
        KeywordDoc::Opt => "An optional value: either `null` or a value of the inner type."@,
        KeywordDoc::Principal => "The identity of a canister or a user."@,
        KeywordDoc::Record => "A collection of labelled fields, each with its own type."@,
        KeywordDoc::Service => "Declares full service interfaces: the set of methods that a canister exposes."@,
        KeywordDoc::Type => "Introduces a named alias for any Candid type."@,
        KeywordDoc::Variant => "A value that is exactly one of several labelled cases."@,
        KeywordDoc::Vec => "Ordered sequences of values of one element type."@,
        KeywordDoc::Oneway => "Marks a function that returns no response to its caller."@,
        KeywordDoc::Query => "Marks a function as read-only: it may not change the canister's state."@,
        KeywordDoc::CompositeQuery => "Marks a method as a composite query, which may call other queries."@,
        KeywordDoc::Import => "Brings the declarations of another file into scope."@,
    }
}

fn keyword_body(kind: KeywordDoc) -> (body: &'static str)
    ensures
        body@ == keyword_body_text(kind),
{
    match kind {
        KeywordDoc::Func => "A reference to a function, given by its argument types, result types and annotations.",
        KeywordDoc::Opt => "An optional value: either `null` or a value of the inner type.",
        KeywordDoc::Principal => "The identity of a canister or a user.",
        KeywordDoc::Record => "A collection of labelled fields, each with its own type.",
        KeywordDoc::Service => "Declares full service interfaces: the set of methods that a canister exposes.",
        KeywordDoc::Type => "Introduces a named alias for any Candid type.",
        KeywordDoc::Variant => "A value that is exactly one of several labelled cases.",
        KeywordDoc::Vec => "Ordered sequences of values of one element type.",
        KeywordDoc::Oneway => "Marks a function that returns no response to its caller.",
        KeywordDoc::Query => "Marks a function as read-only: it may not change the canister's state.",
        KeywordDoc::CompositeQuery => "Marks a method as a composite query, which may call other queries.",
        KeywordDoc::Import => "Brings the declarations of another file into scope.",
    }
}

/// A documentation page: the header in a code fence, a blank line, then the
/// description without surrounding whitespace.
pub open spec fn doc_page(header: Seq<char>, body: Seq<char>) -> Seq<char> {
    "```candid\n"@ + header + "\n```\n\n"@ + trim_seq(body)
}

fn build_doc_page(header: &str, body: &str) -> (page: String)
    ensures
        page@ == doc_page(header@, body@),
{
    let mut out: Vec<char> = Vec::new();
    push_str_chars(&mut out, "```candid\n");
    push_str_chars(&mut out, header);
    push_str_chars(&mut out, "\n```\n\n");
    let body_chars = chars_of(body);
    let trimmed = trim(&body_chars);
    push_chars(&mut out, &trimmed);
    assert(out@ =~= doc_page(header@, body@));
    string_of(&out)
}

/// The documentation page of a primitive type.
pub fn primitive_doc(kind: &PrimType) -> (page: String)
    ensures
        page@ == doc_page(primitive_text(*kind), primitive_body_text(*kind)),
{
    build_doc_page(primitive_name(kind), primitive_body(kind))
}

/// The documentation page of the `blob` alias.
pub fn blob_doc() -> (page: String)
    ensures
        page@ == doc_page("blob"@, blob_body_text()),
{
    build_doc_page("blob", "Binary data, a sequence of bytes. `blob` is shorthand for `vec nat8`.")
}

/// The documentation page of a keyword; every keyword has one.
pub fn keyword_doc(kind: KeywordDoc) -> (page: Option<String>)
    ensures
        page is Some,
        page->0@ == doc_page(keyword_text(kind), keyword_body_text(kind)),
{
    Some(build_doc_page(kind.keyword(), keyword_body(kind)))
}

/// The place of a primitive type in `primitive_kinds`.
pub open spec fn primitive_position(kind: PrimType) -> int {
    match kind {
        PrimType::Nat => 0,
        PrimType::Nat8 => 1,
        PrimType::Nat16 => 2,
        PrimType::Nat32 => 3,
        PrimType::Nat64 => 4,
        PrimType::Int => 5,
        PrimType::Int8 => 6,
        PrimType::Int16 => 7,
        PrimType::Int32 => 8,
        PrimType::Int64 => 9,
        PrimType::Float32 => 10,
        PrimType::Float64 => 11,
        PrimType::Bool => 12,
        PrimType::Text => 13,
        PrimType::Null => 14,
        PrimType::Reserved => 15,
        PrimType::Empty => 16,
    }
}

/// The place of a keyword in `keyword_kinds`.
pub open spec fn keyword_position(kind: KeywordDoc) -> int {
    match kind {
        KeywordDoc::Func => 0,
        KeywordDoc::Opt => 1,
        KeywordDoc::Principal => 2,
        KeywordDoc::Record => 3,
        KeywordDoc::Service => 4,
        KeywordDoc::Type => 5,
        KeywordDoc::Variant => 6,
        KeywordDoc::Vec => 7,
        KeywordDoc::Oneway => 8,
        KeywordDoc::Query => 9,
        KeywordDoc::CompositeQuery => 10,
        KeywordDoc::Import => 11,
    }
}

/// Every primitive type, each once, in its documented order.
pub fn primitive_kinds() -> (kinds: Vec<PrimType>)
    ensures
        kinds@.len() == 17,
        forall|kind: PrimType| #[trigger] kinds@[primitive_position(kind)] == kind,
{
    vec![
        PrimType::Nat,
        PrimType::Nat8,
        PrimType::Nat16,
        PrimType::Nat32,
        PrimType::Nat64,
        PrimType::Int,
        PrimType::Int8,
        PrimType::Int16,
        PrimType::Int32,
        PrimType::Int64,
        PrimType::Float32,
        PrimType::Float64,
        PrimType::Bool,
        PrimType::Text,
        PrimType::Null,
        PrimType::Reserved,
        PrimType::Empty,
    ]
}

/// Every documented keyword, each once, in its documented order.
pub fn keyword_kinds() -> (kinds: Vec<KeywordDoc>)
    ensures
        kinds@.len() == 12,
        forall|kind: KeywordDoc| #[trigger] kinds@[keyword_position(kind)] == kind,
{
    vec![
        KeywordDoc::Func,
        KeywordDoc::Opt,
        KeywordDoc::Principal,
        KeywordDoc::Record,
        KeywordDoc::Service,
        KeywordDoc::Type,
        KeywordDoc::Variant,
        KeywordDoc::Vec,
        KeywordDoc::Oneway,
        KeywordDoc::Query,
        KeywordDoc::CompositeQuery,
        KeywordDoc::Import,
    ]
}

} // verus!
