//! Rendering of type expressions back to source text.
//!
//! Each renderer appends to a character buffer; its contract states the text
//! appended. Nested blocks are indented by two spaces per level.
use crate::syntax::{Binding, FuncMode, FuncType, IDLType, IDLTypeWithSpan, Label, PrimType, TypeField};
use crate::text::{push_str_chars, str_eq, string_of};
use crate::type_docs::{primitive_kinds, primitive_name, primitive_position, primitive_text};
use vstd::prelude::*;
use vstd::utf8::encode_utf8;

verus! {

/// The indentation level one block deeper. Levels stop growing at the
/// largest `usize`.
pub open spec fn next_indent(indent: usize) -> usize {
    if indent < usize::MAX {
        (indent + 1) as usize
    } else {
        indent
    }
}

fn deeper(indent: usize) -> (next: usize)
    ensures
        next == next_indent(indent),
{
    if indent < usize::MAX {
        indent + 1
    } else {
        indent
    }
}

/// Two spaces for each level.
pub open spec fn indent_text(level: nat) -> Seq<char>
    decreases level,
{
    if level == 0 {
        Seq::empty()
    } else {
        indent_text((level - 1) as nat) + "  "@
    }
}

pub fn push_indent(buf: &mut Vec<char>, level: usize)
    ensures
        final(buf)@ == old(buf)@ + indent_text(level as nat),
{
    let mut i: usize = 0;
    while i < level
        invariant
            i <= level,
            buf@ == old(buf)@ + indent_text(i as nat),
        decreases level - i,
    {
        push_str_chars(buf, "  ");
        i += 1;
        assert(buf@ =~= old(buf)@ + indent_text(i as nat));
    }
}

/// The character of a decimal digit.
pub open spec fn digit_char(d: nat) -> char {
    (('0' as u8) + d) as u8 as char
}

/// The decimal numeral of `n`, without leading zeros.
pub open spec fn decimal_text(n: nat) -> Seq<char>
    decreases n,
{
    if n < 10 {
        seq![digit_char(n)]
    } else {
        decimal_text(n / 10).push(digit_char(n % 10))
    }
}

pub fn push_decimal(buf: &mut Vec<char>, n: u32)
    ensures
        final(buf)@ == old(buf)@ + decimal_text(n as nat),
    decreases n,
{
    if n >= 10 {
        push_decimal(buf, n / 10);
    }
    let d: u8 = (n % 10) as u8;
    let c: char = (48u8 + d) as char;
    buf.push(c);
    assert(buf@ =~= old(buf)@ + decimal_text(n as nat));
}

pub fn push_decimal_u64(buf: &mut Vec<char>, n: u64)
    ensures
        final(buf)@ == old(buf)@ + decimal_text(n as nat),
    decreases n,
{
    if n >= 10 {
        push_decimal_u64(buf, n / 10);
    }
    let d: u8 = (n % 10) as u8;
    let c: char = (48u8 + d) as char;
    buf.push(c);
    assert(buf@ =~= old(buf)@ + decimal_text(n as nat));
}

/// The decimal numeral of `n` as a character buffer.
pub fn decimal_chars(n: u32) -> (chars: Vec<char>)
    ensures
        chars@ == decimal_text(n as nat),
{
    let mut chars: Vec<char> = Vec::new();
    push_decimal(&mut chars, n);
    assert(chars@ =~= decimal_text(n as nat));
    chars
}

/// Whether `name` is spelled like a primitive type.
pub open spec fn is_primitive_name(name: Seq<char>) -> bool {
    exists|kind: PrimType| primitive_text(kind) == name
}

/// A field label spelled like a primitive type must be written in quotes.
pub fn should_quote_label(name: &str) -> (quote: bool)
    ensures
        quote == is_primitive_name(name@),
{
    let kinds = primitive_kinds();
    let mut i: usize = 0;
    while i < kinds.len()
        invariant
            i <= kinds.len(),
            kinds@.len() == 17,
            forall|kind: PrimType| #[trigger] kinds@[primitive_position(kind)] == kind,
            forall|j: int| 0 <= j < i ==> primitive_text(#[trigger] kinds@[j]) != name@,
        decreases kinds.len() - i,
    {
        if str_eq(name, primitive_name(&kinds[i])) {
            return true;
        }
        i += 1;
    }
    assert forall|kind: PrimType| primitive_text(kind) != name@ by {
        assert(kinds@[primitive_position(kind)] == kind);
    }
    false
}

/// The text of a field label.
pub open spec fn label_text(label: Label) -> Seq<char> {
    match label {
        Label::Named(name) => if is_primitive_name(name@) {
            "\""@ + name@ + "\""@
        } else {
            name@
        },
        Label::Id(id) => decimal_text(id as nat),
        Label::Unnamed(id) => decimal_text(id as nat),
    }
}

pub fn render_label(label: &Label, buf: &mut Vec<char>)
    ensures
        final(buf)@ == old(buf)@ + label_text(*label),
{
    match label {
        Label::Named(name) => {
            if should_quote_label(name.as_str()) {
                buf.push('"');
                push_str_chars(buf, name.as_str());
                buf.push('"');
                proof {
                    reveal_strlit("\"");
                    assert(buf@ =~= old(buf)@ + ("\""@ + name@ + "\""@));
                }
            } else {
                push_str_chars(buf, name.as_str());
            }
        },
        Label::Id(id) => {
            push_decimal(buf, *id);
        },
        Label::Unnamed(id) => {
            push_decimal(buf, *id);
        },
    }
}

/// The hash that identifies a named label: over the UTF-8 bytes of the name,
/// each step multiplies by 223 and adds the byte, modulo 2^32.
pub open spec fn label_hash(bytes: Seq<u8>, n: nat) -> u32
    decreases n,
{
    if n == 0 || n > bytes.len() {
        0
    } else {
        ((label_hash(bytes, (n - 1) as nat) as u64 * 223 + bytes[n - 1] as u64) % 0x1_0000_0000) as u32
    }
}

pub fn idl_hash(id: &str) -> (hash: u32)
    ensures
        hash == label_hash(encode_utf8(id@), encode_utf8(id@).len()),
{
    let bytes = id.as_bytes();
    let mut hash: u32 = 0;
    let mut i: usize = 0;
    while i < bytes.len()
        invariant
            i <= bytes.len(),
            hash == label_hash(bytes@, i as nat),
        decreases bytes.len() - i,
    {
        let wide: u64 = (hash as u64 * 223 + bytes[i] as u64) % 0x1_0000_0000;
        hash = wide as u32;
        i += 1;
    }
    hash
}

/// The numeric identifier of a label.
pub open spec fn label_id(label: Label) -> u32 {
    match label {
        Label::Id(id) => id,
        Label::Unnamed(id) => id,
        Label::Named(name) => label_hash(encode_utf8(name@), encode_utf8(name@).len()),
    }
}

pub fn get_label_id(label: &Label) -> (id: u32)
    ensures
        id == label_id(*label),
{
    match label {
        Label::Id(id) => *id,
        Label::Unnamed(id) => *id,
        Label::Named(name) => idl_hash(name.as_str()),
    }
}

/// A record is a tuple when the identifier of each field is its position.
pub open spec fn is_tuple_fields(fields: Seq<TypeField>) -> bool {
    forall|i: int| 0 <= i < fields.len() ==> label_id((#[trigger] fields[i]).label) == i as u32
}

pub fn is_tuple(fields: &Vec<TypeField>) -> (tuple: bool)
    ensures
        tuple == is_tuple_fields(fields@),
{
    let mut i: usize = 0;
    while i < fields.len()
        invariant
            i <= fields.len(),
            forall|j: int| 0 <= j < i ==> label_id((#[trigger] fields@[j]).label) == j as u32,
        decreases fields.len() - i,
    {
        let position: u32 = #[verifier::truncate] (i as u32);
        if get_label_id(&fields[i].label) != position {
            return false;
        }
        i += 1;
    }
    true
}

/// The keyword of a function annotation.
pub open spec fn func_mode_text(mode: FuncMode) -> Seq<char> {
    match mode {
        FuncMode::Oneway => "oneway"@,
        FuncMode::Query => "query"@,
        FuncMode::CompositeQuery => "composite_query"@,
    }
}

pub fn func_mode_keyword(mode: &FuncMode) -> (keyword: &'static str)
    ensures
        keyword@ == func_mode_text(*mode),
{
    match mode {
        FuncMode::Oneway => "oneway",
        FuncMode::Query => "query",
        FuncMode::CompositeQuery => "composite_query",
    }
}

pub open spec fn is_nat8(ty: IDLTypeWithSpan) -> bool {
    ty.kind matches IDLType::PrimT(PrimType::Nat8)
}

pub open spec fn is_null(ty: IDLTypeWithSpan) -> bool {
    ty.kind matches IDLType::PrimT(PrimType::Null)
}

/// The text of a type expression at an indentation level.
pub open spec fn type_text(ty: IDLTypeWithSpan, indent: usize) -> Seq<char>
    decreases ty, 0nat,
{
    kind_text(ty.kind, indent)
}

pub open spec fn kind_text(kind: IDLType, indent: usize) -> Seq<char>
    decreases kind, 0nat,
{
    match kind {
        IDLType::PrimT(prim) => primitive_text(prim),
        IDLType::VarT(name) => name@,
        IDLType::PrincipalT => "principal"@,
        IDLType::OptT(inner) => "opt "@ + type_text(*inner, indent),
        IDLType::VecT(inner) => if is_nat8(*inner) {
            "blob"@
        } else {
            "vec "@ + type_text(*inner, indent)
        },
        IDLType::RecordT(fields) => record_text(fields@, indent),
        IDLType::VariantT(fields) => variant_text(fields@, indent),
        IDLType::FuncT(func) => "func "@ + function_text(func, indent),
        IDLType::ServT(methods) => "service "@ + service_body_text(methods@, indent),
        IDLType::ClassT(args, ret) => args_text(args@, indent) + " -> "@ + type_text(*ret, indent),
    }
}

/// The first `n` types of a tuple record, separated by `; `.
pub open spec fn tuple_items_text(fields: Seq<TypeField>, indent: usize, n: nat) -> Seq<char>
    decreases fields, n,
{
    if n == 0 || n > fields.len() {
        Seq::empty()
    } else {
        tuple_items_text(fields, indent, (n - 1) as nat) + (if n > 1 {
            "; "@
        } else {
            Seq::empty()
        }) + type_text(fields[n - 1].typ, next_indent(indent))
    }
}

/// One field of a record on its own line.
pub open spec fn record_field_text(field: TypeField, indent: usize) -> Seq<char>
    decreases field, 0nat,
{
    indent_text(next_indent(indent) as nat) + label_text(field.label) + " : "@ + type_text(
        field.typ,
        next_indent(indent),
    ) + ";\n"@
}

/// The first `n` fields of a record, one per line.
pub open spec fn record_fields_text(fields: Seq<TypeField>, indent: usize, n: nat) -> Seq<char>
    decreases fields, n,
{
    if n == 0 || n > fields.len() {
        Seq::empty()
    } else {
        record_fields_text(fields, indent, (n - 1) as nat) + record_field_text(fields[n - 1], indent)
    }
}

/// One case of a variant on its own line. A case of type `null` is written
/// as its label alone.
pub open spec fn variant_field_text(field: TypeField, indent: usize) -> Seq<char>
    decreases field, 0nat,
{
    indent_text(next_indent(indent) as nat) + label_text(field.label) + (if is_null(field.typ) {
        Seq::empty()
    } else {
        " : "@ + type_text(field.typ, next_indent(indent))
    }) + ";\n"@
}

/// The first `n` cases of a variant, one per line.
pub open spec fn variant_fields_text(fields: Seq<TypeField>, indent: usize, n: nat) -> Seq<char>
    decreases fields, n,
{
    if n == 0 || n > fields.len() {
        Seq::empty()
    } else {
        variant_fields_text(fields, indent, (n - 1) as nat) + variant_field_text(
            fields[n - 1],
            indent,
        )
    }
}

/// A function type without the `func` keyword: arguments, results, annotations.
pub open spec fn function_text(func: FuncType, indent: usize) -> Seq<char>
    decreases func, 0nat,
{
    args_text(func.args@, indent) + " -> "@ + args_text(func.rets@, indent) + modes_text(
        func.modes@,
        func.modes@.len(),
    )
}

/// The first `n` annotations, each after a space.
pub open spec fn modes_text(modes: Seq<FuncMode>, n: nat) -> Seq<char>
    decreases n,
{
    if n == 0 || n > modes.len() {
        Seq::empty()
    } else {
        modes_text(modes, (n - 1) as nat) + " "@ + func_mode_text(modes[n - 1])
    }
}

/// A parenthesised, comma-separated list of types.
pub open spec fn args_text(args: Seq<IDLTypeWithSpan>, indent: usize) -> Seq<char>
    decreases args, args.len() + 1,
{
    "("@ + args_items_text(args, indent, args.len()) + ")"@
}

pub open spec fn args_items_text(args: Seq<IDLTypeWithSpan>, indent: usize, n: nat) -> Seq<char>
    decreases args, n,
{
    if n == 0 || n > args.len() {
        Seq::empty()
    } else {
        args_items_text(args, indent, (n - 1) as nat) + (if n > 1 {
            ", "@
        } else {
            Seq::empty()
        }) + type_text(args[n - 1], next_indent(indent))
    }
}

/// The braces of a service with one method per line.
pub open spec fn service_body_text(methods: Seq<Binding>, indent: usize) -> Seq<char>
    decreases methods, methods.len() + 1,
{
    "{\n"@ + methods_text(methods, indent, methods.len()) + indent_text(indent as nat) + "}"@
}

/// One method of a service on its own line.
pub open spec fn method_text(method: Binding, indent: usize) -> Seq<char>
    decreases method, 0nat,
{
    indent_text(next_indent(indent) as nat) + method.id@ + " : "@ + method_type_text(
        method.typ,
        next_indent(indent),
    ) + ";\n"@
}

pub open spec fn methods_text(methods: Seq<Binding>, indent: usize, n: nat) -> Seq<char>
    decreases methods, n,
{
    if n == 0 || n > methods.len() {
        Seq::empty()
    } else {
        methods_text(methods, indent, (n - 1) as nat) + method_text(methods[n - 1], indent)
    }
}

/// The type of a service method: a function type is written without its keyword.
pub open spec fn method_type_text(ty: IDLTypeWithSpan, indent: usize) -> Seq<char>
    decreases ty, 1nat,
{
    match ty.kind {
        IDLType::FuncT(func) => function_text(func, indent),
        _ => type_text(ty, indent),
    }
}

pub fn render_type(ty: &IDLTypeWithSpan, indent: usize, buf: &mut Vec<char>)
    ensures
        final(buf)@ == old(buf)@ + type_text(*ty, indent),
    decreases ty, 0nat,
{
    match &ty.kind {
        IDLType::PrimT(prim) => {
            push_str_chars(buf, primitive_name(prim));
        },
        IDLType::VarT(name) => {
            push_str_chars(buf, name.as_str());
        },
        IDLType::PrincipalT => {
            push_str_chars(buf, "principal");
        },
        IDLType::OptT(inner) => {
            push_str_chars(buf, "opt ");
            render_type(inner, indent, buf);
            assert(buf@ =~= old(buf)@ + type_text(*ty, indent));
        },
        IDLType::VecT(inner) => {
            let blob = match &inner.kind {
                IDLType::PrimT(PrimType::Nat8) => true,
                _ => false,
            };
            if blob {
                push_str_chars(buf, "blob");
            } else {
                push_str_chars(buf, "vec ");
                render_type(inner, indent, buf);
                assert(buf@ =~= old(buf)@ + type_text(*ty, indent));
            }
        },
        IDLType::RecordT(fields) => {
            render_record(fields, indent, buf);
        },
        IDLType::VariantT(fields) => {
            render_variant(fields, indent, buf);
        },
        IDLType::FuncT(func) => {
            push_str_chars(buf, "func ");
            render_function(func, indent, buf);
            assert(buf@ =~= old(buf)@ + type_text(*ty, indent));
        },
        IDLType::ServT(methods) => {
            push_str_chars(buf, "service ");
            render_service_body(methods, indent, buf);
            assert(buf@ =~= old(buf)@ + type_text(*ty, indent));
        },
        IDLType::ClassT(args, ret) => {
            render_args(args, indent, buf);
            push_str_chars(buf, " -> ");
            render_type(ret, indent, buf);
            assert(buf@ =~= old(buf)@ + type_text(*ty, indent));
        },
    }
}

/// The text of a record type with the given fields.
pub open spec fn record_text(fields: Seq<TypeField>, indent: usize) -> Seq<char>
    decreases fields, fields.len() + 1,
{
    if is_tuple_fields(fields) {
        "record { "@ + tuple_items_text(fields, indent, fields.len()) + " }"@
    } else {
        "record {\n"@ + record_fields_text(fields, indent, fields.len()) + indent_text(indent as nat)
            + "}"@
    }
}

/// The text of a variant type with the given cases.
pub open spec fn variant_text(fields: Seq<TypeField>, indent: usize) -> Seq<char>
    decreases fields, fields.len() + 1,
{
    "variant {\n"@ + variant_fields_text(fields, indent, fields.len()) + indent_text(indent as nat)
        + "}"@
}

#[verifier::loop_isolation(false)]
pub fn render_record(fields: &Vec<TypeField>, indent: usize, buf: &mut Vec<char>)
    ensures
        final(buf)@ == old(buf)@ + record_text(fields@, indent),
    decreases fields, 1nat,
{
    if is_tuple(fields) {
        push_str_chars(buf, "record { ");
        let ghost start = buf@;
        let mut i: usize = 0;
        while i < fields.len()
            invariant
                i <= fields.len(),
                buf@ == start + tuple_items_text(fields@, indent, i as nat),
            decreases fields.len() - i,
        {
            if i > 0 {
                push_str_chars(buf, "; ");
            }
            render_type(&fields[i].typ, deeper(indent), buf);
            i += 1;
            assert(buf@ =~= start + tuple_items_text(fields@, indent, i as nat));
        }
        push_str_chars(buf, " }");
        assert(buf@ =~= old(buf)@ + record_text(fields@, indent));
    } else {
        push_str_chars(buf, "record {\n");
        let ghost start = buf@;
        let mut i: usize = 0;
        while i < fields.len()
            invariant
                i <= fields.len(),
                buf@ == start + record_fields_text(fields@, indent, i as nat),
            decreases fields.len() - i,
        {
            render_record_field(&fields[i], indent, buf);
            i += 1;
            assert(buf@ =~= start + record_fields_text(fields@, indent, i as nat));
        }
        push_indent(buf, indent);
        push_str_chars(buf, "}");
        assert(buf@ =~= old(buf)@ + record_text(fields@, indent));
    }
}

#[verifier::loop_isolation(false)]
pub fn render_variant(fields: &Vec<TypeField>, indent: usize, buf: &mut Vec<char>)
    ensures
        final(buf)@ == old(buf)@ + variant_text(fields@, indent),
    decreases fields, 1nat,
{
    push_str_chars(buf, "variant {\n");
    let ghost start = buf@;
    let mut i: usize = 0;
    while i < fields.len()
        invariant
            i <= fields.len(),
            buf@ == start + variant_fields_text(fields@, indent, i as nat),
        decreases fields.len() - i,
    {
        render_variant_field(&fields[i], indent, buf);
        i += 1;
        assert(buf@ =~= start + variant_fields_text(fields@, indent, i as nat));
    }
    push_indent(buf, indent);
    push_str_chars(buf, "}");
    assert(buf@ =~= old(buf)@ + variant_text(fields@, indent));
}

pub fn render_record_field(field: &TypeField, indent: usize, buf: &mut Vec<char>)
    ensures
        final(buf)@ == old(buf)@ + record_field_text(*field, indent),
    decreases field, 1nat,
{
    push_indent(buf, deeper(indent));
    render_label(&field.label, buf);
    push_str_chars(buf, " : ");
    render_type(&field.typ, deeper(indent), buf);
    push_str_chars(buf, ";\n");
    assert(buf@ =~= old(buf)@ + record_field_text(*field, indent));
}

pub fn render_variant_field(field: &TypeField, indent: usize, buf: &mut Vec<char>)
    ensures
        final(buf)@ == old(buf)@ + variant_field_text(*field, indent),
    decreases field, 1nat,
{
    push_indent(buf, deeper(indent));
    render_label(&field.label, buf);
    let null = match &field.typ.kind {
        IDLType::PrimT(PrimType::Null) => true,
        _ => false,
    };
    let ghost labelled = buf@;
    if !null {
        push_str_chars(buf, " : ");
        render_type(&field.typ, deeper(indent), buf);
    }
    let ghost typed = buf@;
    assert(typed =~= labelled + (if is_null(field.typ) {
        Seq::empty()
    } else {
        " : "@ + type_text(field.typ, next_indent(indent))
    }));
    push_str_chars(buf, ";\n");
    assert(buf@ =~= old(buf)@ + variant_field_text(*field, indent));
}

pub fn render_method(method: &Binding, indent: usize, buf: &mut Vec<char>)
    ensures
        final(buf)@ == old(buf)@ + method_text(*method, indent),
    decreases method, 1nat,
{
    push_indent(buf, deeper(indent));
    push_str_chars(buf, method.id.as_str());
    push_str_chars(buf, " : ");
    let ghost named = buf@;
    match &method.typ.kind {
        IDLType::FuncT(func) => {
            render_function(func, deeper(indent), buf);
        },
        _ => {
            render_type(&method.typ, deeper(indent), buf);
        },
    }
    assert(buf@ == named + method_type_text(method.typ, next_indent(indent)));
    push_str_chars(buf, ";\n");
    assert(buf@ =~= old(buf)@ + method_text(*method, indent));
}

/// Appends a function type without its keyword.
pub fn render_function(func: &FuncType, indent: usize, buf: &mut Vec<char>)
    ensures
        final(buf)@ == old(buf)@ + function_text(*func, indent),
    decreases func, 0nat,
{
    render_args(&func.args, indent, buf);
    push_str_chars(buf, " -> ");
    render_args(&func.rets, indent, buf);
    let ghost start = buf@;
    let mut i: usize = 0;
    while i < func.modes.len()
        invariant
            i <= func.modes.len(),
            buf@ == start + modes_text(func.modes@, i as nat),
        decreases func.modes.len() - i,
    {
        buf.push(' ');
        push_str_chars(buf, func_mode_keyword(&func.modes[i]));
        i += 1;
        proof {
            reveal_strlit(" ");
            assert(buf@ =~= start + modes_text(func.modes@, i as nat));
        }
    }
    assert(buf@ =~= old(buf)@ + function_text(*func, indent));
}

#[verifier::loop_isolation(false)]
pub fn render_args(args: &Vec<IDLTypeWithSpan>, indent: usize, buf: &mut Vec<char>)
    ensures
        final(buf)@ == old(buf)@ + args_text(args@, indent),
    decreases args, 1nat,
{
    buf.push('(');
    let ghost start = buf@;
    let mut i: usize = 0;
    while i < args.len()
        invariant
            i <= args.len(),
            buf@ == start + args_items_text(args@, indent, i as nat),
        decreases args.len() - i,
    {
        if i > 0 {
            push_str_chars(buf, ", ");
        }
        render_type(&args[i], deeper(indent), buf);
        i += 1;
        assert(buf@ =~= start + args_items_text(args@, indent, i as nat));
    }
    buf.push(')');
    proof {
        reveal_strlit("(");
        reveal_strlit(")");
        assert(buf@ =~= old(buf)@ + args_text(args@, indent));
    }
}

#[verifier::loop_isolation(false)]
pub fn render_service_body(methods: &Vec<Binding>, indent: usize, buf: &mut Vec<char>)
    ensures
        final(buf)@ == old(buf)@ + service_body_text(methods@, indent),
    decreases methods, 1nat,
{
    push_str_chars(buf, "{\n");
    let ghost start = buf@;
    let mut i: usize = 0;
    while i < methods.len()
        invariant
            i <= methods.len(),
            buf@ == start + methods_text(methods@, indent, i as nat),
        decreases methods.len() - i,
    {
        render_method(&methods[i], indent, buf);
        i += 1;
        assert(buf@ =~= start + methods_text(methods@, indent, i as nat));
    }
    push_indent(buf, indent);
    push_str_chars(buf, "}");
    assert(buf@ =~= old(buf)@ + service_body_text(methods@, indent));
}

/// The declaration of a named type, as it would be written in source.
pub open spec fn binding_text(binding: Binding) -> Seq<char> {
    "type "@ + binding.id@ + " = "@ + type_text(binding.typ, 0)
}

/// A type declaration as source text.
pub fn render_binding(binding: &Binding) -> (rendered: String)
    ensures
        rendered@ == binding_text(*binding),
{
    let mut buf: Vec<char> = Vec::new();
    push_str_chars(&mut buf, "type ");
    push_str_chars(&mut buf, binding.id.as_str());
    push_str_chars(&mut buf, " = ");
    render_type(&binding.typ, 0, &mut buf);
    assert(buf@ =~= binding_text(*binding));
    string_of(&buf)
}

/// A type as source text, at the outermost level of indentation.
pub fn render_inline_type(ty: &IDLTypeWithSpan) -> (rendered: String)
    ensures
        rendered@ == type_text(*ty, 0),
{
    let mut buf: Vec<char> = Vec::new();
    render_type(ty, 0, &mut buf);
    assert(buf@ =~= type_text(*ty, 0));
    string_of(&buf)
}

/// The declaration of the top-level service. Only a service type has one.
pub open spec fn actor_declaration_text(name: Option<Seq<char>>, ty: IDLTypeWithSpan) -> Option<
    Seq<char>,
> {
    match ty.kind {
        IDLType::ServT(methods) => Some(
            "service"@ + (match name {
                Some(name) => " "@ + name,
                None => Seq::empty(),
            }) + " : "@ + service_body_text(methods@, 0),
        ),
        _ => None,
    }
}

/// The service declaration as source text: none where the type is no
/// service type.
pub fn render_actor_declaration(name: Option<&str>, ty: &IDLTypeWithSpan) -> (rendered: Option<
    String,
>)
    ensures
        rendered.deep_view() == actor_declaration_text(
            match name {
                Some(name) => Some(name@),
                None => None,
            },
            *ty,
        ),
{
    match &ty.kind {
        IDLType::ServT(methods) => {
            let mut buf: Vec<char> = Vec::new();
            push_str_chars(&mut buf, "service");
            match name {
                Some(name) => {
                    buf.push(' ');
                    push_str_chars(&mut buf, name);
                },
                None => {},
            }
            push_str_chars(&mut buf, " : ");
            render_service_body(methods, 0, &mut buf);
            proof {
                reveal_strlit(" ");
                let spec_name = match name {
                    Some(name) => Some(name@),
                    None => None,
                };
                assert(buf@ =~= actor_declaration_text(spec_name, *ty)->0);
            }
            Some(string_of(&buf))
        },
        _ => None,
    }
}

} // verus!
