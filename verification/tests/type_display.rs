use candid_language_server::span::Span;
use candid_language_server::syntax::{
    Binding, FuncMode, FuncType, IDLType, IDLTypeWithSpan, Label, PrimType, TypeField,
};
use candid_language_server::type_display::{
    idl_hash, render_actor_declaration, render_binding, render_inline_type, should_quote_label,
};

fn no_span() -> Span {
    Span { start: 0, end: 0 }
}

fn typed(kind: IDLType) -> IDLTypeWithSpan {
    IDLTypeWithSpan { kind, span: no_span() }
}

fn field(label: Label, kind: IDLType) -> TypeField {
    TypeField { label, typ: typed(kind), docs: vec![], span: no_span() }
}

fn named(name: &str, kind: IDLType) -> TypeField {
    field(Label::Named(name.to_string()), kind)
}

fn binding(name: &str, kind: IDLType) -> Binding {
    Binding { id: name.to_string(), typ: typed(kind), docs: vec![], span: no_span() }
}

#[test]
fn renders_record_binding() {
    // record { id : text; title : text }
    let binding = binding(
        "PaperSummary",
        IDLType::RecordT(vec![
            named("id", IDLType::PrimT(PrimType::Text)),
            named("title", IDLType::PrimT(PrimType::Text)),
        ]),
    );
    let rendered = render_binding(&binding);
    assert_eq!(rendered, "type PaperSummary = record {\n  id : text;\n  title : text;\n}");
}

#[test]
fn renders_variant_binding() {
    // variant { Url : text; Other : text; Paper }, with its cases in the parser's order
    let binding = binding(
        "Citation",
        IDLType::VariantT(vec![
            named("Url", IDLType::PrimT(PrimType::Text)),
            named("Paper", IDLType::PrimT(PrimType::Null)),
            named("Other", IDLType::PrimT(PrimType::Text)),
        ]),
    );
    let rendered = render_binding(&binding);
    assert_eq!(rendered, "type Citation = variant {\n  Url : text;\n  Paper;\n  Other : text;\n}");
}

#[test]
fn renders_nested_types_with_indentation() {
    let inner = IDLType::RecordT(vec![
        named("nat", IDLType::OptT(Box::new(typed(IDLType::PrincipalT)))),
        field(Label::Id(7), IDLType::VecT(Box::new(typed(IDLType::PrimT(PrimType::Nat8))))),
    ]);
    let func = FuncType {
        modes: vec![FuncMode::Query, FuncMode::Oneway],
        args: vec![typed(IDLType::VarT("A".to_string())), typed(IDLType::PrimT(PrimType::Int))],
        rets: vec![typed(IDLType::VecT(Box::new(typed(IDLType::VarT("B".to_string())))))],
    };
    let service = IDLType::ServT(vec![
        binding("get", IDLType::FuncT(func)),
        binding("alias", IDLType::VarT("F".to_string())),
    ]);
    let outer = typed(IDLType::VariantT(vec![named("a", inner), named("s", service)]));
    assert_eq!(
        render_inline_type(&outer),
        "variant {\n  a : record {\n    \"nat\" : opt principal;\n    7 : blob;\n  };\n  s : service {\n    get : (A, int) -> (vec B) query oneway;\n    alias : F;\n  };\n}"
    );
}

#[test]
fn renders_tuples_functions_and_classes() {
    let tuple = typed(IDLType::RecordT(vec![
        field(Label::Unnamed(0), IDLType::PrimT(PrimType::Nat)),
        field(Label::Unnamed(1), IDLType::PrimT(PrimType::Text)),
    ]));
    assert_eq!(render_inline_type(&tuple), "record { nat; text }");
    assert_eq!(render_inline_type(&typed(IDLType::RecordT(vec![]))), "record {  }");
    let shifted = typed(IDLType::RecordT(vec![field(Label::Unnamed(1), IDLType::PrimT(PrimType::Nat))]));
    assert_eq!(render_inline_type(&shifted), "record {\n  1 : nat;\n}");
    let func = typed(IDLType::FuncT(FuncType { modes: vec![], args: vec![], rets: vec![] }));
    assert_eq!(render_inline_type(&func), "func () -> ()");
    let class = typed(IDLType::ClassT(
        vec![typed(IDLType::PrimT(PrimType::Nat64))],
        Box::new(typed(IDLType::ServT(vec![]))),
    ));
    assert_eq!(render_inline_type(&class), "(nat64) -> service {\n}");
    let big = typed(IDLType::RecordT(vec![field(Label::Id(4294967295), IDLType::PrimT(PrimType::Bool))]));
    assert_eq!(render_inline_type(&big), "record {\n  4294967295 : bool;\n}");
}

#[test]
fn renders_actor_declarations() {
    let service = typed(IDLType::ServT(vec![binding(
        "ping",
        IDLType::FuncT(FuncType { modes: vec![], args: vec![], rets: vec![] }),
    )]));
    assert_eq!(
        render_actor_declaration(Some("Api"), &service).as_deref(),
        Some("service Api : {\n  ping : () -> ();\n}")
    );
    assert_eq!(
        render_actor_declaration(None, &service).as_deref(),
        Some("service : {\n  ping : () -> ();\n}")
    );
    assert_eq!(render_actor_declaration(Some("Api"), &typed(IDLType::VarT("S".to_string()))), None);
}

#[test]
fn label_hash_is_the_one_of_the_wire_format() {
    assert_eq!(idl_hash(""), 0);
    assert_eq!(idl_hash("a"), 97);
    assert_eq!(idl_hash("ab"), 97 * 223 + 98);
    assert_eq!(idl_hash("id"), 23515);
    assert_eq!(idl_hash("title"), candid_parser::candid::idl_hash("title"));
    assert_eq!(idl_hash("a much longer label \u{e9}"), candid_parser::candid::idl_hash("a much longer label \u{e9}"));
    assert!(should_quote_label("nat8"));
    assert!(should_quote_label("empty"));
    assert!(!should_quote_label("blob"));
    assert!(!should_quote_label("Nat"));
}
