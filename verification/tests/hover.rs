use candid_language_server::hover::{hover_contents, snippet_from_span};
use candid_language_server::navigation::{lookup_identifier, IdentifierInfo};
use candid_language_server::requests::{definition_at_offset, hover_at_offset};
use candid_language_server::semantic_analyze::{analyze_program, PrimitiveHover, Semantic};
use candid_language_server::span::Span;
use candid_language_server::symbol_table::{ImportKind, SymbolId};
use candid_language_server::syntax::{
    Binding, Dec, FuncMode, FuncType, IDLActorType, IDLProg, IDLType, IDLTypeWithSpan, Label, PrimType,
    TypeField,
};
use candid_language_server::type_docs::TypeDoc;
use ropey::Rope;

const SAMPLE: &str = "type Foo = record {\n  value : nat32;\n};\n\ntype Choice = variant {\n  Empty;\n  Full : Foo;\n};\n\ntype Items = vec Foo;\n\n// Demo API for hover tests.\nservice Api : {\n  // Returns the stored Foo value.\n  get_value : () -> (Foo) query;\n  set_value : (value : Foo) -> ();\n  get_all : () -> (Items) composite_query;\n}\n";

fn span_of(text: &str, needle: &str) -> Span {
    let start = text.find(needle).expect("needle occurs in the text");
    Span { start, end: start + needle.len() }
}

fn inner_span(text: &str, outer: &str, inner: &str) -> Span {
    let base = text.find(outer).expect("outer needle occurs in the text");
    let start = base + outer.find(inner).expect("inner needle occurs in the outer one");
    Span { start, end: start + inner.len() }
}

fn typed(kind: IDLType, span: Span) -> IDLTypeWithSpan {
    IDLTypeWithSpan { kind, span }
}

fn method(text: &str, source: &str, id: &str, docs: Vec<String>, func: FuncType) -> Binding {
    let span = span_of(text, source);
    Binding { id: id.to_string(), typ: typed(IDLType::FuncT(func), span), docs, span }
}

fn sample_program() -> IDLProg {
    let text = SAMPLE;
    let foo = Binding {
        id: "Foo".to_string(),
        typ: typed(
            IDLType::RecordT(vec![TypeField {
                label: Label::Named("value".to_string()),
                typ: typed(IDLType::PrimT(PrimType::Nat32), span_of(text, "nat32")),
                docs: vec![],
                span: span_of(text, "value : nat32"),
            }]),
            span_of(text, "record {\n  value : nat32;\n}"),
        ),
        docs: vec![],
        span: span_of(text, "type Foo = record {\n  value : nat32;\n}"),
    };
    let empty = span_of(text, "Empty");
    let choice = Binding {
        id: "Choice".to_string(),
        typ: typed(
            IDLType::VariantT(vec![
                TypeField {
                    label: Label::Named("Empty".to_string()),
                    typ: typed(IDLType::PrimT(PrimType::Null), Span { start: empty.end, end: empty.end }),
                    docs: vec![],
                    span: empty,
                },
                TypeField {
                    label: Label::Named("Full".to_string()),
                    typ: typed(IDLType::VarT("Foo".to_string()), inner_span(text, "Full : Foo", "Foo")),
                    docs: vec![],
                    span: span_of(text, "Full : Foo"),
                },
            ]),
            span_of(text, "variant {\n  Empty;\n  Full : Foo;\n}"),
        ),
        docs: vec![],
        span: span_of(text, "type Choice = variant {\n  Empty;\n  Full : Foo;\n}"),
    };
    let items = Binding {
        id: "Items".to_string(),
        typ: typed(
            IDLType::VecT(Box::new(typed(
                IDLType::VarT("Foo".to_string()),
                inner_span(text, "vec Foo", "Foo"),
            ))),
            span_of(text, "vec Foo"),
        ),
        docs: vec![],
        span: span_of(text, "type Items = vec Foo"),
    };
    let get_value = method(
        text,
        "get_value : () -> (Foo) query",
        "get_value",
        vec!["// Returns the stored Foo value.".to_string()],
        FuncType {
            modes: vec![FuncMode::Query],
            args: vec![],
            rets: vec![typed(
                IDLType::VarT("Foo".to_string()),
                inner_span(text, "get_value : () -> (Foo) query", "Foo"),
            )],
        },
    );
    let set_value = method(
        text,
        "set_value : (value : Foo) -> ()",
        "set_value",
        vec![],
        FuncType {
            modes: vec![],
            args: vec![typed(
                IDLType::VarT("Foo".to_string()),
                inner_span(text, "set_value : (value : Foo) -> ()", "Foo"),
            )],
            rets: vec![],
        },
    );
    let get_all = method(
        text,
        "get_all : () -> (Items) composite_query",
        "get_all",
        vec![],
        FuncType {
            modes: vec![FuncMode::CompositeQuery],
            args: vec![],
            rets: vec![typed(
                IDLType::VarT("Items".to_string()),
                inner_span(text, "get_all : () -> (Items) composite_query", "Items"),
            )],
        },
    );
    let service_start = text.find("service Api").expect("service declaration");
    let body_start = service_start + "service Api : ".len();
    let service_end = text.rfind('}').expect("closing brace") + 1;
    let actor = IDLActorType {
        typ: typed(
            IDLType::ServT(vec![get_value, set_value, get_all]),
            Span { start: body_start, end: service_end },
        ),
        docs: vec!["// Demo API for hover tests.".to_string()],
        span: Span { start: service_start, end: service_end },
    };
    IDLProg { decs: vec![Dec::TypD(foo), Dec::TypD(choice), Dec::TypD(items)], actor: Some(actor) }
}

fn load_fixture() -> (String, Rope) {
    (SAMPLE.to_string(), Rope::from_str(SAMPLE))
}

fn bare_info(ident_span: Span, definition_span: Option<Span>) -> IdentifierInfo {
    IdentifierInfo {
        ident_span,
        definition_span,
        symbol_id: None,
        reference_id: None,
        import: None,
        field: None,
        service_method: None,
        param: None,
        primitive: None,
        keyword: None,
        actor: None,
    }
}

#[test]
fn hover_displays_type_definition() {
    let (text, rope) = load_fixture();
    let ast = sample_program();
    let semantic = analyze_program(&ast, &rope).expect("semantic");

    let offset = text.find("Foo").expect("Foo span");
    let info = lookup_identifier(&semantic, offset).expect("lookup Foo");

    let markup = hover_contents(&rope, &semantic, &info).expect("hover result");
    assert!(markup.contains("type Foo = record"), "type definition missing: {}", markup);
}

#[test]
fn hover_displays_primitive_doc() {
    let (text, rope) = load_fixture();
    let ast = sample_program();
    let semantic = analyze_program(&ast, &rope).expect("semantic");

    let offset = text.find("nat32").expect("nat32 span");
    let info = lookup_identifier(&semantic, offset).expect("lookup nat");

    let markup = hover_contents(&rope, &semantic, &info).expect("hover result");
    assert!(markup.starts_with("```candid\nnat32"), "primitive header missing: {}", markup);
    assert!(
        markup.contains("Unsigned 32-bit integers"),
        "primitive description missing: {}",
        markup
    );
}

#[test]
fn hover_variant_without_type_does_not_add_null_doc() {
    let (text, rope) = load_fixture();
    let ast = sample_program();
    let semantic = analyze_program(&ast, &rope).expect("semantic");

    let offset = text.find("Empty").expect("Empty span");
    let info = lookup_identifier(&semantic, offset).expect("lookup Empty");

    let markup = hover_contents(&rope, &semantic, &info).expect("hover result");
    assert!(!markup.contains("```candid\nnull"), "unexpected null snippet: {}", markup);
    assert!(
        !markup.contains("# null"),
        "null docs should not appear for implicit variant fields: {}",
        markup
    );
}

#[test]
fn hover_field_includes_parent_name() {
    let (text, rope) = load_fixture();
    let ast = sample_program();
    let semantic = analyze_program(&ast, &rope).expect("semantic");

    let offset = text.find("value : nat32").expect("field span");
    let info = lookup_identifier(&semantic, offset).expect("lookup field");

    let markup = hover_contents(&rope, &semantic, &info).expect("hover result");
    assert!(markup.contains("```candid\nFoo\n```"), "parent header missing: {}", markup);
    assert!(markup.contains("```candid\nvalue : nat32"), "field snippet missing: {}", markup);
}

#[test]
fn hover_keyword_vec_displays_doc() {
    let (text, rope) = load_fixture();
    let ast = sample_program();
    let semantic = analyze_program(&ast, &rope).expect("semantic");

    let offset = text.find("vec Foo").expect("vec span");
    let info = lookup_identifier(&semantic, offset).expect("lookup vec");

    let markup = hover_contents(&rope, &semantic, &info).expect("hover result");
    assert!(markup.contains("```candid\nvec"), "missing vec header: {}", markup);
    assert!(markup.contains("Ordered sequences"), "missing vec description: {}", markup);
    assert_eq!(
        markup.matches("```candid").count(),
        1,
        "vec hover should only render the keyword doc: {}",
        markup
    );
}

#[test]
fn hover_keyword_type_displays_doc() {
    let (text, rope) = load_fixture();
    let ast = sample_program();
    let semantic = analyze_program(&ast, &rope).expect("semantic");

    let offset = text.find("type Foo").expect("type keyword span");
    let info = lookup_identifier(&semantic, offset).expect("lookup type");

    let markup = hover_contents(&rope, &semantic, &info).expect("hover result");
    assert!(markup.contains("```candid\ntype"), "missing type snippet: {}", markup);
    assert!(
        markup.contains("Introduces a named alias for any Candid type"),
        "type doc missing body: {}",
        markup
    );
}

#[test]
fn hover_keyword_service_displays_doc() {
    let (text, rope) = load_fixture();
    let ast = sample_program();
    let semantic = analyze_program(&ast, &rope).expect("semantic");

    let offset = text.find("service Api").expect("service keyword span");
    let info = lookup_identifier(&semantic, offset).expect("lookup service");

    let markup = hover_contents(&rope, &semantic, &info).expect("hover result");
    assert!(markup.contains("```candid\nservice"), "service snippet missing: {}", markup);
    assert!(
        markup.contains("Declares full service interfaces"),
        "service docs missing description: {}",
        markup
    );
}

#[test]
fn hover_actor_name_displays_docs() {
    let (text, rope) = load_fixture();
    let ast = sample_program();
    let semantic = analyze_program(&ast, &rope).expect("semantic");

    let decl = "service Api";
    let offset = text.find(decl).expect("actor name span") + "service ".len();
    let info = lookup_identifier(&semantic, offset).expect("lookup actor name");

    let markup = hover_contents(&rope, &semantic, &info).expect("hover result");
    assert!(markup.contains("```candid\nservice Api :"), "actor snippet missing: {}", markup);
    assert!(markup.contains("Demo API for hover tests."), "actor docs missing: {}", markup);
    assert!(markup.contains("---"), "actor docs should be separated: {}", markup);
}

#[test]
fn hover_keyword_query_displays_doc() {
    let (text, rope) = load_fixture();
    let ast = sample_program();
    let semantic = analyze_program(&ast, &rope).expect("semantic");

    let offset = text.find("query").expect("query span");
    let info = lookup_identifier(&semantic, offset).expect("lookup query");

    let markup = hover_contents(&rope, &semantic, &info).expect("hover result");
    assert!(markup.contains("```candid\nquery"), "query snippet missing: {}", markup);
    assert!(
        markup.contains("Marks a function as read-only"),
        "query docs missing description: {}",
        markup
    );
}

#[test]
fn hover_keyword_composite_query_displays_doc() {
    let (text, rope) = load_fixture();
    let ast = sample_program();
    let semantic = analyze_program(&ast, &rope).expect("semantic");

    let offset = text.find("composite_query").expect("composite_query span");
    let info = lookup_identifier(&semantic, offset).expect("lookup composite_query");

    let markup = hover_contents(&rope, &semantic, &info).expect("hover result");
    assert!(
        markup.contains("```candid\ncomposite_query"),
        "composite_query snippet missing: {}",
        markup
    );
    assert!(
        markup.contains("Marks a method as a composite query"),
        "composite_query docs missing description: {}",
        markup
    );
}

#[test]
fn hover_service_method_displays_signature() {
    let (text, rope) = load_fixture();
    let ast = sample_program();
    let semantic = analyze_program(&ast, &rope).expect("semantic");

    let offset = text.find("get_value").expect("service method span");
    let info = lookup_identifier(&semantic, offset).expect("lookup service method");

    let markup = hover_contents(&rope, &semantic, &info).expect("hover result");
    assert!(
        markup.contains("```candid\nget_value : () -> (Foo) query"),
        "service method signature missing: {}",
        markup
    );
    assert!(markup.contains("```candid\nApi\n```"), "method parent header missing: {}", markup);
    assert!(
        markup.contains("Returns the stored Foo value."),
        "service method docs missing: {}",
        markup
    );
    assert!(markup.contains("---"), "service method docs should be separated: {}", markup);
}

#[test]
fn hover_service_parameter_displays_binding() {
    let (text, rope) = load_fixture();
    let ast = sample_program();
    let semantic = analyze_program(&ast, &rope).expect("semantic");

    let offset = text.find("value : Foo").expect("parameter span");
    let info = lookup_identifier(&semantic, offset).expect("lookup parameter");

    let markup = hover_contents(&rope, &semantic, &info).expect("hover result");
    assert!(markup.contains("```candid\nvalue : Foo"), "parameter snippet missing: {}", markup);
}

#[test]
fn hover_includes_type_doc() {
    let mut semantic = Semantic::empty();
    semantic.symbol_ident_spans.push(None);
    semantic.type_docs.push(Some(TypeDoc { definition: "type Foo = nat".to_string(), docs: None }));
    let rope = Rope::from_str("type Foo = nat");
    let mut info = bare_info(Span { start: 5, end: 8 }, Some(Span { start: 5, end: 8 }));
    info.symbol_id = Some(SymbolId(0));

    let markup = hover_contents(&rope, &semantic, &info).expect("hover");
    assert!(markup.contains("type Foo = nat"), "missing rendered type doc");
}

#[test]
fn hover_includes_primitive_doc() {
    let semantic = Semantic::empty();
    let rope = Rope::from_str("let x : nat = 0;");
    let mut info = bare_info(Span { start: 9, end: 12 }, Some(Span { start: 9, end: 12 }));
    info.primitive = Some(PrimitiveHover::Prim(PrimType::Nat));

    let markup = hover_contents(&rope, &semantic, &info).expect("hover");
    assert!(markup.contains("```candid\nnat\n```"), "primitive header missing");
    assert!(markup.contains("Unbounded non-negative"), "primitive description missing");
}

#[test]
fn hover_definition_fallback_triggers_when_no_sections() {
    let semantic = Semantic::empty();
    let rope = Rope::from_str("type Foo = nat");
    let info = bare_info(Span { start: 0, end: 0 }, Some(Span { start: 5, end: 8 }));

    let markup = hover_contents(&rope, &semantic, &info).expect("hover");
    assert!(markup.contains("Definition: `Foo`"), "fallback definition missing: {}", markup);
}

#[test]
fn hover_includes_import_metadata() {
    let mut semantic = Semantic::empty();
    let symbol_id = semantic.table.add_import(
        Span { start: 0, end: 3 },
        "foo.did".to_string(),
        ImportKind::Service,
    );
    assert_eq!(symbol_id, SymbolId(0));
    let rope = Rope::from_str("Foo");
    let mut info = bare_info(Span { start: 0, end: 3 }, None);
    info.symbol_id = Some(SymbolId(0));

    let markup = hover_contents(&rope, &semantic, &info).expect("hover");
    assert!(
        markup.contains("Imported service from `foo.did`"),
        "import metadata missing: {}",
        markup
    );
}

#[test]
fn hover_shows_exactly_the_parent_the_snippet_and_the_docs() {
    let (text, rope) = load_fixture();
    let ast = sample_program();
    let semantic = analyze_program(&ast, &rope).expect("semantic");
    let offset = text.find("get_value").expect("service method span");
    let hover = hover_at_offset(&rope, &semantic, offset).expect("hover");
    assert_eq!(
        hover.contents,
        "```candid\nApi\n```\n\n```candid\nget_value : () -> (Foo) query\n```\n\n---\n\nReturns the stored Foo value."
    );
    let range = hover.range.expect("range");
    assert_eq!((range.start.line, range.start.character), (14, 2));
    assert_eq!((range.end.line, range.end.character), (14, 11));
}

#[test]
fn definition_of_a_reference_is_the_declaration_of_its_type() {
    let (text, rope) = load_fixture();
    let ast = sample_program();
    let semantic = analyze_program(&ast, &rope).expect("semantic");
    let offset = text.find("vec Foo").expect("vec Foo") + "vec ".len();
    let range = definition_at_offset(&rope, &semantic, offset).expect("definition");
    assert_eq!((range.start.line, range.start.character), (0, 0));
    assert_eq!((range.end.line, range.end.character), (2, 1));
    assert!(definition_at_offset(&rope, &semantic, text.len() + 10).is_none());
}

#[test]
fn snippet_is_the_first_line_with_an_ellipsis() {
    let rope = Rope::from_str("  record {\r\n  a : nat;\n}  ");
    let whole = Span { start: 0, end: rope.len_chars() };
    assert_eq!(snippet_from_span(&rope, &whole).as_deref(), Some("record { \u{2026}"));
    let word = Span { start: 2, end: 8 };
    assert_eq!(snippet_from_span(&rope, &word).as_deref(), Some("record"));
    assert_eq!(snippet_from_span(&rope, &Span { start: 0, end: 2 }), None);
    assert_eq!(snippet_from_span(&rope, &Span { start: 3, end: 3 }), None);
    assert_eq!(snippet_from_span(&rope, &Span { start: 3, end: 1000 }), None);
}
