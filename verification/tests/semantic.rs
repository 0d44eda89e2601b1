use candid_language_server::hover::hover_contents;
use candid_language_server::navigation::{lookup_identifier, FieldRole};
use candid_language_server::semantic_analyze::{
    analyze_program, PrimitiveHover, SemanticError,
};
use candid_language_server::span::Span;
use candid_language_server::symbol_table::SymbolId;
use candid_language_server::syntax::{
    Binding, Dec, FuncMode, FuncType, IDLActorType, IDLProg, IDLType, IDLTypeWithSpan, Label, PrimType,
    TypeField,
};
use candid_language_server::type_docs::KeywordDoc;
use ropey::Rope;

fn char_offset(text: &str, needle: &str) -> usize {
    let byte = text.find(needle).expect("needle occurs in the text");
    text[..byte].chars().count()
}

fn span_of(text: &str, needle: &str) -> Span {
    let start = char_offset(text, needle);
    Span { start, end: start + needle.chars().count() }
}

fn typed(kind: IDLType, span: Span) -> IDLTypeWithSpan {
    IDLTypeWithSpan { kind, span }
}

fn record_sample() -> (String, IDLProg) {
    let text = "type Foo = record { value : nat32; };".to_string();
    let field = TypeField {
        label: Label::Named("value".to_string()),
        typ: typed(IDLType::PrimT(PrimType::Nat32), span_of(&text, "nat32")),
        docs: vec![],
        span: span_of(&text, "value : nat32"),
    };
    let binding = Binding {
        id: "Foo".to_string(),
        typ: typed(IDLType::RecordT(vec![field]), span_of(&text, "record { value : nat32; }")),
        docs: vec![],
        span: span_of(&text, "type Foo = record { value : nat32; }"),
    };
    (text, IDLProg { decs: vec![Dec::TypD(binding)], actor: None })
}

fn service_sample() -> (String, IDLProg) {
    let text = "service : { method : (text) -> (text) query; }".to_string();
    let func = FuncType {
        modes: vec![FuncMode::Query],
        args: vec![typed(IDLType::PrimT(PrimType::Text), Span { start: 22, end: 26 })],
        rets: vec![typed(IDLType::PrimT(PrimType::Text), Span { start: 32, end: 36 })],
    };
    let method = Binding {
        id: "method".to_string(),
        typ: typed(IDLType::FuncT(func), span_of(&text, "(text) -> (text) query")),
        docs: vec![],
        span: span_of(&text, "method : (text) -> (text) query"),
    };
    let actor = IDLActorType {
        typ: typed(IDLType::ServT(vec![method]), span_of(&text, "{ method : (text) -> (text) query; }")),
        docs: vec![],
        span: Span { start: 0, end: text.chars().count() },
    };
    (text, IDLProg { decs: vec![], actor: Some(actor) })
}

#[test]
fn analysis_declares_the_type_and_finds_its_identifier() {
    let (text, ast) = record_sample();
    let rope = Rope::from_str(&text);
    let semantic = analyze_program(&ast, &rope).expect("semantic");
    assert_eq!(semantic.table.symbol_id_to_span, vec![Span { start: 0, end: 36 }]);
    assert_eq!(semantic.symbol_ident_spans, vec![Some(Span { start: 5, end: 8 })]);
    assert_eq!(semantic.symbol_ident_names, vec![Some("Foo".to_string())]);
    assert_eq!(semantic.fields.len(), 1);
    assert_eq!(semantic.fields[0].label_span, Some(Span { start: 20, end: 25 }));
    assert_eq!(semantic.fields[0].type_span, Some(Span { start: 28, end: 33 }));
    assert_eq!(semantic.fields[0].parent_name.as_deref(), Some("Foo"));
    assert_eq!(semantic.fields[0].label.as_deref(), Some("value"));
    assert_eq!(
        semantic.primitive_spans,
        vec![(Span { start: 28, end: 33 }, PrimitiveHover::Prim(PrimType::Nat32))]
    );
    assert_eq!(
        semantic.keyword_spans,
        vec![
            (Span { start: 0, end: 4 }, KeywordDoc::Type),
            (Span { start: 11, end: 17 }, KeywordDoc::Record),
        ]
    );
    assert_eq!(semantic.locals.len(), 1);
    assert_eq!(semantic.locals[0].name, "value");
    assert_eq!(semantic.locals[0].scope, Span { start: 11, end: 36 });
    assert!(!semantic.locals[0].is_definition);
    let doc = semantic.type_docs[0].as_ref().expect("type doc");
    assert_eq!(doc.definition, "type Foo = record {\n  value : nat32;\n}");
    assert_eq!(doc.docs, None);
}

#[test]
fn lookup_of_a_binding_gives_its_own_declaration() {
    let (text, ast) = record_sample();
    let rope = Rope::from_str(&text);
    let semantic = analyze_program(&ast, &rope).expect("semantic");
    let info = lookup_identifier(&semantic, char_offset(&text, "Foo")).expect("lookup Foo");
    assert_eq!(info.symbol_id, Some(SymbolId(0)));
    assert_eq!(info.ident_span, Span { start: 5, end: 8 });
    assert_eq!(info.definition_span, Some(Span { start: 0, end: 36 }));
    assert!(info.reference_id.is_none());
}

#[test]
fn lookup_prefers_the_primitive_to_the_field_type() {
    let (text, ast) = record_sample();
    let rope = Rope::from_str(&text);
    let semantic = analyze_program(&ast, &rope).expect("semantic");
    let info = lookup_identifier(&semantic, char_offset(&text, "nat32")).expect("lookup nat32");
    assert_eq!(info.primitive, Some(PrimitiveHover::Prim(PrimType::Nat32)));
    assert!(info.field.is_none());
    let label = lookup_identifier(&semantic, char_offset(&text, "value")).expect("lookup value");
    let field = label.field.expect("field payload");
    assert_eq!(field.role, FieldRole::Label);
    assert_eq!(label.ident_span, Span { start: 20, end: 25 });
    assert_eq!(label.definition_span, Some(Span { start: 20, end: 33 }));
}

#[test]
fn lookup_outside_every_span_finds_nothing() {
    let (text, ast) = record_sample();
    let rope = Rope::from_str(&text);
    let semantic = analyze_program(&ast, &rope).expect("semantic");
    assert!(lookup_identifier(&semantic, char_offset(&text, "= record")).is_none());
    assert!(lookup_identifier(&semantic, 1000).is_none());
    assert!(lookup_identifier(&semantic, usize::MAX).is_none());
}

#[test]
fn undefined_variable_stops_the_analysis() {
    let text = "type Foo = Bar;".to_string();
    let binding = Binding {
        id: "Foo".to_string(),
        typ: typed(IDLType::VarT("Bar".to_string()), span_of(&text, "Bar")),
        docs: vec![],
        span: span_of(&text, "type Foo = Bar"),
    };
    let ast = IDLProg { decs: vec![Dec::TypD(binding)], actor: None };
    let rope = Rope::from_str(&text);
    match analyze_program(&ast, &rope) {
        Err(SemanticError::UndefinedVariable { name, span }) => {
            assert_eq!(name, "Bar");
            assert_eq!(span, Span { start: 11, end: 14 });
        }
        other => panic!("expected an undefined variable, got {:?}", other.map(|_| ())),
    }
}

#[test]
fn forward_references_between_top_level_types_resolve() {
    let text = "type Foo = Bar; type Bar = null;".to_string();
    let foo = Binding {
        id: "Foo".to_string(),
        typ: typed(IDLType::VarT("Bar".to_string()), Span { start: 11, end: 14 }),
        docs: vec![],
        span: Span { start: 0, end: 14 },
    };
    let bar = Binding {
        id: "Bar".to_string(),
        typ: typed(IDLType::PrimT(PrimType::Null), Span { start: 27, end: 31 }),
        docs: vec![],
        span: Span { start: 16, end: 31 },
    };
    let ast = IDLProg { decs: vec![Dec::TypD(foo), Dec::TypD(bar)], actor: None };
    let rope = Rope::from_str(&text);
    let semantic = analyze_program(&ast, &rope).expect("semantic");
    assert_eq!(semantic.table.reference_id_to_reference.len(), 1);
    let reference = &semantic.table.reference_id_to_reference[0];
    assert_eq!(reference.span, Span { start: 11, end: 14 });
    assert_eq!(reference.symbol_id, Some(SymbolId(1)));
    let info = lookup_identifier(&semantic, 12).expect("lookup reference");
    assert_eq!(info.definition_span, Some(Span { start: 16, end: 31 }));
    assert_eq!(semantic.table.usages_of(SymbolId(1)).len(), 1);
    assert_eq!(semantic.table.usages_of(SymbolId(0)).len(), 0);
}

#[test]
fn hover_on_the_query_keyword_shows_only_its_documentation() {
    let (text, ast) = service_sample();
    let rope = Rope::from_str(&text);
    let semantic = analyze_program(&ast, &rope).expect("semantic");
    let info = lookup_identifier(&semantic, char_offset(&text, "query")).expect("lookup query");
    assert_eq!(info.keyword, Some(KeywordDoc::Query));
    let markup = hover_contents(&rope, &semantic, &info).expect("hover result");
    assert!(markup.starts_with("```candid\nquery"), "query snippet missing: {}", markup);
    assert!(markup.contains("Marks a function as read-only"), "query docs missing: {}", markup);
    assert_eq!(markup.matches("```candid").count(), 1, "only the keyword page: {}", markup);
}

#[test]
fn hover_on_a_service_method_shows_its_signature() {
    let (text, ast) = service_sample();
    let rope = Rope::from_str(&text);
    let semantic = analyze_program(&ast, &rope).expect("semantic");
    let info = lookup_identifier(&semantic, char_offset(&text, "method")).expect("lookup method");
    assert!(info.service_method.is_some());
    let markup = hover_contents(&rope, &semantic, &info).expect("hover result");
    assert!(
        markup.contains("```candid\nmethod : (text) -> (text) query"),
        "signature missing: {}",
        markup
    );
}
