use candid_language_server::completion::{
    build_completion_items_sync, build_completion_items_with_checkpoints, semantic_completion_items,
    service_method_snippets, value_completion_items, BuildCompletionItemsParams, BuildStep,
    CompletionBuildOutcome, CompletionBuilder,
};
use candid_language_server::completion_cache::{determine_context, CompletionDocumentCache};
use candid_language_server::completion_items::{
    keyword_completion_items, static_completion_items, CompletionItemKind, InsertTextFormat,
};
use candid_language_server::config::ServiceSnippetStyle;
use candid_language_server::context_spans::{CompletionContext, ContextSpans};
use candid_language_server::cursor_context::{
    cursor_context_snapshot, heuristic_context_from_cursor, CursorContext,
};
use candid_language_server::scope_index::ScopeBindingIndex;
use candid_language_server::semantic_analyze::{analyze_program, Semantic};
use candid_language_server::span::Span;
use candid_language_server::symbol_table::{ImportEntry, ImportKind};
use candid_language_server::syntax::{
    Binding, Dec, FuncMode, FuncType, IDLActorType, IDLProg, IDLType, IDLTypeWithSpan, Label, PrimType,
    TypeField,
};
use candid_language_server::tasks::{DocumentTaskKind, DocumentTaskState};
use ropey::Rope;

const SAMPLE: &str = "type Foo = record {\n  value : nat32;\n};\n\ntype Choice = variant {\n  Empty;\n  Full : Foo;\n};\n\ntype Items = vec Foo;\n\n// Demo API for hover tests.\nservice Api : {\n  // Returns the stored Foo value.\n  get_value : () -> (Foo) query;\n  set_value : (value : Foo) -> ();\n  get_all : () -> (Items) composite_query;\n}\n";

fn span_of(text: &str, needle: &str) -> Span {
    let start = text.find(needle).expect("needle occurs in the text");
    Span { start, end: start + needle.len() }
}

fn inner_span(text: &str, outer: &str, inner: &str) -> Span {
    let base = text.find(outer).expect("outer needle occurs in the text");
    let start = base + outer.find(inner).expect("inner needle occurs in the outer one");
    Span { start, end: start + inner.len() }
}

fn typed(kind: IDLType, span: Span) -> IDLTypeWithSpan {
    IDLTypeWithSpan { kind, span }
}

fn method(text: &str, source: &str, id: &str, docs: Vec<String>, func: FuncType) -> Binding {
    let span = span_of(text, source);
    Binding { id: id.to_string(), typ: typed(IDLType::FuncT(func), span), docs, span }
}

fn sample_program() -> IDLProg {
    let text = SAMPLE;
    let foo = Binding {
        id: "Foo".to_string(),
        typ: typed(
            IDLType::RecordT(vec![TypeField {
                label: Label::Named("value".to_string()),
                typ: typed(IDLType::PrimT(PrimType::Nat32), span_of(text, "nat32")),
                docs: vec![],
                span: span_of(text, "value : nat32"),
            }]),
            span_of(text, "record {\n  value : nat32;\n}"),
        ),
        docs: vec![],
        span: span_of(text, "type Foo = record {\n  value : nat32;\n}"),
    };
    let empty = span_of(text, "Empty");
    let choice = Binding {
        id: "Choice".to_string(),
        typ: typed(
            IDLType::VariantT(vec![
                TypeField {
                    label: Label::Named("Empty".to_string()),
                    typ: typed(IDLType::PrimT(PrimType::Null), Span { start: empty.end, end: empty.end }),
                    docs: vec![],
                    span: empty,
                },
                TypeField {
                    label: Label::Named("Full".to_string()),
                    typ: typed(IDLType::VarT("Foo".to_string()), inner_span(text, "Full : Foo", "Foo")),
                    docs: vec![],
                    span: span_of(text, "Full : Foo"),
                },
            ]),
            span_of(text, "variant {\n  Empty;\n  Full : Foo;\n}"),
        ),
        docs: vec![],
        span: span_of(text, "type Choice = variant {\n  Empty;\n  Full : Foo;\n}"),
    };
    let items = Binding {
        id: "Items".to_string(),
        typ: typed(
            IDLType::VecT(Box::new(typed(
                IDLType::VarT("Foo".to_string()),
                inner_span(text, "vec Foo", "Foo"),
            ))),
            span_of(text, "vec Foo"),
        ),
        docs: vec![],
        span: span_of(text, "type Items = vec Foo"),
    };
    let get_value = method(
        text,
        "get_value : () -> (Foo) query",
        "get_value",
        vec!["// Returns the stored Foo value.".to_string()],
        FuncType {
            modes: vec![FuncMode::Query],
            args: vec![],
            rets: vec![typed(
                IDLType::VarT("Foo".to_string()),
                inner_span(text, "get_value : () -> (Foo) query", "Foo"),
            )],
        },
    );
    let set_value = method(
        text,
        "set_value : (value : Foo) -> ()",
        "set_value",
        vec![],
        FuncType {
            modes: vec![],
            args: vec![typed(
                IDLType::VarT("Foo".to_string()),
                inner_span(text, "set_value : (value : Foo) -> ()", "Foo"),
            )],
            rets: vec![],
        },
    );
    let get_all = method(
        text,
        "get_all : () -> (Items) composite_query",
        "get_all",
        vec![],
        FuncType {
            modes: vec![FuncMode::CompositeQuery],
            args: vec![],
            rets: vec![typed(
                IDLType::VarT("Items".to_string()),
                inner_span(text, "get_all : () -> (Items) composite_query", "Items"),
            )],
        },
    );
    let service_start = text.find("service Api").expect("service declaration");
    let body_start = service_start + "service Api : ".len();
    let service_end = text.rfind('}').expect("closing brace") + 1;
    let actor = IDLActorType {
        typ: typed(
            IDLType::ServT(vec![get_value, set_value, get_all]),
            Span { start: body_start, end: service_end },
        ),
        docs: vec!["// Demo API for hover tests.".to_string()],
        span: Span { start: service_start, end: service_end },
    };
    IDLProg { decs: vec![Dec::TypD(foo), Dec::TypD(choice), Dec::TypD(items)], actor: Some(actor) }
}

fn load_fixture() -> (String, Rope) {
    (SAMPLE.to_string(), Rope::from_str(SAMPLE))
}

fn heuristic_context(offset: Option<usize>, rope: &Rope) -> CompletionContext {
    let Some(offset) = offset else {
        return CompletionContext::Unknown;
    };
    let cursor_context = CursorContext::new(rope, offset);
    heuristic_context_from_cursor(&cursor_context)
}

fn record_program(text: &str, field_type: IDLType, field_type_text: &str) -> IDLProg {
    let field_source = format!("value : {}", field_type_text);
    let record_source = format!("record {{ value : {}; }}", field_type_text);
    let binding_source = format!("type Foo = {}", record_source);
    let field = TypeField {
        label: Label::Named("value".to_string()),
        typ: typed(field_type, inner_span(text, &field_source, field_type_text)),
        docs: vec![],
        span: span_of(text, &field_source),
    };
    let foo = Binding {
        id: "Foo".to_string(),
        typ: typed(IDLType::RecordT(vec![field]), span_of(text, &record_source)),
        docs: vec![],
        span: span_of(text, &binding_source),
    };
    IDLProg { decs: vec![Dec::TypD(foo)], actor: None }
}

#[test]
fn static_completion_contains_keyword_and_primitive() {
    let items = static_completion_items();
    assert!(items.iter().any(|item| item.label == "type"));
    assert!(items.iter().any(|item| item.label == "nat"));
    assert!(items.iter().any(|item| item.label == "blob"));
}

#[test]
fn semantic_items_include_user_defined_types() {
    let text = "type Foo = record { value : nat32; };";
    let rope = Rope::from_str(text);
    let ast = record_program(text, IDLType::PrimT(PrimType::Nat32), "nat32");
    let semantic = analyze_program(&ast, &rope).expect("semantic");

    let items = semantic_completion_items(&semantic, &rope);
    assert!(
        items.iter().any(|item| item.label == "Foo"),
        "user-defined type not surfaced: {:?}",
        items.iter().map(|i| &i.label).collect::<Vec<_>>()
    );
}

#[test]
fn semantic_items_include_imports() {
    let rope = Rope::from_str("Foo");
    let mut semantic = Semantic::empty();
    let span = Span { start: 0, end: 3 };
    let symbol_id = semantic.table.add_symbol(span);
    semantic.symbol_ident_spans.push(None);
    semantic.type_docs.push(None);
    semantic.table.imports.push(ImportEntry {
        kind: ImportKind::Service,
        path: "foo.did".to_string(),
        span,
        symbol_id,
    });

    let items = semantic_completion_items(&semantic, &rope);
    let item = items.iter().find(|item| item.label == "Foo").expect("import completion");
    assert_eq!(item.detail.as_deref(), Some("imported service"));
    assert!(matches!(item.kind, Some(CompletionItemKind::Interface)));
    let documentation = item.documentation.as_ref().expect("import doc");
    assert!(documentation.contains("foo.did"), "missing import path: {}", documentation);
    assert_eq!(items.len(), 1, "the symbol of an import is offered once");
}

#[test]
fn type_context_detects_field_type_but_not_label() {
    let text = "type Foo = record { value : Bar; }; type Bar = null;";
    let rope = Rope::from_str(text);
    let mut ast = record_program(text, IDLType::VarT("Bar".to_string()), "Bar");
    ast.decs.push(Dec::TypD(Binding {
        id: "Bar".to_string(),
        typ: typed(IDLType::PrimT(PrimType::Null), span_of(text, "null")),
        docs: vec![],
        span: span_of(text, "type Bar = null"),
    }));
    let semantic = analyze_program(&ast, &rope).expect("semantic");

    let label_offset = text.find("value").expect("label");
    let spans =
        ContextSpans::from_sources(Some(&ast), Some(&semantic), Some(&rope)).expect("context spans");
    assert_eq!(spans.classify(label_offset), CompletionContext::Value);

    let type_offset = text.find("Bar").expect("type name");
    assert_eq!(spans.classify(type_offset), CompletionContext::Type);
}

#[test]
fn value_completions_include_fields_and_methods() {
    let (text, rope) = load_fixture();
    let ast = sample_program();
    let semantic = analyze_program(&ast, &rope).expect("semantic");
    let scope_index = ScopeBindingIndex::from_semantic(&semantic);

    let offset = text.find("set_value").expect("set_value span");
    let items = value_completion_items(
        &semantic,
        &rope,
        offset,
        ServiceSnippetStyle::Call,
        scope_index.as_ref(),
    );
    assert!(
        items.iter().any(|item| item.label == "value"
            && item.detail.as_deref().unwrap_or("").contains("field")),
        "record field missing from value completions"
    );
    assert!(
        items.iter().any(|item| item.label == "get_value"),
        "service method missing from value completions"
    );
    assert!(
        items
            .iter()
            .any(|item| item.label == "value" && item.detail.as_deref() == Some("local binding")),
        "local binding missing from completions"
    );
    assert!(
        items
            .iter()
            .any(|item| item.label == "set_value" && item.kind == Some(CompletionItemKind::Snippet)),
        "service snippets missing from completions"
    );
}

#[test]
fn service_snippets_include_signature_details() {
    let (text, rope) = load_fixture();
    let ast = sample_program();
    let semantic = analyze_program(&ast, &rope).expect("semantic");

    let offset = text.find("get_value").expect("get_value span");
    let snippets =
        service_method_snippets(&semantic, &rope, offset, ServiceSnippetStyle::Await, None);
    let item = snippets.iter().find(|item| item.label == "get_value").expect("snippet item");
    assert_eq!(
        item.detail.as_deref(),
        Some("get_value : () -> (Foo) query"),
        "snippet detail should include signature"
    );
    assert_eq!(
        item.insert_text.as_deref(),
        Some("await get_value() ${1:result : Foo}$0"),
        "snippet should include result placeholder"
    );
}

#[test]
fn service_snippets_include_argument_placeholders() {
    let (text, rope) = load_fixture();
    let ast = sample_program();
    let semantic = analyze_program(&ast, &rope).expect("semantic");

    let offset = text.find("set_value").expect("set_value span");
    let snippets = service_method_snippets(&semantic, &rope, offset, ServiceSnippetStyle::Call, None);
    let item = snippets.iter().find(|item| item.label == "set_value").expect("snippet item");
    let text = item.insert_text.as_deref().expect("insert text");
    assert!(
        text.contains("${1:") && text.contains("set_value(") && text.contains("Foo"),
        "argument placeholder missing type context: {text}"
    );
    assert_eq!(text, "set_value(${1:Foo})$0");
}

#[test]
fn service_snippets_support_await_let_style() {
    let (text, rope) = load_fixture();
    let ast = sample_program();
    let semantic = analyze_program(&ast, &rope).expect("semantic");

    let offset = text.find("get_value").expect("get_value span");
    let snippets =
        service_method_snippets(&semantic, &rope, offset, ServiceSnippetStyle::AwaitLet, None);
    let item = snippets.iter().find(|item| item.label == "get_value").expect("snippet item");
    assert_eq!(
        item.insert_text.as_deref(),
        Some("let ${1:result : Foo} = await get_value();\n$0"),
        "await-let snippet should bind awaited result"
    );
}

#[test]
fn service_snippets_support_async_style() {
    let (text, rope) = load_fixture();
    let ast = sample_program();
    let semantic = analyze_program(&ast, &rope).expect("semantic");
    let offset = text.find("get_value").expect("get_value span");
    let snippets =
        service_method_snippets(&semantic, &rope, offset, ServiceSnippetStyle::Async, None);
    let get_all = snippets.iter().find(|item| item.label == "get_all").expect("snippet item");
    assert_eq!(
        get_all.insert_text.as_deref(),
        Some("async { get_all() ${1:result : Items} }$0")
    );
    assert_eq!(get_all.detail.as_deref(), Some("get_all : () -> (Items) composite_query"));
    let set_value = snippets.iter().find(|item| item.label == "set_value").expect("snippet item");
    assert_eq!(set_value.insert_text.as_deref(), Some("async { set_value(${1:Foo}) }$0"));
    assert_eq!(set_value.insert_text_format, Some(InsertTextFormat::Snippet));
}

#[test]
fn definition_context_detected_for_type_binding() {
    let text = "type Foo = record { value : nat32; };";
    let rope = Rope::from_str(text);
    let ast = record_program(text, IDLType::PrimT(PrimType::Nat32), "nat32");
    let semantic = analyze_program(&ast, &rope).expect("semantic");
    let spans =
        ContextSpans::from_sources(Some(&ast), Some(&semantic), Some(&rope)).expect("context spans");
    let offset = text.find("Foo").expect("binding identifier");
    assert_eq!(spans.classify(offset), CompletionContext::Definition);
}

#[test]
fn heuristic_detects_type_context_after_equals() {
    let text = "type Hey = r";
    let rope = Rope::from_str(text);
    let offset = text.find('r').expect("char position");
    assert_eq!(heuristic_context(Some(offset), &rope), CompletionContext::Type);
}

#[test]
fn heuristic_detects_definition_before_equals() {
    let text = "type He";
    let rope = Rope::from_str(text);
    let offset = text.len();
    assert_eq!(heuristic_context(Some(offset), &rope), CompletionContext::Definition);
}

#[test]
fn heuristic_detects_value_context_inside_variant_field() {
    let text = "type Hey = variant {\n  n\n};";
    let rope = Rope::from_str(text);
    let start = text.find("{\n  n").expect("label chunk");
    let offset = start + "{\n  n".len();
    assert_eq!(heuristic_context(Some(offset), &rope), CompletionContext::Value);
}

#[test]
fn heuristic_detects_value_context_inside_service_block() {
    let text = "service Hello : {\n  user_exists_by_id : () -> (bool) query;\n  u\n}";
    let rope = Rope::from_str(text);
    let needle = "  u";
    let byte_index = text.find(needle).expect("service block placeholder");
    let offset = rope.byte_to_char(byte_index + needle.len());
    assert_eq!(
        heuristic_context(Some(offset), &rope),
        CompletionContext::Value,
        "heuristic context near service method placeholder"
    );
}

#[test]
fn heuristic_contexts_of_the_remaining_kinds() {
    assert_eq!(heuristic_context(Some(0), &Rope::from_str("")), CompletionContext::TopLevel);
    assert_eq!(heuristic_context(None, &Rope::from_str("type")), CompletionContext::Unknown);
    let comment = "type Foo = nat; // no";
    assert_eq!(
        heuristic_context(Some(comment.len()), &Rope::from_str(comment)),
        CompletionContext::Comment
    );
    let block = "/* type Foo\n";
    assert_eq!(
        heuristic_context(Some(block.len()), &Rope::from_str(block)),
        CompletionContext::Comment
    );
    let after_cursor = "type Foo = r";
    assert_eq!(
        heuristic_context(Some(after_cursor.len()), &Rope::from_str(after_cursor)),
        CompletionContext::Type,
        "the cursor right after the start of a type"
    );
    let blank_top = "type Foo = nat;\n";
    assert_eq!(
        heuristic_context(Some(blank_top.len()), &Rope::from_str(blank_top)),
        CompletionContext::TopLevel
    );
    let field_type = "type Foo = record {\n  value : n";
    assert_eq!(
        heuristic_context(Some(field_type.len()), &Rope::from_str(field_type)),
        CompletionContext::Type
    );
    let in_func = "type F = func (\n";
    assert_eq!(
        heuristic_context(Some(in_func.len()), &Rope::from_str(in_func)),
        CompletionContext::TopLevel
    );
    let in_braces = "type F = opt record { a : nat };\nfoo {\n";
    assert_eq!(
        heuristic_context(Some(in_braces.len()), &Rope::from_str(in_braces)),
        CompletionContext::Unknown
    );
    let service_colon = "service :";
    assert_eq!(
        heuristic_context(Some(service_colon.len()), &Rope::from_str(service_colon)),
        CompletionContext::TopLevel
    );
}

#[test]
fn cursor_snapshot_counts_depth_and_blocks() {
    let text = "service Api : {\n  get : () -> (record { a : nat; b : text }) query;\n  s";
    let rope = Rope::from_str(text);
    let snapshot = cursor_context_snapshot(&rope, text.len());
    assert_eq!(snapshot.depth, 1);
    assert_eq!(snapshot.trimmed_len, 3);
    assert!(!snapshot.in_comment);
    assert!(!snapshot.inside_record_variant_block);
    assert!(!snapshot.inside_service_block, "a closed brace follows the last open one");
    let inside = "service Api : {\n  s";
    let snapshot = cursor_context_snapshot(&Rope::from_str(inside), inside.len());
    assert!(snapshot.inside_service_block);
    let quoted = "import \"a{b";
    let snapshot = cursor_context_snapshot(&Rope::from_str(quoted), 1000);
    assert_eq!(snapshot.depth, 0, "a brace inside a string does not count");
    let escaped = "x \"a\\\"{\" {";
    let snapshot = cursor_context_snapshot(&Rope::from_str(escaped), escaped.len());
    assert_eq!(snapshot.depth, 1, "an escaped quote does not end the string");
}

#[test]
fn symbol_completion_items_preserve_full_identifiers() {
    let text = r#"
            type PaperCategory = record { value : text };
            type PaperId = record { value : text };
            type Hao = record {
              name : PaperCategory;
              id : PaperId;
            };
        "#;
    let rope = Rope::from_str(text);
    let simple = |name: &str| {
        let source = format!("type {} = record {{ value : text }}", name);
        let base = text.find(&source).expect("declaration");
        let record = base + source.find("record").expect("record");
        let field = base + source.find("value : text").expect("field");
        Binding {
            id: name.to_string(),
            typ: typed(
                IDLType::RecordT(vec![TypeField {
                    label: Label::Named("value".to_string()),
                    typ: typed(
                        IDLType::PrimT(PrimType::Text),
                        Span { start: field + "value : ".len(), end: field + "value : text".len() },
                    ),
                    docs: vec![],
                    span: Span { start: field, end: field + "value : text".len() },
                }]),
                Span { start: record, end: base + source.len() },
            ),
            docs: vec![],
            span: Span { start: base, end: base + source.len() },
        }
    };
    let hao_source = "type Hao = record {\n              name : PaperCategory;\n              id : PaperId;\n            }";
    let hao = Binding {
        id: "Hao".to_string(),
        typ: typed(
            IDLType::RecordT(vec![
                TypeField {
                    label: Label::Named("name".to_string()),
                    typ: typed(
                        IDLType::VarT("PaperCategory".to_string()),
                        inner_span(text, "name : PaperCategory", "PaperCategory"),
                    ),
                    docs: vec![],
                    span: span_of(text, "name : PaperCategory"),
                },
                TypeField {
                    label: Label::Named("id".to_string()),
                    typ: typed(
                        IDLType::VarT("PaperId".to_string()),
                        inner_span(text, "id : PaperId", "PaperId"),
                    ),
                    docs: vec![],
                    span: span_of(text, "id : PaperId"),
                },
            ]),
            inner_span(text, hao_source, "record {\n              name : PaperCategory;\n              id : PaperId;\n            }"),
        ),
        docs: vec![],
        span: span_of(text, hao_source),
    };
    let ast = IDLProg {
        decs: vec![Dec::TypD(simple("PaperCategory")), Dec::TypD(simple("PaperId")), Dec::TypD(hao)],
        actor: None,
    };
    let semantic = analyze_program(&ast, &rope).expect("semantic analysis");
    let items = semantic_completion_items(&semantic, &rope);
    let find_label = |needle: &str| items.iter().find(|item| item.label == needle);
    assert!(find_label("PaperCategory").is_some(), "PaperCategory missing");
    assert!(find_label("PaperId").is_some(), "PaperId missing");
}

#[test]
fn lightweight_value_completions_skip_snippets() {
    let (text, rope) = load_fixture();
    let ast = sample_program();
    let semantic = analyze_program(&ast, &rope).expect("semantic");
    let scope_index = ScopeBindingIndex::from_semantic(&semantic);

    let offset = text.find("set_value").expect("set_value span");
    let items = build_completion_items_sync(&BuildCompletionItemsParams::new(
        CompletionContext::Value,
        Some(&semantic),
        &rope,
        ServiceSnippetStyle::Call,
        scope_index.as_ref(),
        Some(offset),
        false,
        None,
        true,
    ));

    assert!(
        items
            .iter()
            .any(|item| item.label == "value" && item.kind == Some(CompletionItemKind::Variable)),
        "locals should remain available in lightweight mode"
    );
    assert!(
        items
            .iter()
            .any(|item| item.label == "get_value" && item.kind == Some(CompletionItemKind::Method)),
        "service labels should be preserved"
    );
    assert!(
        !items.iter().any(|item| item.kind == Some(CompletionItemKind::Snippet)),
        "lightweight mode should omit service snippets"
    );
}

#[test]
fn builder_cancels_when_generation_advances() {
    let (text, rope) = load_fixture();
    let ast = sample_program();
    let semantic = analyze_program(&ast, &rope).expect("semantic");
    let scope_index = ScopeBindingIndex::from_semantic(&semantic);
    let offset = text.find("set_value").expect("set_value span");
    let cursor_context = CursorContext::new(&rope, offset);
    let params = BuildCompletionItemsParams::new(
        CompletionContext::Value,
        Some(&semantic),
        &rope,
        ServiceSnippetStyle::Call,
        scope_index.as_ref(),
        Some(offset),
        cursor_context.inside_service_block(),
        Some(&cursor_context),
        false,
    );

    let mut task_state = DocumentTaskState::new();
    let token = task_state.token(DocumentTaskKind::Completion);
    let mut builder = CompletionBuilder::new();
    assert!(matches!(builder.step(&params, true), BuildStep::Checkpoint));
    let active = token.ensure_active(&task_state).is_ok();
    assert!(active);
    assert!(matches!(builder.step(&params, active), BuildStep::Checkpoint));
    // A second request for the same document arrives before the first is done.
    let second = task_state.token(DocumentTaskKind::Completion);
    let active = token.ensure_active(&task_state).is_ok();
    assert!(!active);
    match builder.step(&params, active) {
        BuildStep::Finished(CompletionBuildOutcome::Cancelled) => {}
        other => panic!("expected cancellation, got {:?}", other),
    }
    assert!(!second.is_cancelled(&task_state));
    assert_eq!(token.ensure_active(&task_state).unwrap_err().message(), "Completion task cancelled");
}

#[test]
fn builder_without_cancellation_gives_the_one_go_answer() {
    let (text, rope) = load_fixture();
    let ast = sample_program();
    let semantic = analyze_program(&ast, &rope).expect("semantic");
    let offset = text.find("get_all").expect("get_all span");
    let cursor_context = CursorContext::new(&rope, offset);
    assert!(cursor_context.inside_service_block());
    let params = BuildCompletionItemsParams::new(
        CompletionContext::Type,
        Some(&semantic),
        &rope,
        ServiceSnippetStyle::Call,
        None,
        Some(offset),
        true,
        Some(&cursor_context),
        false,
    );
    let expected: Vec<(String, Option<String>)> = build_completion_items_sync(&params)
        .into_iter()
        .map(|item| (item.label, item.detail))
        .collect();
    match build_completion_items_with_checkpoints(&params, true, true, true) {
        CompletionBuildOutcome::Completed(items) => {
            let got: Vec<(String, Option<String>)> =
                items.into_iter().map(|item| (item.label, item.detail)).collect();
            assert_eq!(got, expected);
        }
        CompletionBuildOutcome::Cancelled => panic!("expected an answer"),
    }
    for checks in [(false, true, true), (true, false, true), (true, true, false)] {
        let outcome = build_completion_items_with_checkpoints(&params, checks.0, checks.1, checks.2);
        assert!(matches!(outcome, CompletionBuildOutcome::Cancelled), "checkpoints {:?}", checks);
    }
    // static items first, in their documented order
    assert_eq!(expected[0].0, "func");
    // then the declared types in label order
    let labels: Vec<&str> = expected.iter().map(|(label, _)| label.as_str()).collect();
    let choice = labels.iter().position(|l| *l == "Choice").expect("Choice");
    let foo = labels.iter().position(|l| *l == "Foo").expect("Foo");
    let items = labels.iter().position(|l| *l == "Items").expect("Items");
    assert!(choice < foo && foo < items);
    // then the service methods and their snippets, in label order, each key once
    let method = expected
        .iter()
        .position(|(label, detail)| label == "get_all" && detail.as_deref() == Some("service method of Api"))
        .expect("method label");
    let snippet = expected
        .iter()
        .position(|(label, detail)| {
            label == "get_all" && detail.as_deref() == Some("get_all : () -> (Items) composite_query")
        })
        .expect("method snippet");
    assert!(items < method && method < snippet);
    let mut keys = expected.clone();
    keys.sort();
    keys.dedup();
    assert_eq!(keys.len(), expected.len(), "no key occurs twice");
}

#[test]
fn comment_and_definition_contexts_have_no_candidates() {
    let (text, rope) = load_fixture();
    let ast = sample_program();
    let semantic = analyze_program(&ast, &rope).expect("semantic");
    let offset = text.find("get_all").expect("get_all span");
    for context in [CompletionContext::Comment, CompletionContext::Definition] {
        let params = BuildCompletionItemsParams::new(
            context,
            Some(&semantic),
            &rope,
            ServiceSnippetStyle::Call,
            None,
            Some(offset),
            false,
            None,
            false,
        );
        assert!(build_completion_items_sync(&params).is_empty());
        let outcome = build_completion_items_with_checkpoints(&params, true, false, false);
        match outcome {
            CompletionBuildOutcome::Completed(items) => assert!(items.is_empty()),
            CompletionBuildOutcome::Cancelled => panic!("an early answer passes one checkpoint only"),
        }
    }
    let top = BuildCompletionItemsParams::new(
        CompletionContext::TopLevel,
        None,
        &rope,
        ServiceSnippetStyle::Call,
        None,
        None,
        false,
        None,
        false,
    );
    let labels: Vec<String> =
        build_completion_items_sync(&top).into_iter().map(|item| item.label).collect();
    assert_eq!(labels, vec!["type", "service", "import"]);
}

#[test]
fn record_keyword_completion_uses_snippet() {
    let items = keyword_completion_items();
    let record = items.iter().find(|item| item.label == "record").expect("record keyword");
    assert_eq!(
        record.insert_text.as_deref(),
        Some("record { $0 };"),
        "record keyword should insert braces snippet"
    );
    assert_eq!(
        record.insert_text_format,
        Some(InsertTextFormat::Snippet),
        "record keyword should use snippet format"
    );
    assert!(!items.iter().any(|item| item.label == "import"));
    assert_eq!(items.len(), 11);
}

#[test]
fn field_candidates_are_grouped_by_label() {
    let text = "type A = record { id : nat; name : text }; type B = record { id : nat }; type C = record { id : nat }; type D = record { id : nat };";
    let rope = Rope::from_str(text);
    let record = |name: &str, labels: &[&str]| {
        let fields = labels
            .iter()
            .map(|label| TypeField {
                label: Label::Named(label.to_string()),
                typ: typed(IDLType::PrimT(PrimType::Nat), Span { start: 0, end: 0 }),
                docs: if name == "B" { vec!["// The key.".to_string()] } else { vec![] },
                span: Span { start: 0, end: 0 },
            })
            .collect();
        let source = format!("type {} = record", name);
        let base = text.find(&source).expect("declaration");
        Dec::TypD(Binding {
            id: name.to_string(),
            typ: typed(
                IDLType::RecordT(fields),
                Span { start: base + source.len() - "record".len(), end: base + source.len() },
            ),
            docs: vec![],
            span: Span { start: base, end: base + source.len() },
        })
    };
    let ast = IDLProg {
        decs: vec![
            record("D", &["id"]),
            record("B", &["id"]),
            record("A", &["id", "name"]),
            record("C", &["id"]),
        ],
        actor: None,
    };
    let semantic = analyze_program(&ast, &rope).expect("semantic");
    let items = value_completion_items(&semantic, &rope, 0, ServiceSnippetStyle::Call, None);
    let fields: Vec<(&str, Option<&str>, Option<&str>)> = items
        .iter()
        .filter(|item| item.kind == Some(CompletionItemKind::Value))
        .map(|item| (item.label.as_str(), item.detail.as_deref(), item.documentation.as_deref()))
        .collect();
    assert_eq!(
        fields,
        vec![
            ("id", Some("field of A, B, C, ..."), Some("The key.")),
            ("name", Some("field of A"), None),
        ]
    );
}

#[test]
fn context_prefers_the_heuristic_then_the_spans() {
    let text = "type Foo = record { value : nat32; };";
    let rope = Rope::from_str(text);
    let ast = record_program(text, IDLType::PrimT(PrimType::Nat32), "nat32");
    let semantic = analyze_program(&ast, &rope).expect("semantic");
    let mut cache = CompletionDocumentCache::build(Some(&ast), Some(&semantic), Some(3));
    // Behind the closing brace the line has a colon, which reads as a type position.
    let at_name = text.find("Foo").expect("name") + 1;
    let context = determine_context(
        Some(at_name),
        &mut cache,
        Some(&semantic),
        Some(&ast),
        &rope,
        None,
        Some(3),
    );
    assert_eq!(context, CompletionContext::Definition, "`type Fo` reads as a definition");
    assert!(cache.as_ref().expect("cache").spans.is_none(), "the cache was not asked");
    let at_label = text.find("value").expect("label") + 2;
    let context = determine_context(
        Some(at_label),
        &mut cache,
        Some(&semantic),
        Some(&ast),
        &rope,
        None,
        Some(3),
    );
    assert_eq!(context, CompletionContext::Value, "an open record without a colon yet");
    let at_type = text.find("nat32").expect("type") + 2;
    let context = determine_context(
        Some(at_type),
        &mut cache,
        Some(&semantic),
        Some(&ast),
        &rope,
        None,
        Some(3),
    );
    assert_eq!(context, CompletionContext::Type);
    assert!(cache.as_ref().expect("cache").spans.is_some(), "the cache computed its spans");
    assert_eq!(
        determine_context(None, &mut cache, Some(&semantic), Some(&ast), &rope, None, Some(3)),
        CompletionContext::Unknown
    );
}

#[test]
fn classification_of_unfinished_declarations() {
    let cases = [
        ("type Foo = r", CompletionContext::Type),
        ("type He", CompletionContext::Definition),
        ("type Foo = variant { \n  n", CompletionContext::Value),
        ("variant { \n  n", CompletionContext::Value),
    ];
    for (text, expected) in cases {
        let rope = Rope::from_str(text);
        let offset = text.chars().count();
        assert_eq!(heuristic_context(Some(offset), &rope), expected, "heuristic for {text:?}");
        let mut no_cache = None;
        assert_eq!(
            determine_context(Some(offset), &mut no_cache, None, None, &rope, None, None),
            expected,
            "context for {text:?}"
        );
    }
}
