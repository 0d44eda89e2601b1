use candid_language_server::context_spans::{CompletionContext, ContextSpans};
use candid_language_server::docs::{annotate_code_fences, format_docs};
use candid_language_server::markdown::{
    push_docs_section, push_snippet_with_docs, snippet_with_docs_markdown, text_markdown, MarkdownWriter,
};
use candid_language_server::scope_index::ScopeBindingIndex;
use candid_language_server::semantic_analyze::{analyze_program, LocalBinding, Semantic};
use candid_language_server::span::Span;
use candid_language_server::span_search::{
    compute_actor_name_span, compute_param_name_span, find_identifier_span,
};
use candid_language_server::symbol_table::{ImportKind, ReferenceId, SymbolId, SymbolTable};
use candid_language_server::syntax::{Binding, Dec, IDLProg, IDLType, IDLTypeWithSpan, PrimType};
use candid_language_server::text::{
    char_is_whitespace, contains, find_first, find_last, trim, trim_end, trim_start,
};
use candid_language_server::type_docs::{
    blob_doc, keyword_doc, keyword_kinds, primitive_doc, primitive_kinds, KeywordDoc,
};
use ropey::Rope;

fn chars(text: &str) -> Vec<char> {
    text.chars().collect()
}

fn string(chars: Vec<char>) -> String {
    chars.into_iter().collect()
}

fn span(start: usize, end: usize) -> Span {
    Span { start, end }
}

#[test]
fn every_symbol_with_usages_is_a_declared_symbol() {
    let mut table = SymbolTable::new();
    let a = table.add_symbol(span(0, 5));
    let b = table.add_import(span(6, 9), "b.did".to_string(), ImportKind::Type);
    assert_eq!((a, b), (SymbolId(0), SymbolId(1)));
    assert_eq!(table.add_reference(span(10, 11), Some(a)), ReferenceId(0));
    table.add_reference(span(12, 13), None);
    table.add_reference(span(14, 15), Some(a));
    table.add_reference(span(16, 17), Some(b));
    for reference in &table.reference_id_to_reference {
        if let Some(symbol) = reference.symbol_id {
            assert!(symbol.0 < table.symbol_id_to_span.len());
        }
    }
    assert_eq!(table.usages_of(a), vec![ReferenceId(0), ReferenceId(2)]);
    assert_eq!(table.usages_of(b), vec![ReferenceId(3)]);
    assert_eq!(table.usages_of(SymbolId(9)), Vec::<ReferenceId>::new());
    assert_eq!(table.imports[0].symbol_id, b);
    assert_eq!(table.imports[0].path, "b.did");
}

#[test]
fn the_last_declaration_of_a_span_wins() {
    let mut table = SymbolTable::new();
    table.add_symbol(span(0, 5));
    table.add_symbol(span(7, 9));
    table.add_symbol(span(0, 5));
    assert_eq!(table.symbol_at(span(0, 5)), Some(SymbolId(2)));
    assert_eq!(table.symbol_at(span(7, 9)), Some(SymbolId(1)));
    assert_eq!(table.symbol_at(span(0, 4)), None);
}

#[test]
fn analysis_is_deterministic() {
    let text = "type A = nat; type B = A;";
    let rope = Rope::from_str(text);
    let program = || IDLProg {
        decs: vec![
            Dec::TypD(Binding {
                id: "A".to_string(),
                typ: IDLTypeWithSpan { kind: IDLType::PrimT(PrimType::Nat), span: span(9, 12) },
                docs: vec![],
                span: span(0, 12),
            }),
            Dec::TypD(Binding {
                id: "B".to_string(),
                typ: IDLTypeWithSpan { kind: IDLType::VarT("A".to_string()), span: span(23, 24) },
                docs: vec!["// An alias.".to_string()],
                span: span(14, 24),
            }),
        ],
        actor: None,
    };
    let summary = |semantic: &Semantic| {
        format!(
            "{:?}|{:?}|{:?}|{:?}|{:?}|{:?}|{:?}",
            semantic.table,
            semantic.symbol_ident_spans,
            semantic.symbol_ident_names,
            semantic.type_docs,
            semantic.primitive_spans,
            semantic.keyword_spans,
            semantic.locals
        )
    };
    let first = analyze_program(&program(), &rope).expect("semantic");
    let second = analyze_program(&program(), &rope).expect("semantic");
    assert_eq!(summary(&first), summary(&second));
    assert_eq!(first.type_docs[1].as_ref().expect("doc").docs.as_deref(), Some("An alias."));
    assert_eq!(first.table.reference_id_to_reference[0].symbol_id, Some(SymbolId(0)));
}

#[test]
fn scope_index_answers_with_the_smallest_enclosing_block() {
    let mut semantic = Semantic::empty();
    assert!(ScopeBindingIndex::from_semantic(&semantic).is_none());
    let local = |name: &str, scope: Span| LocalBinding {
        name: name.to_string(),
        span: span(0, 0),
        scope,
        is_definition: false,
    };
    semantic.locals.push(local("inner_a", span(20, 40)));
    semantic.locals.push(local("outer_a", span(10, 50)));
    semantic.locals.push(local("inner_b", span(20, 40)));
    semantic.locals.push(local("same_len", span(25, 45)));
    semantic.locals.push(local("first", span(0, 5)));
    let index = ScopeBindingIndex::from_semantic(&semantic).expect("index");
    let scopes: Vec<Span> = index.scopes.iter().map(|scope| scope.span).collect();
    assert_eq!(scopes, vec![span(0, 5), span(10, 50), span(20, 40), span(25, 45)]);
    let names = |offset: usize| -> Option<Vec<String>> {
        index.bindings_at(offset).map(|entries| entries.iter().map(|e| e.name.clone()).collect())
    };
    assert_eq!(names(12), Some(vec!["outer_a".to_string()]));
    assert_eq!(names(22), Some(vec!["inner_a".to_string(), "inner_b".to_string()]));
    assert_eq!(names(30), Some(vec!["inner_a".to_string(), "inner_b".to_string()]), "the first of equals");
    assert_eq!(names(42), Some(vec!["same_len".to_string()]));
    assert_eq!(names(50), None);
    assert_eq!(names(4), Some(vec!["first".to_string()]));
}

#[test]
fn classification_prefers_definitions_then_values_then_types() {
    let mut spans = ContextSpans::new();
    assert!(spans.is_empty());
    spans.add_type_span(&span(0, 30));
    spans.add_value_span(&span(5, 20));
    spans.add_definition_span(&span(10, 12));
    spans.add_definition_span(&span(40, 40));
    assert!(!spans.is_empty());
    assert_eq!(spans.definition_spans.len(), 1, "an empty span is not recorded");
    assert_eq!(spans.classify(11), CompletionContext::Definition);
    assert_eq!(spans.classify(12), CompletionContext::Value);
    assert_eq!(spans.classify(4), CompletionContext::Type);
    assert_eq!(spans.classify(30), CompletionContext::Unknown);
    assert!(ContextSpans::from_sources(None, None, None).is_none());
    let empty = IDLProg { decs: vec![], actor: None };
    assert!(ContextSpans::from_sources(Some(&empty), None, None).is_none());
}

#[test]
fn names_are_found_by_their_text() {
    let rope = Rope::from_str("f : (a : nat, long_name : text, nat) -> ()");
    let func = span(4, 37);
    assert_eq!(find_identifier_span(&rope, func, &chars("nat"), false), Some(span(9, 12)));
    assert_eq!(find_identifier_span(&rope, func, &chars("nat"), true), Some(span(32, 35)));
    assert_eq!(find_identifier_span(&rope, func, &chars("bool"), true), None);
    assert_eq!(find_identifier_span(&rope, func, &chars(""), true), None);
    assert_eq!(find_identifier_span(&rope, span(4, 400), &chars("nat"), true), None);
    assert_eq!(find_identifier_span(&rope, span(12, 4), &chars("nat"), true), None);
    assert_eq!(compute_param_name_span(&rope, span(5, 9)), Some(span(5, 6)));
    assert_eq!(compute_param_name_span(&rope, span(12, 26)), Some(span(14, 23)));
    assert_eq!(compute_param_name_span(&rope, span(30, 32)), None, "no colon before the type");
    let service = Rope::from_str("  service   Api : { f : () -> () }");
    assert_eq!(compute_actor_name_span(&service, span(2, 34)), Some(span(12, 15)));
    let unnamed = Rope::from_str("service : { }");
    assert_eq!(compute_actor_name_span(&unnamed, span(0, 13)), None);
}

#[test]
fn text_searches_and_trimming() {
    let hay = chars("abcabcab");
    assert_eq!(find_first(&hay, &chars("bca")), Some(1));
    assert_eq!(find_last(&hay, &chars("bca")), Some(4));
    assert_eq!(find_last(&hay, &chars("ab")), Some(6));
    assert_eq!(find_first(&hay, &chars("")), Some(0));
    assert_eq!(find_last(&hay, &chars("")), Some(8));
    assert_eq!(find_first(&hay, &chars("abcabcabc")), None);
    assert!(contains(&hay, &chars("cab")));
    assert!(!contains(&hay, &chars("cc")));
    assert_eq!(string(trim(&chars(" \t\u{a0}x y\u{2028}\r\n"))), "x y");
    assert_eq!(string(trim_start(&chars("  x "))), "x ");
    assert_eq!(string(trim_end(&chars("  x "))), "  x");
    assert_eq!(string(trim(&chars(" \n "))), "");
    for code in 0u32..0x3100 {
        if let Some(c) = char::from_u32(code) {
            assert_eq!(char_is_whitespace(c), c.is_whitespace(), "U+{:04X}", code);
        }
    }
}

#[test]
fn documentation_comments_are_cleaned_and_annotated() {
    let docs = vec![
        "/// First line. ".to_string(),
        "//".to_string(),
        "// ```".to_string(),
        "// type A = nat;".to_string(),
        "// ```".to_string(),
        "   ".to_string(),
        "// Last.".to_string(),
    ];
    assert_eq!(
        format_docs(&docs).as_deref(),
        Some("First line.  \n```candid\ntype A = nat;\n```  \nLast.")
    );
    assert_eq!(format_docs(&Vec::new()), None);
    assert_eq!(format_docs(&vec!["//".to_string(), " ".to_string()]), None);
    assert_eq!(string(annotate_code_fences(&chars("a\r\nb``c"))), "a  \r  \nb``c");
}

#[test]
fn markdown_sections_are_separated_by_blank_lines() {
    let mut writer = MarkdownWriter::new();
    assert!(writer.is_empty());
    writer.push_code_block("a : nat");
    writer.push_rule();
    writer.push_text("text");
    writer.push_code_block("b\n");
    assert!(!writer.is_empty());
    assert_eq!(
        writer.finish().as_deref(),
        Some("```candid\na : nat\n```\n\n---\n\ntext\n\n```candid\nb\n```")
    );
    assert_eq!(MarkdownWriter::new().finish(), None);
    assert_eq!(text_markdown("plain").as_deref(), Some("plain"));
    assert_eq!(
        snippet_with_docs_markdown("f : () -> ()", Some("Docs.")).as_deref(),
        Some("```candid\nf : () -> ()\n```\n\n---\n\nDocs.")
    );
    assert_eq!(snippet_with_docs_markdown("x", None).as_deref(), Some("```candid\nx\n```"));
    let mut writer = MarkdownWriter::new();
    push_docs_section(&mut writer, None);
    assert!(writer.is_empty());
    push_snippet_with_docs(&mut writer, "s", None);
    push_docs_section(&mut writer, Some("d"));
    assert_eq!(writer.finish().as_deref(), Some("```candid\ns\n```\n\n---\n\nd"));
}

#[test]
fn documentation_pages_have_a_header_and_a_body() {
    assert_eq!(primitive_kinds().len(), 17);
    assert_eq!(keyword_kinds().len(), 12);
    assert_eq!(keyword_kinds()[11], KeywordDoc::Import);
    for kind in primitive_kinds() {
        let page = primitive_doc(&kind);
        assert!(page.starts_with("```candid\n"));
        assert!(page.contains("\n```\n\n"));
    }
    assert!(blob_doc().starts_with("```candid\nblob\n```\n\n"));
    let page = keyword_doc(KeywordDoc::CompositeQuery).expect("page");
    assert!(page.starts_with("```candid\ncomposite_query\n```\n\nMarks a method as a composite query"));
    assert_eq!(KeywordDoc::CompositeQuery.keyword(), "composite_query");
}
