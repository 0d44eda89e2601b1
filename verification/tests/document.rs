use candid_language_server::candid_lang::{parser_result, semantic_token, ImCompleteSemanticToken};
use candid_language_server::completion_cache::CompletionDocumentCache;
use candid_language_server::diagnostics::{
    candid_error_to_diagnostic, clean_diagnostic_message, collect_diagnostics, parse_error_to_diagnostic,
    range_offsets, range_single_char, BinreadLabel, CandidCoreError, CandidError, DiagnosticSeverity,
    LexicalError, ParseErrorKind, ParserError,
};
use candid_language_server::document::{
    analyze_document, apply_content_change, cached_position_to_offset, DocumentSnapshot,
};
use candid_language_server::offset_cache::HoverOffsetCache;
use candid_language_server::position::{offset_to_position, position_to_offset, span_to_range, Position};
use candid_language_server::semantic_analyze::SemanticError;
use candid_language_server::span::Span;
use candid_language_server::syntax::{Binding, Dec, IDLProg, IDLType, IDLTypeWithSpan, PrimType};
use candid_language_server::tasks::{DocumentTaskKind, DocumentTaskState, DocumentTaskToken};
use ropey::Rope;

fn position(line: u32, character: u32) -> Position {
    Position { line, character }
}

fn alias(text: &str, name: &str, kind: IDLType, target: &str) -> Dec {
    let source = format!("type {} = {}", name, target);
    let start = text.find(&source).expect("declaration");
    Dec::TypD(Binding {
        id: name.to_string(),
        typ: IDLTypeWithSpan {
            kind,
            span: Span { start: start + source.len() - target.len(), end: start + source.len() },
        },
        docs: vec![],
        span: Span { start, end: start + source.len() },
    })
}

#[test]
fn positions_and_offsets_convert_both_ways() {
    let rope = Rope::from_str("ab\ncd\u{e9}\r\n\nlast");
    assert_eq!(offset_to_position(0, &rope), Some(position(0, 0)));
    assert_eq!(offset_to_position(2, &rope), Some(position(0, 2)));
    assert_eq!(offset_to_position(3, &rope), Some(position(1, 0)));
    assert_eq!(offset_to_position(6, &rope), Some(position(1, 3)));
    assert_eq!(offset_to_position(8, &rope), Some(position(2, 0)));
    assert_eq!(offset_to_position(13, &rope), Some(position(3, 4)));
    assert_eq!(offset_to_position(14, &rope), None, "past the end of the text");
    assert_eq!(position_to_offset(position(0, 0), &rope), Some(0));
    assert_eq!(position_to_offset(position(1, 2), &rope), Some(5));
    assert_eq!(position_to_offset(position(1, 5), &rope), Some(8), "the line break belongs to the line");
    assert_eq!(position_to_offset(position(1, 6), &rope), None, "the column exceeds the line");
    assert_eq!(position_to_offset(position(3, 4), &rope), Some(13));
    assert_eq!(position_to_offset(position(4, 0), &rope), None, "the line exceeds the document");
    assert_eq!(position_to_offset(position(0, 0), &Rope::from_str("")), Some(0));
    let range = span_to_range(&Span { start: 4, end: 9 }, &rope).expect("range");
    assert_eq!((range.start, range.end), (position(1, 1), position(3, 0)));
    assert_eq!(span_to_range(&Span { start: 4, end: 15 }, &rope), None);
}

#[test]
fn offset_cache_holds_no_more_than_its_capacity() {
    let mut cache = HoverOffsetCache::new(64);
    for line in 0..65u32 {
        cache.insert("file:///a.did".to_string(), Some(1), position(line, 0), line as usize * 10);
        assert!(cache.entries.len() <= 64);
    }
    assert_eq!(cache.entries.len(), 64);
    assert_eq!(cache.lookup("file:///a.did", Some(1), &position(0, 0)), None, "the oldest key is gone");
    assert_eq!(cache.lookup("file:///a.did", Some(1), &position(1, 0)), Some(10));
    assert_eq!(cache.lookup("file:///a.did", Some(1), &position(64, 0)), Some(640));
    assert_eq!(cache.lookup("file:///a.did", Some(2), &position(64, 0)), None, "another version");
    assert_eq!(cache.lookup("file:///b.did", Some(1), &position(64, 0)), None, "another document");
}

#[test]
fn offset_cache_evicts_the_least_recently_used_entry() {
    let mut cache = HoverOffsetCache::new(3);
    cache.insert("u".to_string(), None, position(0, 0), 100);
    cache.insert("u".to_string(), None, position(1, 0), 101);
    cache.insert("u".to_string(), None, position(2, 0), 102);
    assert_eq!(cache.lookup("u", None, &position(0, 0)), Some(100), "a hit refreshes the entry");
    cache.insert("u".to_string(), None, position(3, 0), 103);
    assert_eq!(cache.lookup("u", None, &position(1, 0)), None);
    assert_eq!(cache.lookup("u", None, &position(0, 0)), Some(100));
    cache.insert("v".to_string(), None, position(0, 0), 7);
    cache.invalidate_uri("u");
    assert_eq!(cache.entries.len(), 1);
    assert_eq!(cache.lookup("v", None, &position(0, 0)), Some(7));
    assert_eq!(cache.lookup("u", None, &position(0, 0)), None);
}

#[test]
fn cached_conversion_remembers_what_it_converted() {
    let rope = Rope::from_str("ab\ncd");
    let mut cache = HoverOffsetCache::new(64);
    assert_eq!(cached_position_to_offset(&mut cache, "u", position(1, 1), &rope, Some(1)), Some(4));
    assert_eq!(cache.entries.len(), 1);
    assert_eq!(cache.entries[0].offset, 4);
    let edited = Rope::from_str("x");
    assert_eq!(
        cached_position_to_offset(&mut cache, "u", position(1, 1), &edited, Some(1)),
        Some(4),
        "the cache answers until it is invalidated"
    );
    cache.invalidate_uri("u");
    assert_eq!(cached_position_to_offset(&mut cache, "u", position(1, 1), &edited, Some(1)), None);
    assert_eq!(cache.entries.len(), 0);
}

#[test]
fn completion_cache_is_stale_for_another_version_only() {
    let ast = IDLProg { decs: vec![], actor: None };
    let cache = CompletionDocumentCache::build(Some(&ast), None, Some(3)).expect("cache");
    assert!(cache.is_fresh(Some(3)));
    assert!(!cache.is_fresh(Some(4)));
    assert!(!cache.is_fresh(Some(2)));
    assert!(cache.is_fresh(None));
    let unversioned = CompletionDocumentCache::build(Some(&ast), None, None).expect("cache");
    assert!(unversioned.is_fresh(Some(4)));
    assert!(unversioned.is_fresh(None));
    assert!(CompletionDocumentCache::build(None, None, Some(3)).is_none());
}

#[test]
fn second_request_cancels_the_first() {
    let mut state = DocumentTaskState::new();
    let first = state.token(DocumentTaskKind::Completion);
    assert_eq!(first.kind(), DocumentTaskKind::Completion);
    assert!(!first.is_cancelled(&state));
    assert!(first.ensure_active(&state).is_ok());
    let hover = state.token(DocumentTaskKind::Hover);
    assert!(!first.is_cancelled(&state), "another kind of task does not interfere");
    let second = state.token(DocumentTaskKind::Completion);
    assert!(first.is_cancelled(&state));
    assert_eq!(first.ensure_active(&state).unwrap_err().kind, DocumentTaskKind::Completion);
    assert!(!second.is_cancelled(&state));
    assert!(!hover.is_cancelled(&state));
    second.cancel(&mut state);
    assert!(second.is_cancelled(&state));
    assert!(!hover.is_cancelled(&state));
    assert_eq!(hover.ensure_active(&state), Ok(()));
}

#[test]
fn generations_wrap_around() {
    let mut state = DocumentTaskState::new();
    state.analysis.generation = u64::MAX;
    let token = state.token(DocumentTaskKind::Analysis);
    assert_eq!(token, DocumentTaskToken { kind: DocumentTaskKind::Analysis, generation: 0 });
    assert!(!token.is_cancelled(&state));
    let next = state.token(DocumentTaskKind::Analysis);
    assert_eq!(next.generation, 1);
    assert!(token.is_cancelled(&state));
}

#[test]
fn analysis_snapshot_drops_the_semantic_index_on_error() {
    let text = "type A = nat; type B = Missing;";
    let rope = Rope::from_str(text);
    let good = IDLProg { decs: vec![alias(text, "A", IDLType::PrimT(PrimType::Nat), "nat")], actor: None };
    let (snapshot, error) = analyze_document(Some(good), &rope, 2, Some(7));
    let snapshot = snapshot.expect("snapshot");
    assert!(error.is_none());
    assert!(snapshot.semantic().is_some());
    assert!(snapshot.ast().is_some());
    assert!(snapshot.has_parse_errors());
    assert_eq!(snapshot.version(), Some(7));
    let cache = snapshot.completion_cache().expect("cache");
    assert!(cache.has_ast && cache.has_semantic && cache.is_fresh(Some(7)));

    let bad = IDLProg {
        decs: vec![
            alias(text, "A", IDLType::PrimT(PrimType::Nat), "nat"),
            alias(text, "B", IDLType::VarT("Missing".to_string()), "Missing"),
        ],
        actor: None,
    };
    let (snapshot, error) = analyze_document(Some(bad), &rope, 0, Some(8));
    let snapshot = snapshot.expect("snapshot");
    assert!(snapshot.semantic().is_none());
    assert!(snapshot.ast().is_some());
    assert!(!snapshot.has_parse_errors());
    assert!(snapshot.completion_cache().is_none());
    let error = error.expect("semantic error");
    assert_eq!(error.message(), "Undefined variable Missing");
    assert_eq!(error.span(), Span { start: 23, end: 30 });
    let diagnostics = collect_diagnostics(&Vec::new(), Some(&error), &rope);
    assert_eq!(diagnostics.len(), 1);
    assert_eq!(diagnostics[0].message, "Undefined variable Missing");
    assert_eq!(diagnostics[0].range.start, position(0, 23));
    assert_eq!(diagnostics[0].range.end, position(0, 30));
    assert_eq!(diagnostics[0].severity, None);
    assert_eq!(diagnostics[0].source.as_deref(), Some("semantic"));

    let (snapshot, error) = analyze_document(None, &rope, 1, Some(9));
    assert!(snapshot.is_none() && error.is_none());
    let document = DocumentSnapshot::new(rope.clone(), Some(9));
    assert_eq!(document.version(), Some(9));
    assert_eq!(document.rope().len_chars(), text.len());
}

#[test]
fn semantic_error_outside_the_text_has_the_default_range() {
    let rope = Rope::from_str("short");
    let error = SemanticError::ImConsistentArrayType {
        expect_ty: "nat".to_string(),
        actual_ty: "text".to_string(),
        span: Span { start: 2, end: 50 },
    };
    let diagnostics = collect_diagnostics(&Vec::new(), Some(&error), &rope);
    assert_eq!(diagnostics[0].message, "Expect element type: nat, but got text");
    assert_eq!(diagnostics[0].range.start, position(0, 0));
    assert_eq!(diagnostics[0].range.end, position(0, 0));
    assert_eq!(diagnostics[0].severity, Some(DiagnosticSeverity::Error));
    assert_eq!(diagnostics[0].source.as_deref(), Some("semantic"));
}

#[test]
fn content_changes_replace_ranges_of_the_text() {
    let mut rope = Rope::from_str("hello world");
    apply_content_change(&mut rope, Some(6), Some(11), true, "there");
    assert_eq!(rope.to_string(), "hello there");
    apply_content_change(&mut rope, Some(5), Some(5), true, ",");
    assert_eq!(rope.to_string(), "hello, there");
    apply_content_change(&mut rope, Some(8), Some(3), true, "ignored");
    assert_eq!(rope.to_string(), "hello, there", "a range that ends before it starts");
    apply_content_change(&mut rope, None, None, true, "!");
    assert_eq!(rope.to_string(), "hello, there!", "without offsets the edit goes to the end");
    apply_content_change(&mut rope, Some(7), None, true, "[");
    assert_eq!(rope.to_string(), "hello, [there!");
    apply_content_change(&mut rope, Some(7), Some(1000), true, "");
    assert_eq!(rope.to_string(), "hello, ");
    apply_content_change(&mut rope, Some(1), Some(2), false, "new");
    assert_eq!(rope.to_string(), "new");
}

#[test]
fn diagnostic_messages_lose_the_printed_span() {
    assert_eq!(clean_diagnostic_message("Unknown token at 3..5".to_string()), "Unknown token");
    assert_eq!(clean_diagnostic_message("bad   at  12..340  ".to_string()), "bad");
    assert_eq!(clean_diagnostic_message("look at this".to_string()), "look at this");
    assert_eq!(clean_diagnostic_message("x at 1..".to_string()), "x at 1..");
    assert_eq!(clean_diagnostic_message("x at a..2".to_string()), "x at a..2");
    assert_eq!(clean_diagnostic_message("a at 1..2 at 3..4".to_string()), "a at 1..2");
    assert_eq!(clean_diagnostic_message("".to_string()), "");
}

#[test]
fn parse_errors_become_positioned_diagnostics() {
    let rope = Rope::from_str("type A\n= ;");
    let invalid = parse_error_to_diagnostic(&ParseErrorKind::InvalidToken { location: 9 }, &rope);
    assert_eq!(invalid.message, "invalid token");
    assert_eq!((invalid.range.start, invalid.range.end), (position(1, 2), position(1, 3)));
    assert_eq!(invalid.source.as_deref(), Some("parser"));
    assert_eq!(invalid.severity, Some(DiagnosticSeverity::Error));
    let eof = parse_error_to_diagnostic(
        &ParseErrorKind::UnrecognizedEof {
            location: 10,
            expected: vec!["\";\"".to_string(), "\"}\"".to_string()],
        },
        &rope,
    );
    assert_eq!(eof.message, "unexpected end of file, expected one of: \";\", \"}\"");
    assert_eq!((eof.range.start, eof.range.end), (position(1, 3), position(1, 4)));
    let token = parse_error_to_diagnostic(
        &ParseErrorKind::UnrecognizedToken { start: 5, end: 8, expected: vec![] },
        &rope,
    );
    assert_eq!(token.message, "unexpected token, expected one of: ");
    assert_eq!((token.range.start, token.range.end), (position(0, 5), position(1, 1)));
    let extra = parse_error_to_diagnostic(&ParseErrorKind::ExtraToken { start: 5, end: 80 }, &rope);
    assert_eq!(extra.message, "extra token");
    assert_eq!((extra.range.start, extra.range.end), (position(0, 0), position(0, 0)));
    let user = parse_error_to_diagnostic(
        &ParseErrorKind::User {
            error: LexicalError { err: "Unknown token".to_string(), span: Span { start: 3, end: 5 } },
        },
        &rope,
    );
    assert_eq!(user.message, "Unknown token");
    assert_eq!(range_single_char(11, &rope).start, position(0, 0));
    assert_eq!(range_offsets(0, 7, &rope).end, position(1, 0));
}

#[test]
fn parser_result_lists_each_error_once() {
    let seen = LexicalError { err: "Unknown token".to_string(), span: Span { start: 3, end: 5 } };
    let other = LexicalError { err: "Unknown token".to_string(), span: Span { start: 4, end: 5 } };
    let result = parser_result(
        None,
        vec![seen.clone()],
        vec![
            ParseErrorKind::User { error: seen.clone() },
            ParseErrorKind::InvalidToken { location: 1 },
            ParseErrorKind::User { error: other },
        ],
        vec![semantic_token(2, 6, 3), semantic_token(6, 2, 0)],
    );
    assert!(result.ast.is_none());
    assert_eq!(
        result.semantic_tokens,
        vec![
            ImCompleteSemanticToken { start: 2, length: 4, token_type: 3 },
            ImCompleteSemanticToken { start: 6, length: 0, token_type: 0 },
        ]
    );
    assert_eq!(result.parse_errors.len(), 3);
    assert!(matches!(&result.parse_errors[0], CandidError::Lexer(e) if e.span.start == 3));
    assert!(matches!(
        &result.parse_errors[1],
        CandidError::Parser(ParserError::Parse(ParseErrorKind::InvalidToken { location: 1 }))
    ));
    assert!(matches!(
        &result.parse_errors[2],
        CandidError::Parser(ParserError::Parse(ParseErrorKind::User { error })) if error.span.start == 4
    ));
    let rope = Rope::from_str("type A = ?");
    let diagnostics = collect_diagnostics(&result.parse_errors, None, &rope);
    assert_eq!(diagnostics.len(), 3);
    assert_eq!(diagnostics[0].message, "Unknown token");
    assert_eq!(diagnostics[0].source.as_deref(), Some("lexer"));
    assert_eq!((diagnostics[0].range.start, diagnostics[0].range.end), (position(0, 3), position(0, 5)));
    assert_eq!(diagnostics[2].message, "Unknown token");
    assert_eq!(diagnostics[2].source.as_deref(), Some("parser"));
    let far = vec![CandidError::Lexer(LexicalError {
        err: "late".to_string(),
        span: Span { start: 3, end: 50 },
    })];
    let late = collect_diagnostics(&far, None, &rope);
    assert_eq!(late.len(), 1);
    assert_eq!(late[0].message, "late");
    assert_eq!(late[0].source.as_deref(), Some("lexer"));
    assert_eq!((late[0].range.start, late[0].range.end), (position(0, 0), position(0, 0)));
    let custom = vec![CandidError::Parser(ParserError::Custom {
        chain: "cannot read file at 1..2\nCaused by (1): gone".to_string(),
    })];
    assert_eq!(
        collect_diagnostics(&custom, None, &rope)[0].message,
        "custom parser error: cannot read file at 1..2\nCaused by (1): gone"
    );
}

#[test]
fn decoding_errors_point_at_their_first_label() {
    let rope = Rope::from_str("0123456789");
    let error = CandidCoreError {
        message: "binary parser error: bad at byte offset 3".to_string(),
        chain: "unused".to_string(),
        labels: Some(vec![
            BinreadLabel { pos: Some(6), message: Some("bad".to_string()) },
            BinreadLabel { pos: Some(8), message: None },
            BinreadLabel { pos: None, message: Some("worse".to_string()) },
        ]),
    };
    let diagnostic = candid_error_to_diagnostic(&error, &rope);
    assert_eq!(
        diagnostic.message,
        "binary parser error: bad at byte offset 3\nAdditional details:\n  - worse"
    );
    assert_eq!((diagnostic.range.start, diagnostic.range.end), (position(0, 3), position(0, 4)));
    assert_eq!(diagnostic.source.as_deref(), Some("candid"));
    let plain = CandidCoreError {
        message: "Subtyping error: x".to_string(),
        chain: "Subtyping error: x at 1..2".to_string(),
        labels: None,
    };
    let diagnostic = candid_error_to_diagnostic(&plain, &rope);
    assert_eq!(diagnostic.message, "Subtyping error: x");
    assert_eq!(diagnostic.range.end, position(0, 0));
}
