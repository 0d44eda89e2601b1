use candid_language_server::completion::CompletionBuildOutcome;
use candid_language_server::completion_items::{
    build_completion_item, CompletionItem, CompletionItemKind,
};
use candid_language_server::completion_order::{append_sorted_items, sort_by_label, str_lt};
use candid_language_server::diagnostics::{format_error_chain, parse_numeral, BinreadLabel};
use candid_language_server::events::{event_message, version_tag};
use candid_language_server::semantic_token::{
    legend_kinds, semantic_token_type_index, token_legend_kind, LegendKind, TokenKind,
};

fn chars(text: &str) -> Vec<char> {
    text.chars().collect()
}

#[test]
fn version_tag_names_the_version() {
    assert_eq!(version_tag(Some(3)), "(version: 3)");
    assert_eq!(version_tag(Some(0)), "(version: 0)");
    assert_eq!(version_tag(Some(-12)), "(version: -12)");
    assert_eq!(version_tag(Some(i32::MIN)), "(version: -2147483648)");
    assert_eq!(version_tag(Some(i32::MAX)), "(version: 2147483647)");
    assert_eq!(version_tag(None), "(version: none)");
}

#[test]
fn event_message_omits_empty_details() {
    assert_eq!(event_message("parse", ""), "[parse]");
    assert_eq!(event_message("parse", "uri=a parse_errors=0"), "[parse] uri=a parse_errors=0");
    assert_eq!(event_message("", ""), "[]");
}

#[test]
fn legend_has_twelve_classes_in_order() {
    let kinds = legend_kinds();
    assert_eq!(kinds.len(), 12);
    for (place, kind) in kinds.iter().enumerate() {
        assert_eq!(kind.index(), place);
    }
    let names: Vec<&str> = kinds.iter().map(|kind| kind.name()).collect();
    assert_eq!(
        names,
        vec![
            "comment",
            "commentDelimiter",
            "keyword",
            "type",
            "constant",
            "number",
            "string",
            "stringDelimiter",
            "operator",
            "punctuationBracket",
            "punctuationDelimiter",
            "identifier",
        ]
    );
}

#[test]
fn tokens_map_to_their_legend_class() {
    assert_eq!(semantic_token_type_index(TokenKind::LineComment), 0);
    assert_eq!(semantic_token_type_index(TokenKind::StartComment), 1);
    assert_eq!(semantic_token_type_index(TokenKind::Service), 2);
    assert_eq!(semantic_token_type_index(TokenKind::Opt), 2);
    assert_eq!(semantic_token_type_index(TokenKind::Principal), 3);
    assert_eq!(semantic_token_type_index(TokenKind::Boolean), 4);
    assert_eq!(semantic_token_type_index(TokenKind::Hex), 5);
    assert_eq!(semantic_token_type_index(TokenKind::Text), 6);
    assert_eq!(semantic_token_type_index(TokenKind::StartString), 7);
    assert_eq!(semantic_token_type_index(TokenKind::Sign), 8);
    assert_eq!(semantic_token_type_index(TokenKind::LBrace), 9);
    assert_eq!(semantic_token_type_index(TokenKind::Arrow), 10);
    assert_eq!(semantic_token_type_index(TokenKind::Id), 11);
    assert_eq!(token_legend_kind(TokenKind::Query), LegendKind::Keyword);
    assert_eq!(token_legend_kind(TokenKind::Blob), LegendKind::TypeName);
}

#[test]
fn numerals_are_read_like_machine_words() {
    assert_eq!(parse_numeral(&chars("0")), Some(0));
    assert_eq!(parse_numeral(&chars("12")), Some(12));
    assert_eq!(parse_numeral(&chars("+7")), Some(7));
    assert_eq!(parse_numeral(&chars("007")), Some(7));
    assert_eq!(parse_numeral(&chars("")), None);
    assert_eq!(parse_numeral(&chars("+")), None);
    assert_eq!(parse_numeral(&chars("-1")), None);
    assert_eq!(parse_numeral(&chars("1a")), None);
    assert_eq!(parse_numeral(&chars(" 1")), None);
    let largest = usize::MAX.to_string();
    assert_eq!(parse_numeral(&chars(&largest)), Some(usize::MAX));
    assert_eq!(parse_numeral(&chars(&format!("{largest}0"))), None);
    assert_eq!(parse_numeral(&chars("99999999999999999999999999")), None);
    for text in ["0", "12", "+7", "", "+", "-1", "1a", "18446744073709551616"] {
        assert_eq!(parse_numeral(&chars(text)), text.parse::<usize>().ok());
    }
}

#[test]
fn label_is_read_from_its_printed_form() {
    let label = BinreadLabel::from_printed("Label { pos: 12, message: \"bad magic\" }");
    assert_eq!(label.pos, Some(12));
    assert_eq!(label.message.as_deref(), Some("bad magic"));

    let label = BinreadLabel::from_printed("Label { message: \"only text\" }");
    assert_eq!(label.pos, None);
    assert_eq!(label.message.as_deref(), Some("only text"));

    let label = BinreadLabel::from_printed("Label { pos:  40 , other: 1 }");
    assert_eq!(label.pos, Some(40));
    assert_eq!(label.message, None);

    let label = BinreadLabel::from_printed("Label { pos: x, message: \"a \\\"b\\\"\" }");
    assert_eq!(label.pos, None);
    assert_eq!(label.message.as_deref(), Some("a \\"));

    let label = BinreadLabel::from_printed("pos: 3pos: 4, message: \"unterminated");
    assert_eq!(label.pos, Some(3));
    assert_eq!(label.message.as_deref(), Some("unterminated"));
}

#[test]
fn error_chain_numbers_the_causes() {
    assert_eq!(format_error_chain(&vec![]), "");
    assert_eq!(format_error_chain(&vec!["top".to_string()]), "top");
    assert_eq!(
        format_error_chain(&vec!["top".to_string(), "middle".to_string(), "root".to_string()]),
        "top\nCaused by (1): middle\nCaused by (2): root"
    );
}

fn candidate(label: &str, detail: Option<&str>) -> CompletionItem {
    build_completion_item(label, CompletionItemKind::Value, detail, None)
}

#[test]
fn sorting_orders_by_label_and_keeps_ties_in_place() {
    let pending = vec![
        candidate("pear", Some("first")),
        candidate("apple", None),
        candidate("pear", Some("second")),
        candidate("Zed", None),
        candidate("apple pie", None),
        candidate("", None),
        candidate("pear", Some("third")),
    ];
    let sorted = sort_by_label(&pending);
    let seen: Vec<(&str, Option<&str>)> =
        sorted.iter().map(|item| (item.label.as_str(), item.detail.as_deref())).collect();
    assert_eq!(
        seen,
        vec![
            ("", None),
            ("Zed", None),
            ("apple", None),
            ("apple pie", None),
            ("pear", Some("first")),
            ("pear", Some("second")),
            ("pear", Some("third")),
        ]
    );
    let mut expected: Vec<&str> = pending.iter().map(|item| item.label.as_str()).collect();
    expected.sort();
    let labels: Vec<&str> = sorted.iter().map(|item| item.label.as_str()).collect();
    assert_eq!(labels, expected);

    assert!(str_lt("a", "b"));
    assert!(str_lt("", "a"));
    assert!(str_lt("a", "ab"));
    assert!(!str_lt("a", "a"));
    assert!(!str_lt("b", "a"));
    assert!(str_lt("Z", "a"));
    assert!(str_lt("z", "é"));

    let mut items = vec![candidate("pear", Some("second")), candidate("kiwi", None)];
    append_sorted_items(&mut items, pending);
    let seen: Vec<(&str, Option<&str>)> =
        items.iter().map(|item| (item.label.as_str(), item.detail.as_deref())).collect();
    assert_eq!(
        seen,
        vec![
            ("pear", Some("second")),
            ("kiwi", None),
            ("", None),
            ("Zed", None),
            ("apple", None),
            ("apple pie", None),
            ("pear", Some("first")),
            ("pear", Some("third")),
        ]
    );
}

#[test]
fn a_cancelled_building_sends_no_candidates() {
    let built = CompletionBuildOutcome::Completed(vec![candidate("a", None), candidate("b", None)]);
    let labels: Vec<String> = built.into_items().into_iter().map(|item| item.label).collect();
    assert_eq!(labels, vec!["a".to_string(), "b".to_string()]);
    assert!(CompletionBuildOutcome::Cancelled.into_items().is_empty());
}
