use candid_language_server::config::{
    sanitize_limit, to_kebab_case, to_snake_case, CompletionConfig, CompletionEngineMode,
    CompletionModeSetting, FormatConfig, ServerConfig, ServiceSnippetConfig, ServiceSnippetStyle,
    SettingsEntry, SettingsValue,
};
use ropey::Rope;

fn object(members: Vec<(&str, SettingsValue)>) -> SettingsValue {
    SettingsValue::Object(
        members
            .into_iter()
            .map(|(key, value)| SettingsEntry { key: key.to_string(), value })
            .collect(),
    )
}

fn text(value: &str) -> SettingsValue {
    SettingsValue::String(value.to_string())
}

#[test]
fn snippet_styles_are_read_from_their_names() {
    assert_eq!(ServiceSnippetStyle::from_str(" Call "), Ok(ServiceSnippetStyle::Call));
    assert_eq!(ServiceSnippetStyle::from_str("AWAIT"), Ok(ServiceSnippetStyle::Await));
    assert_eq!(ServiceSnippetStyle::from_str("async"), Ok(ServiceSnippetStyle::Async));
    for name in ["awaitlet", "await-let", "await_let", "asynclet", "async-let", "Async_Let"] {
        assert_eq!(ServiceSnippetStyle::from_str(name), Ok(ServiceSnippetStyle::AwaitLet));
    }
    assert_eq!(
        ServiceSnippetStyle::from_str(" Sync "),
        Err("Invalid service snippet style:  Sync ".to_string())
    );
    assert_eq!(ServiceSnippetStyle::AwaitLet.name(), "await-let");
    assert_eq!(ServiceSnippetStyle::default(), ServiceSnippetStyle::Call);
    let mut config = ServiceSnippetConfig { style: ServiceSnippetStyle::Call };
    config.set_style(ServiceSnippetStyle::Async);
    assert_eq!(config.style(), ServiceSnippetStyle::Async);
}

#[test]
fn completion_modes_are_read_from_their_names() {
    assert_eq!(CompletionModeSetting::from_str("auto"), Ok(CompletionModeSetting::Auto));
    assert_eq!(CompletionModeSetting::from_str("Standard"), Ok(CompletionModeSetting::Full));
    assert_eq!(CompletionModeSetting::from_str("full"), Ok(CompletionModeSetting::Full));
    for name in ["light", "lightweight", " FAST\n"] {
        assert_eq!(CompletionModeSetting::from_str(name), Ok(CompletionModeSetting::Lightweight));
    }
    assert_eq!(
        CompletionModeSetting::from_str(" Slow "),
        Err("Invalid completion mode: slow".to_string())
    );
    assert_eq!(CompletionModeSetting::Lightweight.name(), "lightweight");
}

#[test]
fn auto_mode_turns_lightweight_on_large_documents() {
    let mut config = CompletionConfig::default();
    assert_eq!((config.auto_line_limit, config.auto_char_limit), (2000, 120_000));
    let small = Rope::from_str("type A = nat;\n");
    assert_eq!(config.behavior_for(&small), CompletionEngineMode::Full);
    config.auto_line_limit = 1;
    assert_eq!(config.behavior_for(&small), CompletionEngineMode::Lightweight, "two lines");
    config.auto_line_limit = 2;
    assert_eq!(config.behavior_for(&small), CompletionEngineMode::Full);
    config.auto_char_limit = 13;
    assert_eq!(config.behavior_for(&small), CompletionEngineMode::Lightweight, "fourteen characters");
    config.set_mode(CompletionModeSetting::Full);
    assert_eq!(config.behavior_for(&small), CompletionEngineMode::Full);
    config.apply_mode_string("fast");
    assert_eq!(config.mode, CompletionModeSetting::Lightweight);
    config.apply_mode_string("nonsense");
    assert_eq!(config.mode, CompletionModeSetting::Lightweight);
    assert_eq!(sanitize_limit(0, 7), 7);
    assert_eq!(sanitize_limit(9, 7), 9);
}

#[test]
fn settings_change_what_they_name() {
    let mut config = ServerConfig::default();
    assert_eq!(config.service_snippet_style(), ServiceSnippetStyle::Call);
    assert!(config.format_enabled());
    assert_eq!(config.format_indent_width(), None);
    assert_eq!(config.format_blank_lines(), None);
    config.apply_settings(&object(vec![(
        "candidLanguageServer",
        object(vec![
            ("serviceSnippets", object(vec![("style", text("await"))])),
            (
                "completion",
                object(vec![
                    ("mode", text("light")),
                    (
                        "auto",
                        object(vec![
                            ("lineLimit", SettingsValue::Unsigned(10)),
                            ("charLimit", SettingsValue::Unsigned(0)),
                        ]),
                    ),
                ]),
            ),
            (
                "format",
                object(vec![
                    ("enabled", SettingsValue::Bool(false)),
                    ("indent_width", SettingsValue::Unsigned(4)),
                    ("blank-lines", SettingsValue::Unsigned(0)),
                ]),
            ),
        ]),
    )]));
    assert_eq!(config.service_snippet_style(), ServiceSnippetStyle::Await);
    assert_eq!(config.completion.mode, CompletionModeSetting::Lightweight);
    assert_eq!(config.completion.auto_line_limit, 10);
    assert_eq!(config.completion.auto_char_limit, 120_000, "zero keeps the limit");
    assert!(!config.format_enabled());
    assert_eq!(config.format_indent_width(), Some(4));
    assert_eq!(config.format_blank_lines(), Some(0));
    assert_eq!(
        config.completion_mode_for(&Rope::from_str("")),
        CompletionEngineMode::Lightweight
    );

    config.apply_settings(&SettingsValue::Null);
    assert_eq!(config.service_snippet_style(), ServiceSnippetStyle::Await);
    config.apply_settings(&text("async"));
    assert_eq!(config.service_snippet_style(), ServiceSnippetStyle::Async);
    assert_eq!(config.completion.mode, CompletionModeSetting::Lightweight, "not the name of a mode");
    config.apply_settings(&text("full"));
    assert_eq!(config.completion.mode, CompletionModeSetting::Full);
    assert_eq!(config.service_snippet_style(), ServiceSnippetStyle::Async);
    config.apply_settings(&object(vec![
        ("snippetStyle", text("bogus")),
        ("snippet", text("call")),
        ("completionMode", text("auto")),
        ("format", SettingsValue::Bool(true)),
    ]));
    assert_eq!(config.service_snippet_style(), ServiceSnippetStyle::Call);
    assert_eq!(config.completion.mode, CompletionModeSetting::Auto);
    assert!(config.format_enabled());
    config.apply_settings(&object(vec![
        ("completion", text("fast")),
        ("format", object(vec![("indentWidth", SettingsValue::Unsigned(0)), ("enabled", SettingsValue::Number)])),
    ]));
    assert_eq!(config.completion.mode, CompletionModeSetting::Lightweight);
    assert_eq!(config.format_indent_width(), Some(4), "a width of zero is not taken");
    config.apply_settings(&object(vec![("completion", object(vec![("completionMode", text("full"))]))]));
    assert_eq!(config.completion.mode, CompletionModeSetting::Full);
    let defaults = FormatConfig::default();
    assert!(defaults.enabled && defaults.indent_width.is_none() && defaults.blank_lines.is_none());
}

#[test]
fn keys_are_also_looked_up_in_snake_and_kebab_case() {
    assert_eq!(to_snake_case("indentWidth"), "indent_width");
    assert_eq!(to_kebab_case("blankLinesMax"), "blank-lines-max");
    assert_eq!(to_snake_case("Width"), "width");
    assert_eq!(to_kebab_case("a\u{c9}B"), "a\u{c9}-b");
    assert_eq!(to_snake_case(""), "");
}
