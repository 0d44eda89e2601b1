//! The configuration of the service and how client settings change it.
use crate::rope::{rope_len_chars, rope_len_lines, rope_text, text_line_count};
use crate::text::{
    ascii_lower, char_ascii_lower, chars_eq, chars_of, is_ascii_upper, push_chars, push_str_chars,
    str_eq, string_of, trim, trim_seq,
};
use ropey::Rope;
use vstd::prelude::*;

verus! {

/// A settings value as a client sends it.
#[derive(Debug)]
pub enum SettingsValue {
    Null,
    Bool(bool),
    /// A number that is a non-negative integer below 2^64.
    Unsigned(u64),
    /// Any other number.
    Number,
    String(String),
    Array,
    Object(Vec<SettingsEntry>),
}

/// A member of a settings object.
#[derive(Debug)]
pub struct SettingsEntry {
    pub key: String,
    pub value: SettingsValue,
}

pub open spec fn is_first_entry(entries: Seq<SettingsEntry>, key: Seq<char>, i: int) -> bool {
    0 <= i < entries.len() && entries[i].key@ == key && forall|j: int|
        0 <= j < i ==> (#[trigger] entries[j]).key@ != key
}

/// The index of the first member named `key`.
pub open spec fn entry_index(entries: Seq<SettingsEntry>, key: Seq<char>) -> Option<int> {
    if exists|i: int| is_first_entry(entries, key, i) {
        Some(choose|i: int| is_first_entry(entries, key, i))
    } else {
        None
    }
}

/// The first member with a key is the one that a lookup of the key finds.
pub proof fn lemma_entry_index_is(entries: Seq<SettingsEntry>, key: Seq<char>, i: int)
    requires
        is_first_entry(entries, key, i),
    ensures
        entry_index(entries, key) == Some(i),
{
    let c = choose|c: int| is_first_entry(entries, key, c);
    if c < i {
        assert(entries[c].key@ != key);
    } else if i < c {
        assert(entries[i].key@ != key);
    }
}

pub fn find_entry(entries: &Vec<SettingsEntry>, key: &str) -> (index: Option<usize>)
    ensures
        index matches Some(i) ==> is_first_entry(entries@, key@, i as int) && entry_index(entries@, key@)
            == Some(i as int),
        index is None ==> entry_index(entries@, key@) is None,
{
    let mut i: usize = 0;
    while i < entries.len()
        invariant
            i <= entries.len(),
            forall|j: int| 0 <= j < i ==> (#[trigger] entries@[j]).key@ != key@,
        decreases entries.len() - i,
    {
        if str_eq(entries[i].key.as_str(), key) {
            proof {
                lemma_entry_index_is(entries@, key@, i as int);
            }
            return Some(i);
        }
        i += 1;
    }
    None
}

/// The text of a member that is a string.
pub open spec fn str_field(entries: Seq<SettingsEntry>, key: Seq<char>) -> Option<Seq<char>> {
    match entry_index(entries, key) {
        Some(i) => match entries[i].value {
            SettingsValue::String(text) => Some(text@),
            _ => None,
        },
        None => None,
    }
}

fn get_str<'a>(entries: &'a Vec<SettingsEntry>, key: &str) -> (text: Option<&'a String>)
    ensures
        match text {
            Some(found) => str_field(entries@, key@) == Some(found@),
            None => str_field(entries@, key@) is None,
        },
{
    match find_entry(entries, key) {
        Some(i) => match &entries[i].value {
            SettingsValue::String(text) => Some(text),
            _ => None,
        },
        None => None,
    }
}

/// The camel-case `key` with each upper-case ASCII letter made lower-case
/// and, unless it comes first, preceded by `separator`.
pub open spec fn separated_upto(key: Seq<char>, separator: char, n: nat) -> Seq<char>
    decreases n,
{
    if n == 0 || n > key.len() {
        Seq::empty()
    } else {
        let before = separated_upto(key, separator, (n - 1) as nat);
        let ch = key[n - 1];
        if is_ascii_upper(ch) {
            (if n > 1 {
                before.push(separator)
            } else {
                before
            }).push(ascii_lower(ch))
        } else {
            before.push(ch)
        }
    }
}

pub open spec fn snake_case(key: Seq<char>) -> Seq<char> {
    separated_upto(key, '_', key.len())
}

pub open spec fn kebab_case(key: Seq<char>) -> Seq<char> {
    separated_upto(key, '-', key.len())
}

fn separate_words(key: &str, separator: char) -> (output: String)
    ensures
        output@ == separated_upto(key@, separator, key@.len()),
{
    let chars = chars_of(key);
    let mut output: Vec<char> = Vec::new();
    let mut idx: usize = 0;
    while idx < chars.len()
        invariant
            idx <= chars.len(),
            chars@ == key@,
            output@ == separated_upto(key@, separator, idx as nat),
        decreases chars.len() - idx,
    {
        let ch = chars[idx];
        if ch >= 'A' && ch <= 'Z' {
            if idx > 0 {
                output.push(separator);
            }
            output.push(char_ascii_lower(ch));
        } else {
            output.push(ch);
        }
        idx += 1;
    }
    string_of(&output)
}

pub fn to_snake_case(key: &str) -> (output: String)
    ensures
        output@ == snake_case(key@),
{
    separate_words(key, '_')
}

pub fn to_kebab_case(key: &str) -> (output: String)
    ensures
        output@ == kebab_case(key@),
{
    separate_words(key, '-')
}

/// The index of the member named `key` in camel case, or else in snake
/// case, or else in kebab case.
pub open spec fn value_index(entries: Seq<SettingsEntry>, key: Seq<char>) -> Option<int> {
    match entry_index(entries, key) {
        Some(i) => Some(i),
        None => match entry_index(entries, snake_case(key)) {
            Some(i) => Some(i),
            None => entry_index(entries, kebab_case(key)),
        },
    }
}

fn get_value(entries: &Vec<SettingsEntry>, key: &str) -> (index: Option<usize>)
    ensures
        index matches Some(i) ==> i < entries@.len() && value_index(entries@, key@) == Some(i as int),
        index is None ==> value_index(entries@, key@) is None,
{
    match find_entry(entries, key) {
        Some(i) => Some(i),
        None => {
            let snake = to_snake_case(key);
            match find_entry(entries, snake.as_str()) {
                Some(i) => Some(i),
                None => {
                    let kebab = to_kebab_case(key);
                    find_entry(entries, kebab.as_str())
                },
            }
        },
    }
}

pub open spec fn bool_field(entries: Seq<SettingsEntry>, key: Seq<char>) -> Option<bool> {
    match value_index(entries, key) {
        Some(i) => match entries[i].value {
            SettingsValue::Bool(b) => Some(b),
            _ => None,
        },
        None => None,
    }
}

pub open spec fn u64_field(entries: Seq<SettingsEntry>, key: Seq<char>) -> Option<u64> {
    match value_index(entries, key) {
        Some(i) => match entries[i].value {
            SettingsValue::Unsigned(n) => Some(n),
            _ => None,
        },
        None => None,
    }
}

fn get_bool(entries: &Vec<SettingsEntry>, key: &str) -> (value: Option<bool>)
    ensures
        value == bool_field(entries@, key@),
{
    match get_value(entries, key) {
        Some(i) => match &entries[i].value {
            SettingsValue::Bool(b) => Some(*b),
            _ => None,
        },
        None => None,
    }
}

fn get_u64(entries: &Vec<SettingsEntry>, key: &str) -> (value: Option<u64>)
    ensures
        value == u64_field(entries@, key@),
{
    match get_value(entries, key) {
        Some(i) => match &entries[i].value {
            SettingsValue::Unsigned(n) => Some(*n),
            _ => None,
        },
        None => None,
    }
}

/// A setting as it is compared with the known names: without surrounding
/// whitespace and with its ASCII letters in lower case.
pub open spec fn normalized(value: Seq<char>) -> Seq<char> {
    trim_seq(value).map_values(|c: char| ascii_lower(c))
}

fn normalize(value: &str) -> (result: Vec<char>)
    ensures
        result@ == normalized(value@),
{
    let chars = chars_of(value);
    let trimmed = trim(&chars);
    let mut result: Vec<char> = Vec::new();
    let mut i: usize = 0;
    while i < trimmed.len()
        invariant
            i <= trimmed.len(),
            result@.len() == i,
            forall|k: int| 0 <= k < i ==> result@[k] == ascii_lower(trimmed@[k]),
        decreases trimmed.len() - i,
    {
        result.push(char_ascii_lower(trimmed[i]));
        i += 1;
    }
    assert(result@ =~= trimmed@.map_values(|c: char| ascii_lower(c)));
    result
}

fn is_text(chars: &Vec<char>, literal: &str) -> (same: bool)
    ensures
        same == (chars@ == literal@),
{
    let other = chars_of(literal);
    chars_eq(chars, &other)
}

/// How a call of a service method is written into the document.
#[derive(Clone, Copy, Debug, PartialEq, Eq, Structural)]
pub enum ServiceSnippetStyle {
    Call,
    Await,
    Async,
    AwaitLet,
}

/// The style that a setting names.
pub open spec fn parse_style(value: Seq<char>) -> Option<ServiceSnippetStyle> {
    let name = normalized(value);
    if name == "call"@ {
        Some(ServiceSnippetStyle::Call)
    } else if name == "await"@ {
        Some(ServiceSnippetStyle::Await)
    } else if name == "async"@ {
        Some(ServiceSnippetStyle::Async)
    } else if name == "awaitlet"@ || name == "await-let"@ || name == "await_let"@ || name
        == "asynclet"@ || name == "async-let"@ || name == "async_let"@ {
        Some(ServiceSnippetStyle::AwaitLet)
    } else {
        None
    }
}

impl ServiceSnippetStyle {
    pub fn from_str(value: &str) -> (result: Result<ServiceSnippetStyle, String>)
        ensures
            match result {
                Ok(style) => parse_style(value@) == Some(style),
                Err(message) => parse_style(value@) is None && message@
                    == "Invalid service snippet style: "@ + value@,
            },
    {
        let name = normalize(value);
        if is_text(&name, "call") {
            Ok(ServiceSnippetStyle::Call)
        } else if is_text(&name, "await") {
            Ok(ServiceSnippetStyle::Await)
        } else if is_text(&name, "async") {
            Ok(ServiceSnippetStyle::Async)
        } else if is_text(&name, "awaitlet") || is_text(&name, "await-let") || is_text(
            &name,
            "await_let",
        ) || is_text(&name, "asynclet") || is_text(&name, "async-let") || is_text(
            &name,
            "async_let",
        ) {
            Ok(ServiceSnippetStyle::AwaitLet)
        } else {
            let mut message: Vec<char> = Vec::new();
            push_str_chars(&mut message, "Invalid service snippet style: ");
            push_str_chars(&mut message, value);
            assert(message@ =~= "Invalid service snippet style: "@ + value@);
            Err(string_of(&message))
        }
    }

    /// The name under which the style is written in settings.
    pub fn name(&self) -> (name: &'static str)
        ensures
            name@ == (match self {
                ServiceSnippetStyle::Call => "call"@,
                ServiceSnippetStyle::Await => "await"@,
                ServiceSnippetStyle::Async => "async"@,
                ServiceSnippetStyle::AwaitLet => "await-let"@,
            }),
    {
        match self {
            ServiceSnippetStyle::Call => "call",
            ServiceSnippetStyle::Await => "await",
            ServiceSnippetStyle::Async => "async",
            ServiceSnippetStyle::AwaitLet => "await-let",
        }
    }
}

impl Default for ServiceSnippetStyle {
    fn default() -> (style: ServiceSnippetStyle)
        ensures
            style == ServiceSnippetStyle::Call,
    {
        ServiceSnippetStyle::Call
    }
}

/// How service method snippets are written.
#[derive(Clone, Copy, Debug, PartialEq, Eq, Structural)]
pub struct ServiceSnippetConfig {
    pub style: ServiceSnippetStyle,
}

impl ServiceSnippetConfig {
    /// The style in force.
    pub fn style(&self) -> (style: ServiceSnippetStyle)
        ensures
            style == self.style,
    {
        self.style
    }

    /// Put another style in force.
    pub fn set_style(&mut self, style: ServiceSnippetStyle)
        ensures
            final(self).style == style,
    {
        self.style = style;
    }
}

/// The completion mode that the client asks for.
#[derive(Clone, Copy, Debug, PartialEq, Eq, Structural)]
pub enum CompletionModeSetting {
    Auto,
    Full,
    Lightweight,
}

/// The mode that a setting names.
pub open spec fn parse_mode(value: Seq<char>) -> Option<CompletionModeSetting> {
    let name = normalized(value);
    if name == "auto"@ {
        Some(CompletionModeSetting::Auto)
    } else if name == "full"@ || name == "standard"@ {
        Some(CompletionModeSetting::Full)
    } else if name == "light"@ || name == "lightweight"@ || name == "fast"@ {
        Some(CompletionModeSetting::Lightweight)
    } else {
        None
    }
}

impl CompletionModeSetting {
    pub fn from_str(value: &str) -> (result: Result<CompletionModeSetting, String>)
        ensures
            match result {
                Ok(mode) => parse_mode(value@) == Some(mode),
                Err(message) => parse_mode(value@) is None && message@ == "Invalid completion mode: "@
                    + normalized(value@),
            },
    {
        let name = normalize(value);
        if is_text(&name, "auto") {
            Ok(CompletionModeSetting::Auto)
        } else if is_text(&name, "full") || is_text(&name, "standard") {
            Ok(CompletionModeSetting::Full)
        } else if is_text(&name, "light") || is_text(&name, "lightweight") || is_text(&name, "fast") {
            Ok(CompletionModeSetting::Lightweight)
        } else {
            let mut message: Vec<char> = Vec::new();
            push_str_chars(&mut message, "Invalid completion mode: ");
            push_chars(&mut message, &name);
            assert(message@ =~= "Invalid completion mode: "@ + normalized(value@));
            Err(string_of(&message))
        }
    }

    /// The name under which the mode is written in settings.
    pub fn name(&self) -> (name: &'static str)
        ensures
            name@ == (match self {
                CompletionModeSetting::Auto => "auto"@,
                CompletionModeSetting::Full => "full"@,
                CompletionModeSetting::Lightweight => "lightweight"@,
            }),
    {
        match self {
            CompletionModeSetting::Auto => "auto",
            CompletionModeSetting::Full => "full",
            CompletionModeSetting::Lightweight => "lightweight",
        }
    }
}

/// The completion mode in effect for a document.
#[derive(Clone, Copy, Debug, PartialEq, Eq, Structural)]
pub enum CompletionEngineMode {
    Full,
    Lightweight,
}

/// How completion candidates are computed, and the limits past which a
/// document counts as large.
#[derive(Clone, Copy, Debug, PartialEq, Eq, Structural)]
pub struct CompletionConfig {
    pub mode: CompletionModeSetting,
    /// The number of lines above which `Auto` means lightweight.
    pub auto_line_limit: usize,
    /// The number of characters above which `Auto` means lightweight.
    pub auto_char_limit: usize,
}

/// A limit taken from settings: zero keeps the limit in force.
pub open spec fn sanitized_limit(value: u64, fallback: usize) -> usize {
    if value as usize == 0 {
        fallback
    } else {
        value as usize
    }
}

pub fn sanitize_limit(value: u64, fallback: usize) -> (limit: usize)
    ensures
        limit == sanitized_limit(value, fallback),
{
    let limit: usize = #[verifier::truncate] (value as usize);
    if limit == 0 {
        fallback
    } else {
        limit
    }
}

impl CompletionConfig {
    /// The mode for a document with the given numbers of lines and characters.
    pub open spec fn mode_for(self, lines: nat, chars: nat) -> CompletionEngineMode {
        match self.mode {
            CompletionModeSetting::Full => CompletionEngineMode::Full,
            CompletionModeSetting::Lightweight => CompletionEngineMode::Lightweight,
            CompletionModeSetting::Auto => if lines > self.auto_line_limit || chars
                > self.auto_char_limit {
                CompletionEngineMode::Lightweight
            } else {
                CompletionEngineMode::Full
            },
        }
    }

    pub open spec fn with_mode_string(self, raw: Seq<char>) -> CompletionConfig {
        match parse_mode(raw) {
            Some(mode) => CompletionConfig { mode, ..self },
            None => self,
        }
    }

    pub open spec fn with_limits(self, auto: Seq<SettingsEntry>) -> CompletionConfig {
        let lines = match u64_field_plain(auto, "lineLimit"@) {
            Some(limit) => CompletionConfig {
                auto_line_limit: sanitized_limit(limit, self.auto_line_limit),
                ..self
            },
            None => self,
        };
        match u64_field_plain(auto, "charLimit"@) {
            Some(limit) => CompletionConfig {
                auto_char_limit: sanitized_limit(limit, lines.auto_char_limit),
                ..lines
            },
            None => lines,
        }
    }

    /// The configuration after the `completion` section of the settings
    /// has been applied.
    pub open spec fn with_section(self, value: SettingsValue) -> CompletionConfig {
        match value {
            SettingsValue::String(raw) => self.with_mode_string(raw@),
            SettingsValue::Object(entries) => {
                let moded = match str_field(entries@, "mode"@) {
                    Some(mode) => self.with_mode_string(mode),
                    None => match str_field(entries@, "completionMode"@) {
                        Some(mode) => self.with_mode_string(mode),
                        None => self,
                    },
                };
                match entry_index(entries@, "auto"@) {
                    Some(i) => match entries@[i].value {
                        SettingsValue::Object(auto) => moded.with_limits(auto@),
                        _ => moded,
                    },
                    None => moded,
                }
            },
            _ => self,
        }
    }

    /// The engine for a document: the one asked for, or under `Auto` the
    /// lightweight one for a large document and the full one otherwise.
    pub fn behavior_for(&self, rope: &Rope) -> (mode: CompletionEngineMode)
        ensures
            mode == self.mode_for(text_line_count(rope_text(*rope)), rope_text(*rope).len()),
    {
        match self.mode {
            CompletionModeSetting::Full => CompletionEngineMode::Full,
            CompletionModeSetting::Lightweight => CompletionEngineMode::Lightweight,
            CompletionModeSetting::Auto => {
                if rope_len_lines(rope) > self.auto_line_limit || rope_len_chars(rope)
                    > self.auto_char_limit {
                    CompletionEngineMode::Lightweight
                } else {
                    CompletionEngineMode::Full
                }
            },
        }
    }

    pub fn apply_section(&mut self, value: &SettingsValue)
        ensures
            *final(self) == old(self).with_section(*value),
    {
        match value {
            SettingsValue::String(raw) => {
                self.apply_mode_string(raw.as_str());
            },
            SettingsValue::Object(entries) => {
                match get_str(entries, "mode") {
                    Some(mode) => {
                        self.apply_mode_string(mode.as_str());
                    },
                    None => match get_str(entries, "completionMode") {
                        Some(mode) => {
                            self.apply_mode_string(mode.as_str());
                        },
                        None => {},
                    },
                }
                match find_entry(entries, "auto") {
                    Some(i) => match &entries[i].value {
                        SettingsValue::Object(auto) => {
                            match get_u64_plain(auto, "lineLimit") {
                                Some(limit) => {
                                    self.auto_line_limit = sanitize_limit(limit, self.auto_line_limit);
                                },
                                None => {},
                            }
                            match get_u64_plain(auto, "charLimit") {
                                Some(limit) => {
                                    self.auto_char_limit = sanitize_limit(limit, self.auto_char_limit);
                                },
                                None => {},
                            }
                        },
                        _ => {},
                    },
                    None => {},
                }
            },
            _ => {},
        }
    }

    pub fn apply_mode_string(&mut self, raw: &str)
        ensures
            *final(self) == old(self).with_mode_string(raw@),
    {
        match CompletionModeSetting::from_str(raw) {
            Ok(mode) => {
                self.mode = mode;
            },
            Err(_) => {},
        }
    }

    pub fn set_mode(&mut self, mode: CompletionModeSetting)
        ensures
            *final(self) == (CompletionConfig { mode, ..*old(self) }),
    {
        self.mode = mode;
    }
}

/// The number under `key`, looked up under that spelling only.
pub open spec fn u64_field_plain(entries: Seq<SettingsEntry>, key: Seq<char>) -> Option<u64> {
    match entry_index(entries, key) {
        Some(i) => match entries[i].value {
            SettingsValue::Unsigned(n) => Some(n),
            _ => None,
        },
        None => None,
    }
}

fn get_u64_plain(entries: &Vec<SettingsEntry>, key: &str) -> (value: Option<u64>)
    ensures
        value == u64_field_plain(entries@, key@),
{
    match find_entry(entries, key) {
        Some(i) => match &entries[i].value {
            SettingsValue::Unsigned(n) => Some(*n),
            _ => None,
        },
        None => None,
    }
}

impl Default for CompletionConfig {
    fn default() -> (config: CompletionConfig)
        ensures
            config == (CompletionConfig {
                mode: CompletionModeSetting::Auto,
                auto_line_limit: 2000,
                auto_char_limit: 120_000,
            }),
    {
        CompletionConfig {
            mode: CompletionModeSetting::Auto,
            auto_line_limit: 2000,
            auto_char_limit: 120_000,
        }
    }
}

/// Whether documents are formatted, and with what indentation and how many
/// blank lines in a row.
#[derive(Clone, Copy, Debug, PartialEq, Eq, Structural)]
pub struct FormatConfig {
    pub enabled: bool,
    pub indent_width: Option<usize>,
    pub blank_lines: Option<usize>,
}

impl Default for FormatConfig {
    fn default() -> (config: FormatConfig)
        ensures
            config == (FormatConfig { enabled: true, indent_width: None, blank_lines: None }),
    {
        FormatConfig { enabled: true, indent_width: None, blank_lines: None }
    }
}

impl FormatConfig {
    /// The configuration after the `format` section of the settings has
    /// been applied. A width of zero is not taken.
    pub open spec fn with_section(self, value: SettingsValue) -> FormatConfig {
        match value {
            SettingsValue::Bool(enabled) => FormatConfig { enabled, ..self },
            SettingsValue::Object(entries) => {
                let enabled = match bool_field(entries@, "enabled"@) {
                    Some(enabled) => FormatConfig { enabled, ..self },
                    None => self,
                };
                let width = match u64_field(entries@, "indentWidth"@) {
                    Some(width) => if width > 0 {
                        FormatConfig { indent_width: Some(width as usize), ..enabled }
                    } else {
                        enabled
                    },
                    None => enabled,
                };
                match u64_field(entries@, "blankLines"@) {
                    Some(lines) => FormatConfig { blank_lines: Some(lines as usize), ..width },
                    None => width,
                }
            },
            _ => self,
        }
    }

    pub fn apply_section(&mut self, value: &SettingsValue)
        ensures
            *final(self) == old(self).with_section(*value),
    {
        match value {
            SettingsValue::Bool(enabled) => {
                self.enabled = *enabled;
            },
            SettingsValue::Object(entries) => {
                match get_bool(entries, "enabled") {
                    Some(enabled) => {
                        self.enabled = enabled;
                    },
                    None => {},
                }
                match get_u64(entries, "indentWidth") {
                    Some(width) => {
                        if width > 0 {
                            self.indent_width = Some(#[verifier::truncate] (width as usize));
                        }
                    },
                    None => {},
                }
                match get_u64(entries, "blankLines") {
                    Some(lines) => {
                        self.blank_lines = Some(#[verifier::truncate] (lines as usize));
                    },
                    None => {},
                }
            },
            _ => {},
        }
    }
}

/// The member of an object value under `key`, under that spelling only.
pub open spec fn member(value: SettingsValue, key: Seq<char>) -> Option<SettingsValue> {
    match value {
        SettingsValue::Object(entries) => match entry_index(entries@, key) {
            Some(i) => if 0 <= i < entries@.len() {
                Some(entries@[i].value)
            } else {
                None
            },
            None => None,
        },
        _ => None,
    }
}

pub open spec fn string_of_value(value: SettingsValue) -> Option<Seq<char>> {
    match value {
        SettingsValue::String(text) => Some(text@),
        _ => None,
    }
}

/// The style named by the member `key`, where that member is a string that
/// names a style.
pub open spec fn style_member(value: SettingsValue, key: Seq<char>) -> Option<ServiceSnippetStyle> {
    match member(value, key) {
        Some(found) => match string_of_value(found) {
            Some(raw) => parse_style(raw),
            None => None,
        },
        None => None,
    }
}

/// The snippet style that settings ask for: a string names it directly; an
/// object names it in its `serviceSnippets` member, or else under one of the
/// keys `serviceSnippetStyle`, `snippetStyle`, `snippet` and `style`, or
/// else in its `candidLanguageServer` member.
pub open spec fn snippet_style_of(value: SettingsValue) -> Option<ServiceSnippetStyle>
    decreases value,
{
    match value {
        SettingsValue::String(raw) => parse_style(raw@),
        SettingsValue::Object(entries) => {
            let nested = match entry_index(entries@, "serviceSnippets"@) {
                Some(i) => if 0 <= i < entries@.len() {
                    snippet_style_of(entries@[i].value)
                } else {
                    None
                },
                None => None,
            };
            if nested is Some {
                nested
            } else if style_member(value, "serviceSnippetStyle"@) is Some {
                style_member(value, "serviceSnippetStyle"@)
            } else if style_member(value, "snippetStyle"@) is Some {
                style_member(value, "snippetStyle"@)
            } else if style_member(value, "snippet"@) is Some {
                style_member(value, "snippet"@)
            } else if style_member(value, "style"@) is Some {
                style_member(value, "style"@)
            } else {
                match entry_index(entries@, "candidLanguageServer"@) {
                    Some(i) => if 0 <= i < entries@.len() {
                        snippet_style_of(entries@[i].value)
                    } else {
                        None
                    },
                    None => None,
                }
            }
        },
        _ => None,
    }
}

fn style_at(entries: &Vec<SettingsEntry>, key: &str) -> (style: Option<ServiceSnippetStyle>)
    ensures
        style == style_member(SettingsValue::Object(*entries), key@),
{
    match find_entry(entries, key) {
        Some(i) => match &entries[i].value {
            SettingsValue::String(raw) => match ServiceSnippetStyle::from_str(raw.as_str()) {
                Ok(style) => Some(style),
                Err(_) => None,
            },
            _ => None,
        },
        None => None,
    }
}

pub fn extract_service_snippet_style(value: &SettingsValue) -> (style: Option<ServiceSnippetStyle>)
    ensures
        style == snippet_style_of(*value),
    decreases value,
{
    match value {
        SettingsValue::String(raw) => match ServiceSnippetStyle::from_str(raw.as_str()) {
            Ok(style) => Some(style),
            Err(_) => None,
        },
        SettingsValue::Object(entries) => {
            match find_entry(entries, "serviceSnippets") {
                Some(i) => {
                    match extract_service_snippet_style(&entries[i].value) {
                        Some(style) => {
                            return Some(style);
                        },
                        None => {},
                    }
                },
                None => {},
            }
            match style_at(entries, "serviceSnippetStyle") {
                Some(style) => {
                    return Some(style);
                },
                None => {},
            }
            match style_at(entries, "snippetStyle") {
                Some(style) => {
                    return Some(style);
                },
                None => {},
            }
            match style_at(entries, "snippet") {
                Some(style) => {
                    return Some(style);
                },
                None => {},
            }
            match style_at(entries, "style") {
                Some(style) => {
                    return Some(style);
                },
                None => {},
            }
            match find_entry(entries, "candidLanguageServer") {
                Some(i) => extract_service_snippet_style(&entries[i].value),
                None => None,
            }
        },
        _ => None,
    }
}

/// The section of the settings named `key`: a member of the settings
/// object, or of its `candidLanguageServer` member, and so on inwards.
pub open spec fn section_of(value: SettingsValue, key: Seq<char>) -> Option<SettingsValue>
    decreases value,
{
    match value {
        SettingsValue::Object(entries) => match entry_index(entries@, key) {
            Some(i) => if 0 <= i < entries@.len() {
                Some(entries@[i].value)
            } else {
                None
            },
            None => match entry_index(entries@, "candidLanguageServer"@) {
                Some(i) => if 0 <= i < entries@.len() {
                    section_of(entries@[i].value, key)
                } else {
                    None
                },
                None => None,
            },
        },
        _ => None,
    }
}

fn find_section<'a>(value: &'a SettingsValue, key: &str) -> (section: Option<&'a SettingsValue>)
    ensures
        match section {
            Some(found) => section_of(*value, key@) == Some(*found),
            None => section_of(*value, key@) is None,
        },
    decreases value,
{
    match value {
        SettingsValue::Object(entries) => match find_entry(entries, key) {
            Some(i) => Some(&entries[i].value),
            None => match find_entry(entries, "candidLanguageServer") {
                Some(i) => find_section(&entries[i].value, key),
                None => None,
            },
        },
        _ => None,
    }
}

pub fn completion_section(value: &SettingsValue) -> (section: Option<&SettingsValue>)
    ensures
        match section {
            Some(found) => section_of(*value, "completion"@) == Some(*found),
            None => section_of(*value, "completion"@) is None,
        },
{
    find_section(value, "completion")
}

pub fn format_section(value: &SettingsValue) -> (section: Option<&SettingsValue>)
    ensures
        match section {
            Some(found) => section_of(*value, "format"@) == Some(*found),
            None => section_of(*value, "format"@) is None,
        },
{
    find_section(value, "format")
}

/// The completion mode that settings without a `completion` section ask
/// for: a string names it directly; an object names it under
/// `completionMode`, or else in its `candidLanguageServer` member.
pub open spec fn completion_mode_of(value: SettingsValue) -> Option<CompletionModeSetting>
    decreases value,
{
    match value {
        SettingsValue::String(raw) => parse_mode(raw@),
        SettingsValue::Object(entries) => match str_field(entries@, "completionMode"@) {
            Some(mode) => parse_mode(mode),
            None => match entry_index(entries@, "candidLanguageServer"@) {
                Some(i) => if 0 <= i < entries@.len() {
                    completion_mode_of(entries@[i].value)
                } else {
                    None
                },
                None => None,
            },
        },
        _ => None,
    }
}

pub fn completion_mode_from_value(value: &SettingsValue) -> (mode: Option<CompletionModeSetting>)
    ensures
        mode == completion_mode_of(*value),
    decreases value,
{
    match value {
        SettingsValue::String(raw) => match CompletionModeSetting::from_str(raw.as_str()) {
            Ok(mode) => Some(mode),
            Err(_) => None,
        },
        SettingsValue::Object(entries) => match get_str(entries, "completionMode") {
            Some(mode) => match CompletionModeSetting::from_str(mode.as_str()) {
                Ok(mode) => Some(mode),
                Err(_) => None,
            },
            None => match find_entry(entries, "candidLanguageServer") {
                Some(i) => completion_mode_from_value(&entries[i].value),
                None => None,
            },
        },
        _ => None,
    }
}

/// The settings of the server.
#[derive(Clone, Copy, Debug, PartialEq, Eq, Structural)]
pub struct ServerConfig {
    pub service_snippets: ServiceSnippetConfig,
    pub completion: CompletionConfig,
    pub format: FormatConfig,
}

impl Default for ServerConfig {
    fn default() -> (config: ServerConfig)
        ensures
            config == (ServerConfig {
                service_snippets: ServiceSnippetConfig { style: ServiceSnippetStyle::Call },
                completion: CompletionConfig {
                    mode: CompletionModeSetting::Auto,
                    auto_line_limit: 2000,
                    auto_char_limit: 120_000,
                },
                format: FormatConfig { enabled: true, indent_width: None, blank_lines: None },
            }),
    {
        ServerConfig {
            service_snippets: ServiceSnippetConfig { style: ServiceSnippetStyle::Call },
            completion: CompletionConfig::default(),
            format: FormatConfig::default(),
        }
    }
}

impl ServerConfig {
    /// The configuration after client settings have been applied. Each part
    /// of the settings changes its own part of the configuration; what the
    /// settings do not name stays as it is.
    pub open spec fn with_settings(self, value: SettingsValue) -> ServerConfig {
        ServerConfig {
            service_snippets: match snippet_style_of(value) {
                Some(style) => ServiceSnippetConfig { style },
                None => self.service_snippets,
            },
            completion: match section_of(value, "completion"@) {
                Some(section) => self.completion.with_section(section),
                None => match completion_mode_of(value) {
                    Some(mode) => CompletionConfig { mode, ..self.completion },
                    None => self.completion,
                },
            },
            format: match section_of(value, "format"@) {
                Some(section) => self.format.with_section(section),
                None => self.format,
            },
        }
    }

    /// The style of service method snippets.
    pub fn service_snippet_style(&self) -> (style: ServiceSnippetStyle)
        ensures
            style == self.service_snippets.style,
    {
        self.service_snippets.style()
    }

    /// The completion engine for a document.
    pub fn completion_mode_for(&self, rope: &Rope) -> (mode: CompletionEngineMode)
        ensures
            mode == self.completion.mode_for(
                text_line_count(rope_text(*rope)),
                rope_text(*rope).len(),
            ),
    {
        self.completion.behavior_for(rope)
    }

    /// Whether formatting is switched on.
    pub fn format_enabled(&self) -> (enabled: bool)
        ensures
            enabled == self.format.enabled,
    {
        self.format.enabled
    }

    /// The number of spaces per level of indentation, where one is set.
    pub fn format_indent_width(&self) -> (width: Option<usize>)
        ensures
            width == self.format.indent_width,
    {
        self.format.indent_width
    }

    /// The largest number of blank lines in a row, where one is set.
    pub fn format_blank_lines(&self) -> (lines: Option<usize>)
        ensures
            lines == self.format.blank_lines,
    {
        self.format.blank_lines
    }

    /// Take over what a settings value names: the snippet style, the completion
    /// section or else the completion mode, and the formatting section. What
    /// it does not name stays.
    pub fn apply_settings(&mut self, value: &SettingsValue)
        ensures
            *final(self) == old(self).with_settings(*value),
    {
        match extract_service_snippet_style(value) {
            Some(style) => {
                self.service_snippets.set_style(style);
            },
            None => {},
        }
        match completion_section(value) {
            Some(section) => {
                self.completion.apply_section(section);
            },
            None => match completion_mode_from_value(value) {
                Some(mode) => {
                    self.completion.set_mode(mode);
                },
                None => {},
            },
        }
        match format_section(value) {
            Some(section) => {
                self.format.apply_section(section);
            },
            None => {},
        }
    }
}

} // verus!
