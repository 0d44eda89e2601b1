//! Positioned diagnostics for the errors of parsing and analysis.
use crate::position::{offset_to_position, position_of, Position, Range};
use crate::rope::rope_text;
use crate::semantic_analyze::{SemanticError, SemanticErrorView};
use crate::service_snippets::joined_upto;
use crate::span::Span;
use crate::type_display::{decimal_text, push_decimal_u64};
use crate::text::{
    chars_of, find_char, find_first, find_last, first_index_of, first_match, last_match,
    matches_at, push_chars, push_str_chars, string_of, subvec, trim, trim_end, trim_end_seq,
    trim_seq,
};
use ropey::Rope;
use vstd::prelude::*;

verus! {

#[derive(Clone, Copy, Debug, PartialEq, Eq, Structural)]
pub enum DiagnosticSeverity {
    Error,
}

/// A message about a region of the document.
#[derive(Clone, Debug)]
pub struct Diagnostic {
    pub range: Range,
    pub severity: Option<DiagnosticSeverity>,
    /// The phase that found the problem.
    pub source: Option<String>,
    pub message: String,
}

pub struct DiagnosticView {
    pub range: Range,
    pub severity: Option<DiagnosticSeverity>,
    pub source: Option<Seq<char>>,
    pub message: Seq<char>,
}

impl DeepView for Diagnostic {
    type V = DiagnosticView;

    open spec fn deep_view(&self) -> DiagnosticView {
        DiagnosticView {
            range: self.range,
            severity: self.severity,
            source: self.source.deep_view(),
            message: self.message@,
        }
    }
}

/// An error of the lexer: what is wrong, and where.
#[derive(Clone, Debug)]
pub struct LexicalError {
    pub err: String,
    pub span: Span,
}

pub struct LexicalErrorView {
    pub err: Seq<char>,
    pub span: Span,
}

impl DeepView for LexicalError {
    type V = LexicalErrorView;

    open spec fn deep_view(&self) -> LexicalErrorView {
        LexicalErrorView { err: self.err@, span: self.span }
    }
}

impl LexicalErrorView {
    /// The text shown for the error: what is wrong, followed by the span
    /// unless the error has none.
    pub open spec fn message(self) -> Seq<char> {
        if self.span.start == 0 && self.span.end == 0 {
            self.err
        } else {
            self.err + " at "@ + decimal_text(self.span.start as nat) + ".."@ + decimal_text(
                self.span.end as nat,
            )
        }
    }
}

impl LexicalError {
    pub fn message(&self) -> (message: String)
        ensures
            message@ == self.deep_view().message(),
    {
        let mut buf = chars_of(self.err.as_str());
        if !(self.span.start == 0 && self.span.end == 0) {
            push_str_chars(&mut buf, " at ");
            push_decimal_u64(&mut buf, self.span.start as u64);
            push_str_chars(&mut buf, "..");
            push_decimal_u64(&mut buf, self.span.end as u64);
            assert(buf@ =~= self.deep_view().message());
        }
        string_of(&buf)
    }

    /// A copy of the error.
    pub fn clone_error(&self) -> (copy: LexicalError)
        ensures
            copy.deep_view() == self.deep_view(),
    {
        LexicalError { err: self.err.clone(), span: self.span }
    }
}

/// What the parser reports of an error.
#[derive(Debug)]
pub enum ParseErrorKind {
    InvalidToken { location: usize },
    UnrecognizedEof { location: usize, expected: Vec<String> },
    UnrecognizedToken { start: usize, end: usize, expected: Vec<String> },
    ExtraToken { start: usize, end: usize },
    /// An error of the lexer that the parser passes on.
    User { error: LexicalError },
}

/// The range at the start of the document, for errors without a position.
pub open spec fn default_range() -> Range {
    Range { start: Position { line: 0, character: 0 }, end: Position { line: 0, character: 0 } }
}

pub fn empty_range() -> (range: Range)
    ensures
        range == default_range(),
{
    Range { start: Position { line: 0, character: 0 }, end: Position { line: 0, character: 0 } }
}

/// The range of the single character at `offset`. At the end of the text
/// the range ends one column after its start, or at the last column that a
/// position can name; past the end it is the default range.
pub open spec fn single_char_range(text: Seq<char>, offset: usize) -> Range {
    if offset > text.len() {
        default_range()
    } else {
        let start = position_of(text, offset as int);
        Range {
            start,
            end: if offset < usize::MAX && offset + 1 <= text.len() {
                position_of(text, offset + 1)
            } else {
                Position {
                    line: start.line,
                    character: if start.character < u32::MAX {
                        (start.character + 1) as u32
                    } else {
                        u32::MAX
                    },
                }
            },
        }
    }
}

pub fn range_single_char(offset: usize, rope: &Rope) -> (range: Range)
    ensures
        range == single_char_range(rope_text(*rope), offset),
{
    match offset_to_position(offset, rope) {
        Some(start) => {
            let next = if offset < usize::MAX {
                offset_to_position(offset + 1, rope)
            } else {
                None
            };
            let end = match next {
                Some(end) => end,
                None => Position {
                    line: start.line,
                    character: if start.character < u32::MAX {
                        start.character + 1
                    } else {
                        u32::MAX
                    },
                },
            };
            Range { start, end }
        },
        None => empty_range(),
    }
}

/// The range between two offsets; the default range where one of them lies
/// past the end of the text.
pub open spec fn offsets_range(text: Seq<char>, start: usize, end: usize) -> Range {
    if start <= text.len() && end <= text.len() {
        Range { start: position_of(text, start as int), end: position_of(text, end as int) }
    } else {
        default_range()
    }
}

pub fn range_offsets(start_offset: usize, end_offset: usize, rope: &Rope) -> (range: Range)
    ensures
        range == offsets_range(rope_text(*rope), start_offset, end_offset),
{
    match (offset_to_position(start_offset, rope), offset_to_position(end_offset, rope)) {
        (Some(start), Some(end)) => Range { start, end },
        _ => empty_range(),
    }
}

pub open spec fn is_digits(s: Seq<char>) -> bool {
    s.len() > 0 && forall|i: int| 0 <= i < s.len() ==> '0' <= (#[trigger] s[i]) <= '9'
}

fn all_digits(s: &Vec<char>) -> (digits: bool)
    ensures
        digits == is_digits(s@),
{
    if s.len() == 0 {
        return false;
    }
    let mut i: usize = 0;
    while i < s.len()
        invariant
            i <= s.len(),
            forall|k: int| 0 <= k < i ==> '0' <= (#[trigger] s@[k]) <= '9',
        decreases s.len() - i,
    {
        if !(s[i] >= '0' && s[i] <= '9') {
            return false;
        }
        i += 1;
    }
    true
}

/// Whether `suffix` is a span as the parser prints it: two runs of digits
/// with `..` between them.
pub open spec fn is_span_suffix(suffix: Seq<char>) -> bool {
    match first_match(suffix, ".."@) {
        Some(dots) => is_digits(suffix.subrange(0, dots)) && is_digits(
            suffix.subrange(dots + 2, suffix.len() as int),
        ),
        None => false,
    }
}

/// A message without the span that the parser prints at its end: where the
/// text after the last ` at ` is a span, the message ends before that
/// ` at `, without trailing whitespace.
pub open spec fn cleaned_message(message: Seq<char>) -> Seq<char> {
    match last_match(message, " at "@) {
        Some(idx) => if is_span_suffix(trim_seq(message.subrange(idx + 4, message.len() as int))) {
            trim_end_seq(message.subrange(0, idx))
        } else {
            message
        },
        None => message,
    }
}

pub fn clean_diagnostic_chars(message: Vec<char>) -> (cleaned: Vec<char>)
    ensures
        cleaned@ == cleaned_message(message@),
{
    let marker = chars_of(" at ");
    proof {
        reveal_strlit(" at ");
        reveal_strlit("..");
    }
    let idx = match find_last(&message, &marker) {
        Some(idx) => idx,
        None => {
            return message;
        },
    };
    assert(matches_at(message@, marker@, idx as int));
    let message_len = message.len();
    let tail = subvec(&message, idx + 4, message_len);
    let suffix = trim(&tail);
    let dots = chars_of("..");
    let found = match find_first(&suffix, &dots) {
        Some(found) => found,
        None => {
            return message;
        },
    };
    assert(matches_at(suffix@, dots@, found as int));
    let start = subvec(&suffix, 0, found);
    let suffix_len = suffix.len();
    let end = subvec(&suffix, found + 2, suffix_len);
    if all_digits(&start) && all_digits(&end) {
        let head = subvec(&message, 0, idx);
        trim_end(&head)
    } else {
        message
    }
}

pub fn clean_diagnostic_message(message: String) -> (cleaned: String)
    ensures
        cleaned@ == cleaned_message(message@),
{
    let chars = chars_of(message.as_str());
    let cleaned = clean_diagnostic_chars(chars);
    string_of(&cleaned)
}

/// An error-level diagnostic with a cleaned message.
pub open spec fn error_diagnostic(range: Range, source: Seq<char>, message: Seq<char>) -> DiagnosticView {
    DiagnosticView {
        range,
        severity: Some(DiagnosticSeverity::Error),
        source: Some(source),
        message: cleaned_message(message),
    }
}

fn build_error(range: Range, source: &str, message: Vec<char>) -> (diagnostic: Diagnostic)
    ensures
        diagnostic.deep_view() == error_diagnostic(range, source@, message@),
{
    let cleaned = clean_diagnostic_chars(message);
    Diagnostic {
        range,
        severity: Some(DiagnosticSeverity::Error),
        source: Some(source.to_owned()),
        message: string_of(&cleaned),
    }
}

/// A list of what the parser expected, separated by commas.
pub open spec fn expected_list(expected: Seq<Seq<char>>) -> Seq<char> {
    joined_upto(expected, ", "@, expected.len())
}

fn join_expected(expected: &Vec<String>) -> (text: Vec<char>)
    ensures
        text@ == expected_list(expected.deep_view()),
{
    let mut buf: Vec<char> = Vec::new();
    let mut i: usize = 0;
    while i < expected.len()
        invariant
            i <= expected.len(),
            buf@ == joined_upto(expected.deep_view(), ", "@, i as nat),
        decreases expected.len() - i,
    {
        assert(expected.deep_view()[i as int] == expected@[i as int]@);
        if i > 0 {
            push_str_chars(&mut buf, ", ");
        }
        push_str_chars(&mut buf, expected[i].as_str());
        i += 1;
        assert(buf@ =~= joined_upto(expected.deep_view(), ", "@, i as nat));
    }
    buf
}

/// The diagnostic for a parse error: its kind decides the message and how
/// the range is found.
pub open spec fn parse_error_diagnostic(err: ParseErrorKind, text: Seq<char>) -> DiagnosticView {
    match err {
        ParseErrorKind::InvalidToken { location } => error_diagnostic(
            single_char_range(text, location),
            "parser"@,
            "invalid token"@,
        ),
        ParseErrorKind::UnrecognizedEof { location, expected } => error_diagnostic(
            single_char_range(text, location),
            "parser"@,
            "unexpected end of file, expected one of: "@ + expected_list(expected.deep_view()),
        ),
        ParseErrorKind::UnrecognizedToken { start, end, expected } => error_diagnostic(
            offsets_range(text, start, end),
            "parser"@,
            "unexpected token, expected one of: "@ + expected_list(expected.deep_view()),
        ),
        ParseErrorKind::ExtraToken { start, end } => error_diagnostic(
            offsets_range(text, start, end),
            "parser"@,
            "extra token"@,
        ),
        ParseErrorKind::User { error } => error_diagnostic(
            default_range(),
            "parser"@,
            error.deep_view().message(),
        ),
    }
}

/// The diagnostic for an error of the parser.
pub fn parse_error_to_diagnostic(err: &ParseErrorKind, rope: &Rope) -> (diagnostic: Diagnostic)
    ensures
        diagnostic.deep_view() == parse_error_diagnostic(*err, rope_text(*rope)),
{
    match err {
        ParseErrorKind::InvalidToken { location } => build_error(
            range_single_char(*location, rope),
            "parser",
            chars_of("invalid token"),
        ),
        ParseErrorKind::UnrecognizedEof { location, expected } => {
            let mut message = chars_of("unexpected end of file, expected one of: ");
            let list = join_expected(expected);
            push_chars(&mut message, &list);
            build_error(range_single_char(*location, rope), "parser", message)
        },
        ParseErrorKind::UnrecognizedToken { start, end, expected } => {
            let mut message = chars_of("unexpected token, expected one of: ");
            let list = join_expected(expected);
            push_chars(&mut message, &list);
            build_error(range_offsets(*start, *end, rope), "parser", message)
        },
        ParseErrorKind::ExtraToken { start, end } => build_error(
            range_offsets(*start, *end, rope),
            "parser",
            chars_of("extra token"),
        ),
        ParseErrorKind::User { error } => {
            let message = error.message();
            build_error(empty_range(), "parser", chars_of(message.as_str()))
        },
    }
}

/// The diagnostic for a lexical error: at its span, or at the default range
/// where its span lies past the text.
pub fn lexer_error_to_diagnostic(start: usize, end: usize, message: &str, rope: &Rope) -> (diagnostic:
    Diagnostic)
    ensures
        diagnostic.deep_view() == error_diagnostic(
            offsets_range(rope_text(*rope), start, end),
            "lexer"@,
            message@,
        ),
{
    build_error(range_offsets(start, end, rope), "lexer", chars_of(message))
}

/// The diagnostic for the error that stopped the analysis, with the
/// semantic phase as its source. An error whose span lies in the text is
/// shown there, without a severity; one whose span does not is shown at the
/// default range as an error.
pub open spec fn semantic_error_diagnostic(err: SemanticErrorView, text: Seq<char>) -> DiagnosticView {
    if err.span().start <= text.len() && err.span().end <= text.len() {
        DiagnosticView {
            range: Range {
                start: position_of(text, err.span().start as int),
                end: position_of(text, err.span().end as int),
            },
            severity: None,
            source: Some("semantic"@),
            message: cleaned_message(err.message()),
        }
    } else {
        error_diagnostic(default_range(), "semantic"@, err.message())
    }
}

pub fn semantic_error_to_diagnostic(err: &SemanticError, rope: &Rope) -> (diagnostic: Diagnostic)
    ensures
        diagnostic.deep_view() == semantic_error_diagnostic(err.deep_view(), rope_text(*rope)),
{
    let span = err.span();
    let message = err.message();
    match (offset_to_position(span.start, rope), offset_to_position(span.end, rope)) {
        (Some(start), Some(end)) => Diagnostic {
            range: Range { start, end },
            severity: None,
            source: Some("semantic".to_owned()),
            message: clean_diagnostic_message(message),
        },
        _ => build_error(empty_range(), "semantic", chars_of(message.as_str())),
    }
}

/// A label of a binary decoding error: a position in the hexadecimal text
/// of the message, and what is wrong there.
#[derive(Debug)]
pub struct BinreadLabel {
    pub pos: Option<usize>,
    pub message: Option<String>,
}

/// The text of `s` before the first occurrence of `pattern`, or all of `s`.
pub open spec fn before_match(s: Seq<char>, pattern: Seq<char>) -> Seq<char> {
    match first_match(s, pattern) {
        Some(i) => s.subrange(0, i),
        None => s,
    }
}

/// The text of `s` before the first `c`, or all of `s`.
pub open spec fn before_char(s: Seq<char>, c: char) -> Seq<char> {
    match first_index_of(s, c) {
        Some(i) => s.subrange(0, i),
        None => s,
    }
}

/// The text between the first occurrence of `pattern` in `s` and the next
/// one after it; none where `pattern` does not occur.
pub open spec fn piece_after(s: Seq<char>, pattern: Seq<char>) -> Option<Seq<char>> {
    match first_match(s, pattern) {
        Some(i) => Some(before_match(s.subrange(i + pattern.len(), s.len() as int), pattern)),
        None => None,
    }
}

/// The number that a run of decimal digits spells, read from the left; none
/// where a character is no digit.
pub open spec fn digits_value(s: Seq<char>) -> Option<nat>
    decreases s.len(),
{
    if s.len() == 0 {
        Some(0)
    } else {
        match digits_value(s.drop_last()) {
            Some(v) => if '0' <= s.last() <= '9' {
                Some(v * 10 + ((s.last() as u32 - '0' as u32) as nat))
            } else {
                None
            },
            None => None,
        }
    }
}

/// The digits of a numeral: what follows its plus sign, where it has one.
pub open spec fn numeral_digits(s: Seq<char>) -> Seq<char> {
    if s.len() > 0 && s[0] == '+' {
        s.subrange(1, s.len() as int)
    } else {
        s
    }
}

/// What a numeral reads as: an optional plus sign and at least one decimal
/// digit, of a value that fits the machine's word.
pub open spec fn numeral_value(s: Seq<char>) -> Option<usize> {
    match digits_value(numeral_digits(s)) {
        Some(v) => if numeral_digits(s).len() > 0 && v <= usize::MAX {
            Some(v as usize)
        } else {
            None
        },
        None => None,
    }
}

/// The position that the printed form of a label names: the numeral between
/// `pos: ` and the next comma.
pub open spec fn label_position(printed: Seq<char>) -> Option<usize> {
    match piece_after(printed, "pos: "@) {
        Some(piece) => numeral_value(trim_seq(before_char(piece, ','))),
        None => None,
    }
}

/// The message that the printed form of a label quotes: what stands between
/// `message: "` and the next double quote.
pub open spec fn label_message(printed: Seq<char>) -> Option<Seq<char>> {
    match piece_after(printed, "message: \""@) {
        Some(piece) => Some(before_char(piece, '"')),
        None => None,
    }
}

/// A longer run of digits spells no smaller a number, and no number where a
/// shorter one spells none.
pub proof fn lemma_digits_prefix(s: Seq<char>, n: int)
    requires
        0 <= n <= s.len(),
    ensures
        digits_value(s.take(n)) is None ==> digits_value(s) is None,
        digits_value(s) matches Some(w) ==> digits_value(s.take(n)) is Some && digits_value(
            s.take(n),
        )->0 <= w,
    decreases s.len() - n,
{
    if n == s.len() {
        assert(s.take(n) =~= s);
    } else {
        lemma_digits_prefix(s.drop_last(), n);
        assert(s.drop_last().take(n) =~= s.take(n));
    }
}

fn piece_after_first(s: &Vec<char>, pattern: &Vec<char>) -> (piece: Option<Vec<char>>)
    ensures
        piece is Some <==> piece_after(s@, pattern@) is Some,
        piece matches Some(p) ==> piece_after(s@, pattern@) == Some(p@),
{
    match find_first(s, pattern) {
        Some(i) => {
            let end = s.len();
            let rest = subvec(s, i + pattern.len(), end);
            match find_first(&rest, pattern) {
                Some(k) => Some(subvec(&rest, 0, k)),
                None => Some(rest),
            }
        },
        None => None,
    }
}

fn cut_before_char(s: &Vec<char>, c: char) -> (cut: Vec<char>)
    ensures
        cut@ == before_char(s@, c),
{
    match find_char(s, c) {
        Some(i) => subvec(s, 0, i),
        None => subvec(s, 0, s.len()),
    }
}

/// Read a numeral.
pub fn parse_numeral(s: &Vec<char>) -> (value: Option<usize>)
    ensures
        value == numeral_value(s@),
{
    let len = s.len();
    let start: usize = if len > 0 && s[0] == '+' {
        1
    } else {
        0
    };
    let ghost digits = numeral_digits(s@);
    assert(digits =~= s@.subrange(start as int, len as int));
    if start == len {
        return None;
    }
    let mut acc: usize = 0;
    let mut i: usize = start;
    assert(digits.take(0) =~= Seq::<char>::empty());
    while i < len
        invariant
            start <= i <= len,
            len == s.len(),
            digits == s@.subrange(start as int, len as int),
            digits == numeral_digits(s@),
            digits_value(digits.take(i - start)) == Some(acc as nat),
        decreases len - i,
    {
        let c = s[i];
        proof {
            let longer = digits.take(i - start + 1);
            assert(longer.drop_last() =~= digits.take(i - start));
            assert(longer.last() == c);
            assert(digits_value(longer) == if '0' <= c <= '9' {
                Some((acc * 10 + (c as u32 - '0' as u32)) as nat)
            } else {
                None
            });
            lemma_digits_prefix(digits, i - start + 1);
        }
        if c < '0' || c > '9' {
            return None;
        }
        let d: usize = (c as u32 - '0' as u32) as usize;
        let next = match acc.checked_mul(10) {
            Some(tens) => tens.checked_add(d),
            None => None,
        };
        match next {
            Some(v) => {
                acc = v;
            },
            None => {
                return None;
            },
        }
        i += 1;
    }
    assert(digits.take(len - start) =~= digits);
    Some(acc)
}

impl BinreadLabel {
    /// Read a label from its printed form.
    pub fn from_printed(printed: &str) -> (label: BinreadLabel)
        ensures
            label.pos == label_position(printed@),
            label.message is Some <==> label_message(printed@) is Some,
            label.message matches Some(m) ==> label_message(printed@) == Some(m@),
    {
        let chars = chars_of(printed);
        let pos = match piece_after_first(&chars, &chars_of("pos: ")) {
            Some(piece) => parse_numeral(&trim(&cut_before_char(&piece, ','))),
            None => None,
        };
        let message = match piece_after_first(&chars, &chars_of("message: \"")) {
            Some(piece) => Some(string_of(&cut_before_char(&piece, '"'))),
            None => None,
        };
        BinreadLabel { pos, message }
    }
}

/// An error of the decoding library: its message, its message together
/// with those of its causes, and its labels where it is a binary decoding
/// error.
#[derive(Debug)]
pub struct CandidCoreError {
    pub message: String,
    pub chain: String,
    pub labels: Option<Vec<BinreadLabel>>,
}

/// The messages of an error and of the first `n - 1` of its causes, each
/// cause on a line of its own with its depth.
pub open spec fn chain_upto(messages: Seq<Seq<char>>, n: nat) -> Seq<char>
    decreases n,
{
    if n == 0 || n > messages.len() {
        Seq::empty()
    } else if n == 1 {
        messages[0]
    } else {
        chain_upto(messages, (n - 1) as nat) + "\nCaused by ("@ + decimal_text((n - 1) as nat)
            + "): "@ + messages[n - 1]
    }
}

/// The message of an error together with those of its causes.
pub open spec fn chain_text(messages: Seq<Seq<char>>) -> Seq<char> {
    chain_upto(messages, messages.len())
}

/// Join the message of an error, which comes first, and those of its causes.
pub fn format_error_chain(messages: &Vec<String>) -> (chain: String)
    ensures
        chain@ == chain_text(messages.deep_view()),
{
    let mut buf: Vec<char> = Vec::new();
    let count = messages.len();
    let mut i: usize = 0;
    while i < count
        invariant
            i <= count,
            count == messages.len(),
            buf@ == chain_upto(messages.deep_view(), i as nat),
        decreases count - i,
    {
        if i > 0 {
            push_str_chars(&mut buf, "\nCaused by (");
            push_decimal_u64(&mut buf, i as u64);
            push_str_chars(&mut buf, "): ");
        }
        push_str_chars(&mut buf, messages[i].as_str());
        i += 1;
        assert(buf@ =~= chain_upto(messages.deep_view(), i as nat));
    }
    string_of(&buf)
}

/// An error of the parsing front end.
#[derive(Debug)]
pub enum ParserError {
    Parse(ParseErrorKind),
    /// Any other failure, as its message together with those of its causes.
    Custom { chain: String },
    Candid(CandidCoreError),
}

/// An error of the parsing front end or of its lexer.
#[derive(Debug)]
pub enum CandidError {
    Parser(ParserError),
    Lexer(LexicalError),
}

/// The messages of the first `n` labels after the first one, each on a line
/// of its own.
pub open spec fn label_details_upto(labels: Seq<BinreadLabel>, n: nat) -> Seq<char>
    decreases n,
{
    if n <= 1 || n > labels.len() {
        Seq::empty()
    } else {
        label_details_upto(labels, (n - 1) as nat) + (match labels[n - 1].message {
            Some(message) => "\n  - "@ + message@,
            None => Seq::empty(),
        })
    }
}

/// The message of a binary decoding error with the messages of its further labels.
pub open spec fn message_with_details(message: Seq<char>, labels: Seq<BinreadLabel>) -> Seq<char> {
    if label_details_upto(labels, labels.len()).len() > 0 {
        message + "\nAdditional details:"@ + label_details_upto(labels, labels.len())
    } else {
        message
    }
}

/// The range of a label: the character at half its position, one column wide.
pub open spec fn label_range(label: BinreadLabel, text: Seq<char>) -> Range {
    match label.pos {
        Some(pos) => if pos / 2 <= text.len() {
            let start = position_of(text, (pos / 2) as int);
            Range {
                start,
                end: Position {
                    line: start.line,
                    character: if start.character < u32::MAX {
                        (start.character + 1) as u32
                    } else {
                        u32::MAX
                    },
                },
            }
        } else {
            default_range()
        },
        None => default_range(),
    }
}

/// The diagnostic for an error of the decoding library. A binary decoding
/// error is shown at its first label; any other error at the default range.
pub open spec fn candid_error_diagnostic(err: CandidCoreError, text: Seq<char>) -> DiagnosticView {
    match err.labels {
        Some(labels) => if labels@.len() > 0 {
            error_diagnostic(
                label_range(labels@[0], text),
                "candid"@,
                message_with_details(err.message@, labels@),
            )
        } else {
            error_diagnostic(default_range(), "candid"@, err.message@)
        },
        None => error_diagnostic(default_range(), "candid"@, err.chain@),
    }
}

fn binread_label_range(label: &BinreadLabel, rope: &Rope) -> (range: Range)
    ensures
        range == label_range(*label, rope_text(*rope)),
{
    match label.pos {
        Some(pos) => match offset_to_position(pos / 2, rope) {
            Some(start) => Range {
                start,
                end: Position {
                    line: start.line,
                    character: if start.character < u32::MAX {
                        start.character + 1
                    } else {
                        u32::MAX
                    },
                },
            },
            None => empty_range(),
        },
        None => empty_range(),
    }
}

pub fn candid_error_to_diagnostic(err: &CandidCoreError, rope: &Rope) -> (diagnostic: Diagnostic)
    ensures
        diagnostic.deep_view() == candid_error_diagnostic(*err, rope_text(*rope)),
{
    match &err.labels {
        Some(labels) => {
            if labels.len() > 0 {
                let range = binread_label_range(&labels[0], rope);
                let mut details: Vec<char> = Vec::new();
                let mut i: usize = 1;
                while i < labels.len()
                    invariant
                        1 <= i <= labels.len(),
                        details@ == label_details_upto(labels@, i as nat),
                    decreases labels.len() - i,
                {
                    match &labels[i].message {
                        Some(extra) => {
                            push_str_chars(&mut details, "\n  - ");
                            push_str_chars(&mut details, extra.as_str());
                        },
                        None => {},
                    }
                    i += 1;
                    assert(details@ =~= label_details_upto(labels@, i as nat));
                }
                let mut message = chars_of(err.message.as_str());
                if details.len() > 0 {
                    push_str_chars(&mut message, "\nAdditional details:");
                    push_chars(&mut message, &details);
                }
                build_error(range, "candid", message)
            } else {
                build_error(empty_range(), "candid", chars_of(err.message.as_str()))
            }
        },
        None => build_error(empty_range(), "candid", chars_of(err.chain.as_str())),
    }
}

/// A diagnostic with its message cleaned once more.
pub open spec fn recleaned(diagnostic: DiagnosticView) -> DiagnosticView {
    DiagnosticView { message: cleaned_message(diagnostic.message), ..diagnostic }
}

/// The diagnostic for an error of parsing. Every error has one: an error
/// without a place in the text is shown at the default range.
pub open spec fn candid_diagnostic(error: CandidError, text: Seq<char>) -> DiagnosticView {
    match error {
        CandidError::Parser(ParserError::Parse(err)) => recleaned(parse_error_diagnostic(err, text)),
        CandidError::Parser(ParserError::Custom { chain }) => recleaned(
            error_diagnostic(
                default_range(),
                "parser"@,
                "custom parser error: "@ + cleaned_message(chain@),
            ),
        ),
        CandidError::Parser(ParserError::Candid(err)) => recleaned(candid_error_diagnostic(err, text)),
        CandidError::Lexer(err) => error_diagnostic(
            offsets_range(text, err.span.start, err.span.end),
            "lexer"@,
            err.deep_view().message(),
        ),
    }
}

fn reclean(diagnostic: Diagnostic) -> (cleaned: Diagnostic)
    ensures
        cleaned.deep_view() == recleaned(diagnostic.deep_view()),
{
    Diagnostic {
        range: diagnostic.range,
        severity: diagnostic.severity,
        source: diagnostic.source,
        message: clean_diagnostic_message(diagnostic.message),
    }
}

pub fn candid_error_diagnostic_for(error: &CandidError, rope: &Rope) -> (diagnostic: Diagnostic)
    ensures
        diagnostic.deep_view() == candid_diagnostic(*error, rope_text(*rope)),
{
    match error {
        CandidError::Parser(ParserError::Parse(err)) => reclean(parse_error_to_diagnostic(err, rope)),
        CandidError::Parser(ParserError::Custom { chain }) => {
            let mut message = chars_of("custom parser error: ");
            let cleaned = clean_diagnostic_chars(chars_of(chain.as_str()));
            push_chars(&mut message, &cleaned);
            reclean(build_error(empty_range(), "parser", message))
        },
        CandidError::Parser(ParserError::Candid(err)) => reclean(candid_error_to_diagnostic(err, rope)),
        CandidError::Lexer(err) => {
            let message = err.message();
            lexer_error_to_diagnostic(err.span.start, err.span.end, message.as_str(), rope)
        },
    }
}

/// The diagnostics of parse errors: one for each, in order.
pub open spec fn parse_diagnostics(errors: Seq<CandidError>, text: Seq<char>) -> Seq<DiagnosticView> {
    Seq::new(errors.len(), |i: int| candid_diagnostic(errors[i], text))
}

/// The diagnostics of a document: those of its parse errors, then that of
/// the error that stopped its analysis.
pub open spec fn document_diagnostics(
    errors: Seq<CandidError>,
    semantic_error: Option<SemanticErrorView>,
    text: Seq<char>,
) -> Seq<DiagnosticView> {
    let parsed = parse_diagnostics(errors, text);
    match semantic_error {
        Some(err) => parsed.push(semantic_error_diagnostic(err, text)),
        None => parsed,
    }
}

/// The diagnostics of a document. No error is dropped: there is one
/// diagnostic for each parse error and one for the error that stopped the
/// analysis.
pub fn collect_diagnostics(parse_errors: &Vec<CandidError>, semantic_error: Option<&SemanticError>, rope: &Rope) -> (diagnostics:
    Vec<Diagnostic>)
    ensures
        diagnostics.deep_view() == document_diagnostics(
            parse_errors@,
            match semantic_error {
                Some(err) => Some(err.deep_view()),
                None => None,
            },
            rope_text(*rope),
        ),
        diagnostics@.len() == parse_errors@.len() + (if semantic_error is Some {
            1int
        } else {
            0int
        }),
{
    let mut diagnostics: Vec<Diagnostic> = Vec::new();
    assert(diagnostics.deep_view() =~= parse_diagnostics(parse_errors@.take(0), rope_text(*rope)));
    let mut i: usize = 0;
    while i < parse_errors.len()
        invariant
            i <= parse_errors.len(),
            diagnostics.deep_view() == parse_diagnostics(parse_errors@.take(i as int), rope_text(*rope)),
        decreases parse_errors.len() - i,
    {
        let ghost before = diagnostics;
        let diagnostic = candid_error_diagnostic_for(&parse_errors[i], rope);
        diagnostics.push(diagnostic);
        i += 1;
        assert(diagnostics.deep_view() =~= before.deep_view().push(diagnostic.deep_view()));
        assert(diagnostics.deep_view() =~= parse_diagnostics(
            parse_errors@.take(i as int),
            rope_text(*rope),
        ));
    }
    assert(parse_errors@.take(parse_errors@.len() as int) =~= parse_errors@);
    match semantic_error {
        Some(err) => {
            let ghost before = diagnostics;
            let diagnostic = semantic_error_to_diagnostic(err, rope);
            diagnostics.push(diagnostic);
            assert(diagnostics.deep_view() =~= before.deep_view().push(diagnostic.deep_view()));
        },
        None => {},
    }
    diagnostics
}

} // verus!
