//! What the parsing front end hands over for a document.
use crate::diagnostics::{CandidError, LexicalError, ParseErrorKind, ParserError};
use crate::syntax::IDLProg;
use crate::text::str_eq;
use vstd::prelude::*;

verus! {

/// A lexical token as a region of the source and an index into the legend
/// of token types.
#[derive(Clone, Copy, Debug, PartialEq, Eq, Structural)]
pub struct ImCompleteSemanticToken {
    pub start: usize,
    pub length: usize,
    pub token_type: usize,
}

/// The token that covers `start..end`; a token that ends before it starts
/// has no length.
pub fn semantic_token(start: usize, end: usize, token_type: usize) -> (token: ImCompleteSemanticToken)
    ensures
        token.start == start,
        token.token_type == token_type,
        token.length == (if end >= start {
            end - start
        } else {
            0
        }),
{
    ImCompleteSemanticToken {
        start,
        length: if end >= start {
            end - start
        } else {
            0
        },
        token_type,
    }
}

/// The syntax tree of a document, where there is one, with every error of
/// lexing and parsing and the tokens seen.
#[derive(Debug)]
pub struct ParserResult {
    pub ast: Option<IDLProg>,
    pub parse_errors: Vec<CandidError>,
    pub semantic_tokens: Vec<ImCompleteSemanticToken>,
}

pub open spec fn same_lexical_error(a: LexicalError, b: LexicalError) -> bool {
    a.err@ == b.err@ && a.span == b.span
}

/// Whether the lexer recorded the error itself.
pub open spec fn is_recorded(lexer_errors: Seq<LexicalError>, error: LexicalError) -> bool {
    exists|i: int| 0 <= i < lexer_errors.len() && same_lexical_error(#[trigger] lexer_errors[i], error)
}

/// Whether an error of the parser only repeats one that the lexer recorded.
pub open spec fn repeats_lexer_error(lexer_errors: Seq<LexicalError>, error: ParseErrorKind) -> bool {
    match error {
        ParseErrorKind::User { error } => is_recorded(lexer_errors, error),
        _ => false,
    }
}

pub open spec fn lexer_entries(lexer_errors: Seq<LexicalError>) -> Seq<CandidError> {
    Seq::new(lexer_errors.len(), |i: int| CandidError::Lexer(lexer_errors[i]))
}

/// The first `n` errors of the parser without those that repeat an error
/// of the lexer.
pub open spec fn parser_entries_upto(lexer_errors: Seq<LexicalError>, parser_errors: Seq<ParseErrorKind>, n: nat) -> Seq<
    CandidError,
>
    decreases n,
{
    if n == 0 || n > parser_errors.len() {
        Seq::empty()
    } else {
        let before = parser_entries_upto(lexer_errors, parser_errors, (n - 1) as nat);
        if repeats_lexer_error(lexer_errors, parser_errors[n - 1]) {
            before
        } else {
            before.push(CandidError::Parser(ParserError::Parse(parser_errors[n - 1])))
        }
    }
}

/// Every error of a document once: those of the lexer, then those of the
/// parser that the lexer did not record.
pub open spec fn merged_errors(lexer_errors: Seq<LexicalError>, parser_errors: Seq<ParseErrorKind>) -> Seq<
    CandidError,
> {
    lexer_entries(lexer_errors) + parser_entries_upto(lexer_errors, parser_errors, parser_errors.len())
}

fn recorded(lexer_errors: &Vec<LexicalError>, error: &LexicalError) -> (found: bool)
    ensures
        found == is_recorded(lexer_errors@, *error),
{
    let mut i: usize = 0;
    while i < lexer_errors.len()
        invariant
            i <= lexer_errors.len(),
            forall|k: int| 0 <= k < i ==> !same_lexical_error(#[trigger] lexer_errors@[k], *error),
        decreases lexer_errors.len() - i,
    {
        if str_eq(lexer_errors[i].err.as_str(), error.err.as_str()) && lexer_errors[i].span.start
            == error.span.start && lexer_errors[i].span.end == error.span.end {
            return true;
        }
        i += 1;
    }
    false
}

/// Put together what the front end found for a document.
pub fn parser_result(
    ast: Option<IDLProg>,
    lexer_errors: Vec<LexicalError>,
    parser_errors: Vec<ParseErrorKind>,
    semantic_tokens: Vec<ImCompleteSemanticToken>,
) -> (result: ParserResult)
    ensures
        result.ast == ast,
        result.semantic_tokens == semantic_tokens,
        result.parse_errors@ == merged_errors(lexer_errors@, parser_errors@),
{
    let mut kept: Vec<ParseErrorKind> = Vec::new();
    let ghost all = parser_errors@;
    for err in it: parser_errors
        invariant
            it.seq() == all,
            lexer_entries(lexer_errors@) + parser_entries_upto(lexer_errors@, all, it.index() as nat)
                == lexer_entries(lexer_errors@) + Seq::new(
                kept@.len(),
                |i: int| CandidError::Parser(ParserError::Parse(kept@[i])),
            ),
    {
        let repeats = match &err {
            ParseErrorKind::User { error } => recorded(&lexer_errors, error),
            _ => false,
        };
        let ghost before = kept@;
        if !repeats {
            kept.push(err);
            assert(Seq::new(kept@.len(), |i: int| CandidError::Parser(ParserError::Parse(kept@[i])))
                =~= Seq::new(
                before.len(),
                |i: int| CandidError::Parser(ParserError::Parse(before[i])),
            ).push(CandidError::Parser(ParserError::Parse(err))));
        }
        assert(parser_entries_upto(lexer_errors@, all, (it.index() + 1) as nat) =~= Seq::new(
            kept@.len(),
            |i: int| CandidError::Parser(ParserError::Parse(kept@[i])),
        )) by {
            assert(parser_entries_upto(lexer_errors@, all, it.index() as nat) =~= Seq::new(
                before.len(),
                |i: int| CandidError::Parser(ParserError::Parse(before[i])),
            )) by {
                let a = parser_entries_upto(lexer_errors@, all, it.index() as nat);
                let b = Seq::new(before.len(), |i: int| CandidError::Parser(ParserError::Parse(before[i])));
                let l = lexer_entries(lexer_errors@);
                assert((l + a).len() == (l + b).len());
                assert forall|k: int| 0 <= k < a.len() implies a[k] == b[k] by {
                    assert((l + a)[l.len() + k] == a[k]);
                    assert((l + b)[l.len() + k] == b[k]);
                }
            }
        }
    }
    let ghost entries = lexer_entries(lexer_errors@);
    let ghost recorded_errors = lexer_errors@;
    let mut parse_errors: Vec<CandidError> = Vec::new();
    for err in it: lexer_errors
        invariant
            it.seq() == recorded_errors,
            parse_errors@ == entries.take(it.index() as int),
            entries == lexer_entries(recorded_errors),
    {
        parse_errors.push(CandidError::Lexer(err));
        assert(parse_errors@ =~= entries.take(it.index() + 1));
    }
    let ghost lexed = parse_errors@;
    for err in it: kept
        invariant
            parse_errors@ == lexed + Seq::new(
                it.index() as nat,
                |i: int| CandidError::Parser(ParserError::Parse(it.seq()[i])),
            ),
    {
        parse_errors.push(CandidError::Parser(ParserError::Parse(err)));
        assert(parse_errors@ =~= lexed + Seq::new(
            (it.index() + 1) as nat,
            |i: int| CandidError::Parser(ParserError::Parse(it.seq()[i])),
        ));
    }
    ParserResult { ast, parse_errors, semantic_tokens }
}

} // verus!
