//! The legend of semantic tokens: the classes a client colours tokens by,
//! and the class of each kind of lexical token.
use vstd::prelude::*;

verus! {

/// The kinds of token that the lexer tells apart.
#[derive(Clone, Copy, Debug, PartialEq, Eq, Structural)]
pub enum TokenKind {
    LineComment,
    StartComment,
    Equals,
    LParen,
    RParen,
    LBrace,
    RBrace,
    Semi,
    Comma,
    Dot,
    Colon,
    Arrow,
    Null,
    Vec,
    Record,
    Variant,
    Func,
    Service,
    Oneway,
    Query,
    CompositeQuery,
    Blob,
    Type,
    Import,
    Opt,
    TestEqual,
    NotEqual,
    NotDecode,
    Principal,
    Id,
    StartString,
    Text,
    Sign,
    Decimal,
    Hex,
    Float,
    Boolean,
}

/// The classes of the legend.
#[derive(Clone, Copy, Debug, PartialEq, Eq, Structural)]
pub enum LegendKind {
    Comment,
    CommentDelimiter,
    Keyword,
    TypeName,
    Constant,
    Number,
    Text,
    TextDelimiter,
    Operator,
    Bracket,
    Delimiter,
    Identifier,
}

/// The legend in the order in which a client is told of it.
pub open spec fn legend_order() -> Seq<LegendKind> {
    seq![
        LegendKind::Comment,
        LegendKind::CommentDelimiter,
        LegendKind::Keyword,
        LegendKind::TypeName,
        LegendKind::Constant,
        LegendKind::Number,
        LegendKind::Text,
        LegendKind::TextDelimiter,
        LegendKind::Operator,
        LegendKind::Bracket,
        LegendKind::Delimiter,
        LegendKind::Identifier,
    ]
}

/// The name under which a client knows a class.
pub open spec fn legend_text(kind: LegendKind) -> Seq<char> {
    match kind {
        LegendKind::Comment => "comment"@,
        LegendKind::CommentDelimiter => "commentDelimiter"@,
        LegendKind::Keyword => "keyword"@,
        LegendKind::TypeName => "type"@,
        LegendKind::Constant => "constant"@,
        LegendKind::Number => "number"@,
        LegendKind::Text => "string"@,
        LegendKind::TextDelimiter => "stringDelimiter"@,
        LegendKind::Operator => "operator"@,
        LegendKind::Bracket => "punctuationBracket"@,
        LegendKind::Delimiter => "punctuationDelimiter"@,
        LegendKind::Identifier => "identifier"@,
    }
}

/// The class of a kind of token.
pub open spec fn token_legend(token: TokenKind) -> LegendKind {
    match token {
        TokenKind::LineComment => LegendKind::Comment,
        TokenKind::StartComment => LegendKind::CommentDelimiter,
        TokenKind::Vec
        | TokenKind::Record
        | TokenKind::Variant
        | TokenKind::Func
        | TokenKind::Service
        | TokenKind::Oneway
        | TokenKind::Query
        | TokenKind::CompositeQuery
        | TokenKind::Type
        | TokenKind::Import
        | TokenKind::Opt => LegendKind::Keyword,
        TokenKind::Blob | TokenKind::Principal => LegendKind::TypeName,
        TokenKind::Null | TokenKind::Boolean => LegendKind::Constant,
        TokenKind::Decimal | TokenKind::Hex | TokenKind::Float => LegendKind::Number,
        TokenKind::Text => LegendKind::Text,
        TokenKind::StartString => LegendKind::TextDelimiter,
        TokenKind::Equals
        | TokenKind::TestEqual
        | TokenKind::NotEqual
        | TokenKind::NotDecode
        | TokenKind::Sign => LegendKind::Operator,
        TokenKind::LParen | TokenKind::RParen | TokenKind::LBrace | TokenKind::RBrace => LegendKind::Bracket,
        TokenKind::Comma
        | TokenKind::Semi
        | TokenKind::Colon
        | TokenKind::Dot
        | TokenKind::Arrow => LegendKind::Delimiter,
        TokenKind::Id => LegendKind::Identifier,
    }
}

/// The legend, in order.
pub fn legend_kinds() -> (kinds: Vec<LegendKind>)
    ensures
        kinds@ == legend_order(),
{
    let kinds = vec![
        LegendKind::Comment,
        LegendKind::CommentDelimiter,
        LegendKind::Keyword,
        LegendKind::TypeName,
        LegendKind::Constant,
        LegendKind::Number,
        LegendKind::Text,
        LegendKind::TextDelimiter,
        LegendKind::Operator,
        LegendKind::Bracket,
        LegendKind::Delimiter,
        LegendKind::Identifier,
    ];
    assert(kinds@ =~= legend_order());
    kinds
}

impl LegendKind {
    /// The name under which a client knows the class.
    pub fn name(&self) -> (name: &'static str)
        ensures
            name@ == legend_text(*self),
    {
        match self {
            LegendKind::Comment => "comment",
            LegendKind::CommentDelimiter => "commentDelimiter",
            LegendKind::Keyword => "keyword",
            LegendKind::TypeName => "type",
            LegendKind::Constant => "constant",
            LegendKind::Number => "number",
            LegendKind::Text => "string",
            LegendKind::TextDelimiter => "stringDelimiter",
            LegendKind::Operator => "operator",
            LegendKind::Bracket => "punctuationBracket",
            LegendKind::Delimiter => "punctuationDelimiter",
            LegendKind::Identifier => "identifier",
        }
    }

    /// The place of the class in the legend.
    pub fn index(&self) -> (index: usize)
        ensures
            index < legend_order().len(),
            legend_order()[index as int] == *self,
    {
        match self {
            LegendKind::Comment => 0,
            LegendKind::CommentDelimiter => 1,
            LegendKind::Keyword => 2,
            LegendKind::TypeName => 3,
            LegendKind::Constant => 4,
            LegendKind::Number => 5,
            LegendKind::Text => 6,
            LegendKind::TextDelimiter => 7,
            LegendKind::Operator => 8,
            LegendKind::Bracket => 9,
            LegendKind::Delimiter => 10,
            LegendKind::Identifier => 11,
        }
    }
}

/// The class of a kind of token.
pub fn token_legend_kind(token: TokenKind) -> (kind: LegendKind)
    ensures
        kind == token_legend(token),
{
    match token {
        TokenKind::LineComment => LegendKind::Comment,
        TokenKind::StartComment => LegendKind::CommentDelimiter,
        TokenKind::Vec
        | TokenKind::Record
        | TokenKind::Variant
        | TokenKind::Func
        | TokenKind::Service
        | TokenKind::Oneway
        | TokenKind::Query
        | TokenKind::CompositeQuery
        | TokenKind::Type
        | TokenKind::Import
        | TokenKind::Opt => LegendKind::Keyword,
        TokenKind::Blob | TokenKind::Principal => LegendKind::TypeName,
        TokenKind::Null | TokenKind::Boolean => LegendKind::Constant,
        TokenKind::Decimal | TokenKind::Hex | TokenKind::Float => LegendKind::Number,
        TokenKind::Text => LegendKind::Text,
        TokenKind::StartString => LegendKind::TextDelimiter,
        TokenKind::Equals
        | TokenKind::TestEqual
        | TokenKind::NotEqual
        | TokenKind::NotDecode
        | TokenKind::Sign => LegendKind::Operator,
        TokenKind::LParen | TokenKind::RParen | TokenKind::LBrace | TokenKind::RBrace => LegendKind::Bracket,
        TokenKind::Comma
        | TokenKind::Semi
        | TokenKind::Colon
        | TokenKind::Dot
        | TokenKind::Arrow => LegendKind::Delimiter,
        TokenKind::Id => LegendKind::Identifier,
    }
}

/// The place in the legend of the class of a kind of token.
pub fn semantic_token_type_index(token: TokenKind) -> (index: usize)
    ensures
        index < legend_order().len(),
        legend_order()[index as int] == token_legend(token),
{
    token_legend_kind(token).index()
}

} // verus!
