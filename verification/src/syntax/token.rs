//! Token definitions, keyword mappings, and source spans for Juyu.

use vstd::prelude::*;

verus! {

/// A region of source text: byte offsets `start..end`, and the line and
/// column (both counted from 1) at which it begins.
#[derive(Debug, Clone, Copy, PartialEq, Eq, Structural)]
pub struct Span {
    pub start: usize,
    pub end: usize,
    pub line: usize,
    pub col: usize,
}

impl Span {
    pub fn new(start: usize, end: usize, line: usize, col: usize) -> (s: Self)
        ensures
            s == (Span { start, end, line, col }),
    {
        Self { start, end, line, col }
    }

    /// The placeholder span at the very start of a file.
    pub fn dummy() -> (s: Self)
        ensures
            s == (Span { start: 0, end: 0, line: 1, col: 1 }),
    {
        Self { start: 0, end: 0, line: 1, col: 1 }
    }
}

/// The kinds of token the lexer produces. A number literal with a fraction
/// keeps its digits as text (underscores removed).
#[derive(Debug, Clone, PartialEq)]
pub enum TokenKind {
    Let,
    Var,
    Fn,
    Struct,
    Packed,
    Extern,
    Interface,
    Extend,
    Pub,
    Export,
    Static,
    Inline,
    Noinline,
    Const,
    Naked,
    Match,
    Loop,
    While,
    For,
    In,
    If,
    Else,
    Break,
    Continue,
    Defer,
    Errdefer,
    Try,
    Catch,
    Null,
    Undefined,
    Unreachable,
    Type,
    Distinct,
    Test,
    Import,
    Enum,
    Union,
    BitAnd,
    BitOr,
    BitXor,
    Plus,
    Minus,
    Star,
    Slash,
    Percent,
    PlusPercent,
    MinusPercent,
    StarPercent,
    Ampersand,
    Pipe,
    Caret,
    Tilde,
    Shl,
    Shr,
    AmpAmp,
    PipePipe,
    Bang,
    EqEq,
    NotEq,
    Lt,
    LtEq,
    Gt,
    GtEq,
    Eq,
    PlusEq,
    MinusEq,
    StarEq,
    SlashEq,
    FatArrow,
    QuestionQuestion,
    QuestionDot,
    DotStar,
    Dot,
    DotDot,
    DotDotDot,
    Colon,
    ColonEq,
    Semicolon,
    Comma,
    Question,
    OpenParen,
    CloseParen,
    OpenBrace,
    CloseBrace,
    OpenBracket,
    CloseBracket,
    Eof,
    Int(i128, Option<String>),
    Float(String),
    StringLit(String),
    InterpolatedString(String),
    CharLit(char),
    BoolLit(bool),
    Ident(String),
    Builtin(String),
    DocComment(String),
    Error(String),
}

/// The mathematical content of a `TokenKind`: strings become character sequences.
pub enum TokenKindView {
    Let,
    Var,
    Fn,
    Struct,
    Packed,
    Extern,
    Interface,
    Extend,
    Pub,
    Export,
    Static,
    Inline,
    Noinline,
    Const,
    Naked,
    Match,
    Loop,
    While,
    For,
    In,
    If,
    Else,
    Break,
    Continue,
    Defer,
    Errdefer,
    Try,
    Catch,
    Null,
    Undefined,
    Unreachable,
    Type,
    Distinct,
    Test,
    Import,
    Enum,
    Union,
    BitAnd,
    BitOr,
    BitXor,
    Plus,
    Minus,
    Star,
    Slash,
    Percent,
    PlusPercent,
    MinusPercent,
    StarPercent,
    Ampersand,
    Pipe,
    Caret,
    Tilde,
    Shl,
    Shr,
    AmpAmp,
    PipePipe,
    Bang,
    EqEq,
    NotEq,
    Lt,
    LtEq,
    Gt,
    GtEq,
    Eq,
    PlusEq,
    MinusEq,
    StarEq,
    SlashEq,
    FatArrow,
    QuestionQuestion,
    QuestionDot,
    DotStar,
    Dot,
    DotDot,
    DotDotDot,
    Colon,
    ColonEq,
    Semicolon,
    Comma,
    Question,
    OpenParen,
    CloseParen,
    OpenBrace,
    CloseBrace,
    OpenBracket,
    CloseBracket,
    Eof,
    Int(i128, Option<Seq<char>>),
    Float(Seq<char>),
    StringLit(Seq<char>),
    InterpolatedString(Seq<char>),
    CharLit(char),
    BoolLit(bool),
    Ident(Seq<char>),
    Builtin(Seq<char>),
    DocComment(Seq<char>),
    Error(Seq<char>),
}

impl View for TokenKind {
    type V = TokenKindView;

    open spec fn view(&self) -> TokenKindView {
        match self {
            TokenKind::Let => TokenKindView::Let,
            TokenKind::Var => TokenKindView::Var,
            TokenKind::Fn => TokenKindView::Fn,
            TokenKind::Struct => TokenKindView::Struct,
            TokenKind::Packed => TokenKindView::Packed,
            TokenKind::Extern => TokenKindView::Extern,
            TokenKind::Interface => TokenKindView::Interface,
            TokenKind::Extend => TokenKindView::Extend,
            TokenKind::Pub => TokenKindView::Pub,
            TokenKind::Export => TokenKindView::Export,
            TokenKind::Static => TokenKindView::Static,
            TokenKind::Inline => TokenKindView::Inline,
            TokenKind::Noinline => TokenKindView::Noinline,
            TokenKind::Const => TokenKindView::Const,
            TokenKind::Naked => TokenKindView::Naked,
            TokenKind::Match => TokenKindView::Match,
            TokenKind::Loop => TokenKindView::Loop,
            TokenKind::While => TokenKindView::While,
            TokenKind::For => TokenKindView::For,
            TokenKind::In => TokenKindView::In,
            TokenKind::If => TokenKindView::If,
            TokenKind::Else => TokenKindView::Else,
            TokenKind::Break => TokenKindView::Break,
            TokenKind::Continue => TokenKindView::Continue,
            TokenKind::Defer => TokenKindView::Defer,
            TokenKind::Errdefer => TokenKindView::Errdefer,
            TokenKind::Try => TokenKindView::Try,
            TokenKind::Catch => TokenKindView::Catch,
            TokenKind::Null => TokenKindView::Null,
            TokenKind::Undefined => TokenKindView::Undefined,
            TokenKind::Unreachable => TokenKindView::Unreachable,
            TokenKind::Type => TokenKindView::Type,
            TokenKind::Distinct => TokenKindView::Distinct,
            TokenKind::Test => TokenKindView::Test,
            TokenKind::Import => TokenKindView::Import,
            TokenKind::Enum => TokenKindView::Enum,
            TokenKind::Union => TokenKindView::Union,
            TokenKind::BitAnd => TokenKindView::BitAnd,
            TokenKind::BitOr => TokenKindView::BitOr,
            TokenKind::BitXor => TokenKindView::BitXor,
            TokenKind::Plus => TokenKindView::Plus,
            TokenKind::Minus => TokenKindView::Minus,
            TokenKind::Star => TokenKindView::Star,
            TokenKind::Slash => TokenKindView::Slash,
            TokenKind::Percent => TokenKindView::Percent,
            TokenKind::PlusPercent => TokenKindView::PlusPercent,
            TokenKind::MinusPercent => TokenKindView::MinusPercent,
            TokenKind::StarPercent => TokenKindView::StarPercent,
            TokenKind::Ampersand => TokenKindView::Ampersand,
            TokenKind::Pipe => TokenKindView::Pipe,
            TokenKind::Caret => TokenKindView::Caret,
            TokenKind::Tilde => TokenKindView::Tilde,
            TokenKind::Shl => TokenKindView::Shl,
            TokenKind::Shr => TokenKindView::Shr,
            TokenKind::AmpAmp => TokenKindView::AmpAmp,
            TokenKind::PipePipe => TokenKindView::PipePipe,
            TokenKind::Bang => TokenKindView::Bang,
            TokenKind::EqEq => TokenKindView::EqEq,
            TokenKind::NotEq => TokenKindView::NotEq,
            TokenKind::Lt => TokenKindView::Lt,
            TokenKind::LtEq => TokenKindView::LtEq,
            TokenKind::Gt => TokenKindView::Gt,
            TokenKind::GtEq => TokenKindView::GtEq,
            TokenKind::Eq => TokenKindView::Eq,
            TokenKind::PlusEq => TokenKindView::PlusEq,
            TokenKind::MinusEq => TokenKindView::MinusEq,
            TokenKind::StarEq => TokenKindView::StarEq,
            TokenKind::SlashEq => TokenKindView::SlashEq,
            TokenKind::FatArrow => TokenKindView::FatArrow,
            TokenKind::QuestionQuestion => TokenKindView::QuestionQuestion,
            TokenKind::QuestionDot => TokenKindView::QuestionDot,
            TokenKind::DotStar => TokenKindView::DotStar,
            TokenKind::Dot => TokenKindView::Dot,
            TokenKind::DotDot => TokenKindView::DotDot,
            TokenKind::DotDotDot => TokenKindView::DotDotDot,
            TokenKind::Colon => TokenKindView::Colon,
            TokenKind::ColonEq => TokenKindView::ColonEq,
            TokenKind::Semicolon => TokenKindView::Semicolon,
            TokenKind::Comma => TokenKindView::Comma,
            TokenKind::Question => TokenKindView::Question,
            TokenKind::OpenParen => TokenKindView::OpenParen,
            TokenKind::CloseParen => TokenKindView::CloseParen,
            TokenKind::OpenBrace => TokenKindView::OpenBrace,
            TokenKind::CloseBrace => TokenKindView::CloseBrace,
            TokenKind::OpenBracket => TokenKindView::OpenBracket,
            TokenKind::CloseBracket => TokenKindView::CloseBracket,
            TokenKind::Eof => TokenKindView::Eof,
            TokenKind::Int(v, s) => TokenKindView::Int(*v, match s { Some(x) => Some(x@), None => None }),
            TokenKind::Float(s) => TokenKindView::Float(s@),
            TokenKind::StringLit(s) => TokenKindView::StringLit(s@),
            TokenKind::InterpolatedString(s) => TokenKindView::InterpolatedString(s@),
            TokenKind::CharLit(c) => TokenKindView::CharLit(*c),
            TokenKind::BoolLit(c) => TokenKindView::BoolLit(*c),
            TokenKind::Ident(s) => TokenKindView::Ident(s@),
            TokenKind::Builtin(s) => TokenKindView::Builtin(s@),
            TokenKind::DocComment(s) => TokenKindView::DocComment(s@),
            TokenKind::Error(s) => TokenKindView::Error(s@),
        }
    }
}

#[derive(Debug, Clone, PartialEq)]
pub struct Token {
    pub kind: TokenKind,
    pub span: Span,
}

/// The mathematical content of a `Token`.
pub struct TokenView {
    pub kind: TokenKindView,
    pub span: Span,
}

impl View for Token {
    type V = TokenView;

    open spec fn view(&self) -> TokenView {
        TokenView { kind: self.kind@, span: self.span }
    }
}

impl Token {
    pub fn new(kind: TokenKind, span: Span) -> (t: Self)
        ensures
            t.kind == kind,
            t.span == span,
    {
        Self { kind, span }
    }
}


impl TokenKind {
    /// A copy of this token kind.
    pub fn copy(&self) -> (k: TokenKind)
        ensures
            k@ == self@,
    {
        match self {
            TokenKind::Let => TokenKind::Let,
            TokenKind::Var => TokenKind::Var,
            TokenKind::Fn => TokenKind::Fn,
            TokenKind::Struct => TokenKind::Struct,
            TokenKind::Packed => TokenKind::Packed,
            TokenKind::Extern => TokenKind::Extern,
            TokenKind::Interface => TokenKind::Interface,
            TokenKind::Extend => TokenKind::Extend,
            TokenKind::Pub => TokenKind::Pub,
            TokenKind::Export => TokenKind::Export,
            TokenKind::Static => TokenKind::Static,
            TokenKind::Inline => TokenKind::Inline,
            TokenKind::Noinline => TokenKind::Noinline,
            TokenKind::Const => TokenKind::Const,
            TokenKind::Naked => TokenKind::Naked,
            TokenKind::Match => TokenKind::Match,
            TokenKind::Loop => TokenKind::Loop,
            TokenKind::While => TokenKind::While,
            TokenKind::For => TokenKind::For,
            TokenKind::In => TokenKind::In,
            TokenKind::If => TokenKind::If,
            TokenKind::Else => TokenKind::Else,
            TokenKind::Break => TokenKind::Break,
            TokenKind::Continue => TokenKind::Continue,
            TokenKind::Defer => TokenKind::Defer,
            TokenKind::Errdefer => TokenKind::Errdefer,
            TokenKind::Try => TokenKind::Try,
            TokenKind::Catch => TokenKind::Catch,
            TokenKind::Null => TokenKind::Null,
            TokenKind::Undefined => TokenKind::Undefined,
            TokenKind::Unreachable => TokenKind::Unreachable,
            TokenKind::Type => TokenKind::Type,
            TokenKind::Distinct => TokenKind::Distinct,
            TokenKind::Test => TokenKind::Test,
            TokenKind::Import => TokenKind::Import,
            TokenKind::Enum => TokenKind::Enum,
            TokenKind::Union => TokenKind::Union,
            TokenKind::BitAnd => TokenKind::BitAnd,
            TokenKind::BitOr => TokenKind::BitOr,
            TokenKind::BitXor => TokenKind::BitXor,
            TokenKind::Plus => TokenKind::Plus,
            TokenKind::Minus => TokenKind::Minus,
            TokenKind::Star => TokenKind::Star,
            TokenKind::Slash => TokenKind::Slash,
            TokenKind::Percent => TokenKind::Percent,
            TokenKind::PlusPercent => TokenKind::PlusPercent,
            TokenKind::MinusPercent => TokenKind::MinusPercent,
            TokenKind::StarPercent => TokenKind::StarPercent,
            TokenKind::Ampersand => TokenKind::Ampersand,
            TokenKind::Pipe => TokenKind::Pipe,
            TokenKind::Caret => TokenKind::Caret,
            TokenKind::Tilde => TokenKind::Tilde,
            TokenKind::Shl => TokenKind::Shl,
            TokenKind::Shr => TokenKind::Shr,
            TokenKind::AmpAmp => TokenKind::AmpAmp,
            TokenKind::PipePipe => TokenKind::PipePipe,
            TokenKind::Bang => TokenKind::Bang,
            TokenKind::EqEq => TokenKind::EqEq,
            TokenKind::NotEq => TokenKind::NotEq,
            TokenKind::Lt => TokenKind::Lt,
            TokenKind::LtEq => TokenKind::LtEq,
            TokenKind::Gt => TokenKind::Gt,
            TokenKind::GtEq => TokenKind::GtEq,
            TokenKind::Eq => TokenKind::Eq,
            TokenKind::PlusEq => TokenKind::PlusEq,
            TokenKind::MinusEq => TokenKind::MinusEq,
            TokenKind::StarEq => TokenKind::StarEq,
            TokenKind::SlashEq => TokenKind::SlashEq,
            TokenKind::FatArrow => TokenKind::FatArrow,
            TokenKind::QuestionQuestion => TokenKind::QuestionQuestion,
            TokenKind::QuestionDot => TokenKind::QuestionDot,
            TokenKind::DotStar => TokenKind::DotStar,
            TokenKind::Dot => TokenKind::Dot,
            TokenKind::DotDot => TokenKind::DotDot,
            TokenKind::DotDotDot => TokenKind::DotDotDot,
            TokenKind::Colon => TokenKind::Colon,
            TokenKind::ColonEq => TokenKind::ColonEq,
            TokenKind::Semicolon => TokenKind::Semicolon,
            TokenKind::Comma => TokenKind::Comma,
            TokenKind::Question => TokenKind::Question,
            TokenKind::OpenParen => TokenKind::OpenParen,
            TokenKind::CloseParen => TokenKind::CloseParen,
            TokenKind::OpenBrace => TokenKind::OpenBrace,
            TokenKind::CloseBrace => TokenKind::CloseBrace,
            TokenKind::OpenBracket => TokenKind::OpenBracket,
            TokenKind::CloseBracket => TokenKind::CloseBracket,
            TokenKind::Eof => TokenKind::Eof,
            TokenKind::Int(v, s) => TokenKind::Int(*v, match s { Some(x) => Some(x.clone()), None => None }),
            TokenKind::Float(s) => TokenKind::Float(s.clone()),
            TokenKind::StringLit(s) => TokenKind::StringLit(s.clone()),
            TokenKind::InterpolatedString(s) => TokenKind::InterpolatedString(s.clone()),
            TokenKind::CharLit(c) => TokenKind::CharLit(*c),
            TokenKind::BoolLit(c) => TokenKind::BoolLit(*c),
            TokenKind::Ident(s) => TokenKind::Ident(s.clone()),
            TokenKind::Builtin(s) => TokenKind::Builtin(s.clone()),
            TokenKind::DocComment(s) => TokenKind::DocComment(s.clone()),
            TokenKind::Error(s) => TokenKind::Error(s.clone()),
        }
    }
}

impl Token {
    /// A copy of this token.
    pub fn copy(&self) -> (t: Token)
        ensures
            t@ == self@,
    {
        Token { kind: self.kind.copy(), span: self.span }
    }
}

/// The text that `format!("{:?}", kind)` gives for a token kind: the
/// `Debug` output that `derive` writes, a function of the kind alone.
pub uninterp spec fn token_kind_debug(kind: TokenKindView) -> Seq<char>;

/// Formats `kind` with its derived `Debug` implementation (`format!("{:?}", kind)`).
/// The text is named `token_kind_debug(kind@)`; what it holds is not stated.
#[verifier::external_body]
pub(crate) fn debug_text(kind: &TokenKind) -> (s: String)
    ensures
        s@ == token_kind_debug(kind@),
{
    format!("{:?}", kind)
}


/// Whether two token kinds are the same, payloads included.
pub fn same_kind(a: &TokenKind, b: &TokenKind) -> (r: bool)
    ensures
        r == (a@ == b@),
{
    match (a, b) {
            (TokenKind::Let, TokenKind::Let) => true,
            (TokenKind::Var, TokenKind::Var) => true,
            (TokenKind::Fn, TokenKind::Fn) => true,
            (TokenKind::Struct, TokenKind::Struct) => true,
            (TokenKind::Packed, TokenKind::Packed) => true,
            (TokenKind::Extern, TokenKind::Extern) => true,
            (TokenKind::Interface, TokenKind::Interface) => true,
            (TokenKind::Extend, TokenKind::Extend) => true,
            (TokenKind::Pub, TokenKind::Pub) => true,
            (TokenKind::Export, TokenKind::Export) => true,
            (TokenKind::Static, TokenKind::Static) => true,
            (TokenKind::Inline, TokenKind::Inline) => true,
            (TokenKind::Noinline, TokenKind::Noinline) => true,
            (TokenKind::Const, TokenKind::Const) => true,
            (TokenKind::Naked, TokenKind::Naked) => true,
            (TokenKind::Match, TokenKind::Match) => true,
            (TokenKind::Loop, TokenKind::Loop) => true,
            (TokenKind::While, TokenKind::While) => true,
            (TokenKind::For, TokenKind::For) => true,
            (TokenKind::In, TokenKind::In) => true,
            (TokenKind::If, TokenKind::If) => true,
            (TokenKind::Else, TokenKind::Else) => true,
            (TokenKind::Break, TokenKind::Break) => true,
            (TokenKind::Continue, TokenKind::Continue) => true,
            (TokenKind::Defer, TokenKind::Defer) => true,
            (TokenKind::Errdefer, TokenKind::Errdefer) => true,
            (TokenKind::Try, TokenKind::Try) => true,
            (TokenKind::Catch, TokenKind::Catch) => true,
            (TokenKind::Null, TokenKind::Null) => true,
            (TokenKind::Undefined, TokenKind::Undefined) => true,
            (TokenKind::Unreachable, TokenKind::Unreachable) => true,
            (TokenKind::Type, TokenKind::Type) => true,
            (TokenKind::Distinct, TokenKind::Distinct) => true,
            (TokenKind::Test, TokenKind::Test) => true,
            (TokenKind::Import, TokenKind::Import) => true,
            (TokenKind::Enum, TokenKind::Enum) => true,
            (TokenKind::Union, TokenKind::Union) => true,
            (TokenKind::BitAnd, TokenKind::BitAnd) => true,
            (TokenKind::BitOr, TokenKind::BitOr) => true,
            (TokenKind::BitXor, TokenKind::BitXor) => true,
            (TokenKind::Plus, TokenKind::Plus) => true,
            (TokenKind::Minus, TokenKind::Minus) => true,
            (TokenKind::Star, TokenKind::Star) => true,
            (TokenKind::Slash, TokenKind::Slash) => true,
            (TokenKind::Percent, TokenKind::Percent) => true,
            (TokenKind::PlusPercent, TokenKind::PlusPercent) => true,
            (TokenKind::MinusPercent, TokenKind::MinusPercent) => true,
            (TokenKind::StarPercent, TokenKind::StarPercent) => true,
            (TokenKind::Ampersand, TokenKind::Ampersand) => true,
            (TokenKind::Pipe, TokenKind::Pipe) => true,
            (TokenKind::Caret, TokenKind::Caret) => true,
            (TokenKind::Tilde, TokenKind::Tilde) => true,
            (TokenKind::Shl, TokenKind::Shl) => true,
            (TokenKind::Shr, TokenKind::Shr) => true,
            (TokenKind::AmpAmp, TokenKind::AmpAmp) => true,
            (TokenKind::PipePipe, TokenKind::PipePipe) => true,
            (TokenKind::Bang, TokenKind::Bang) => true,
            (TokenKind::EqEq, TokenKind::EqEq) => true,
            (TokenKind::NotEq, TokenKind::NotEq) => true,
            (TokenKind::Lt, TokenKind::Lt) => true,
            (TokenKind::LtEq, TokenKind::LtEq) => true,
            (TokenKind::Gt, TokenKind::Gt) => true,
            (TokenKind::GtEq, TokenKind::GtEq) => true,
            (TokenKind::Eq, TokenKind::Eq) => true,
            (TokenKind::PlusEq, TokenKind::PlusEq) => true,
            (TokenKind::MinusEq, TokenKind::MinusEq) => true,
            (TokenKind::StarEq, TokenKind::StarEq) => true,
            (TokenKind::SlashEq, TokenKind::SlashEq) => true,
            (TokenKind::FatArrow, TokenKind::FatArrow) => true,
            (TokenKind::QuestionQuestion, TokenKind::QuestionQuestion) => true,
            (TokenKind::QuestionDot, TokenKind::QuestionDot) => true,
            (TokenKind::DotStar, TokenKind::DotStar) => true,
            (TokenKind::Dot, TokenKind::Dot) => true,
            (TokenKind::DotDot, TokenKind::DotDot) => true,
            (TokenKind::DotDotDot, TokenKind::DotDotDot) => true,
            (TokenKind::Colon, TokenKind::Colon) => true,
            (TokenKind::ColonEq, TokenKind::ColonEq) => true,
            (TokenKind::Semicolon, TokenKind::Semicolon) => true,
            (TokenKind::Comma, TokenKind::Comma) => true,
            (TokenKind::Question, TokenKind::Question) => true,
            (TokenKind::OpenParen, TokenKind::OpenParen) => true,
            (TokenKind::CloseParen, TokenKind::CloseParen) => true,
            (TokenKind::OpenBrace, TokenKind::OpenBrace) => true,
            (TokenKind::CloseBrace, TokenKind::CloseBrace) => true,
            (TokenKind::OpenBracket, TokenKind::OpenBracket) => true,
            (TokenKind::CloseBracket, TokenKind::CloseBracket) => true,
            (TokenKind::Eof, TokenKind::Eof) => true,
            (TokenKind::Int(v1, s1), TokenKind::Int(v2, s2)) => *v1 == *v2 && match (s1, s2) {
                (Some(x), Some(y)) => x.eq(y),
                (None, None) => true,
                _ => false,
            },
            (TokenKind::Float(x), TokenKind::Float(y)) => x.eq(y),
            (TokenKind::StringLit(x), TokenKind::StringLit(y)) => x.eq(y),
            (TokenKind::InterpolatedString(x), TokenKind::InterpolatedString(y)) => x.eq(y),
            (TokenKind::CharLit(x), TokenKind::CharLit(y)) => *x == *y,
            (TokenKind::BoolLit(x), TokenKind::BoolLit(y)) => *x == *y,
            (TokenKind::Ident(x), TokenKind::Ident(y)) => x.eq(y),
            (TokenKind::Builtin(x), TokenKind::Builtin(y)) => x.eq(y),
            (TokenKind::DocComment(x), TokenKind::DocComment(y)) => x.eq(y),
            (TokenKind::Error(x), TokenKind::Error(y)) => x.eq(y),
            _ => false,
    }
}

} // verus!
