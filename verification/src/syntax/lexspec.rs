//! What the lexer produces, stated over the source characters: where each
//! token ends and which kind it has.

use vstd::prelude::*;
use crate::syntax::chars::{
    byte_len, is_alpha, is_digit,
};
use crate::syntax::indent::{
    strip_indentation,
};
use crate::syntax::number::int_literal_value;
use crate::syntax::scan::{
    char_at, find_char, in_class, line_col, run_end, CharClass, lemma_find_char_bounds,
    lemma_run_end_bounds,
};
use crate::syntax::token::{
    Span, TokenKindView, TokenView,
};

verus! {

/// The end of a `//` comment whose text starts at `p`: just past the next line
/// feed, or the end of the input.
pub open spec fn line_comment_end(t: Seq<char>, p: int) -> int {
    let n = find_char(t, p, '\n');
    if n < t.len() {
        n + 1
    } else {
        t.len() as int
    }
}

/// The end of a block comment whose text starts at `p`, `depth` comments deep.
/// Comments nest; an unclosed comment runs to the end of the input.
pub open spec fn block_comment_end(t: Seq<char>, p: int, depth: nat) -> int
    decreases t.len() - p,
{
    if depth == 0 || p < 0 {
        p
    } else if p >= t.len() {
        t.len() as int
    } else if t[p] == '/' && char_at(t, p + 1) == Some('*') {
        block_comment_end(t, p + 2, depth + 1)
    } else if t[p] == '*' && char_at(t, p + 1) == Some('/') {
        block_comment_end(t, p + 2, (depth - 1) as nat)
    } else {
        block_comment_end(t, p + 1, depth)
    }
}

pub proof fn lemma_block_comment_end_bounds(t: Seq<char>, p: int, depth: nat)
    requires
        0 <= p <= t.len(),
    ensures
        p <= block_comment_end(t, p, depth) <= t.len(),
    decreases t.len() - p,
{
    if depth == 0 || p >= t.len() {
    } else if t[p] == '/' && char_at(t, p + 1) == Some('*') {
        lemma_block_comment_end_bounds(t, p + 2, depth + 1);
    } else if t[p] == '*' && char_at(t, p + 1) == Some('/') {
        lemma_block_comment_end_bounds(t, p + 2, (depth - 1) as nat);
    } else {
        lemma_block_comment_end_bounds(t, p + 1, depth);
    }
}

/// The index of the first token at or after `p`, past whitespace, `//` line
/// comments and nestable `/* */` block comments.
pub open spec fn skip_trivia(t: Seq<char>, p: int) -> int
    decreases t.len() - p,
{
    if p < 0 || p > t.len() {
        p
    } else {
        let q = run_end(t, p, CharClass::Whitespace);
        proof {
            lemma_run_end_bounds(t, p, CharClass::Whitespace);
        }
        if char_at(t, q) == Some('/') && char_at(t, q + 1) == Some('/') {
            proof {
                lemma_find_char_bounds(t, q + 2, '\n');
            }
            skip_trivia(t, line_comment_end(t, q + 2))
        } else if char_at(t, q) == Some('/') && char_at(t, q + 1) == Some('*') {
            proof {
                lemma_block_comment_end_bounds(t, q + 2, 1);
            }
            skip_trivia(t, block_comment_end(t, q + 2, 1))
        } else {
            q
        }
    }
}

pub proof fn lemma_skip_trivia_bounds(t: Seq<char>, p: int)
    requires
        0 <= p <= t.len(),
    ensures
        p <= skip_trivia(t, p) <= t.len(),
    decreases t.len() - p,
{
    lemma_run_end_bounds(t, p, CharClass::Whitespace);
    let q = run_end(t, p, CharClass::Whitespace);
    if char_at(t, q) == Some('/') && char_at(t, q + 1) == Some('/') {
        lemma_find_char_bounds(t, q + 2, '\n');
        lemma_skip_trivia_bounds(t, line_comment_end(t, q + 2));
    } else if char_at(t, q) == Some('/') && char_at(t, q + 1) == Some('*') {
        lemma_block_comment_end_bounds(t, q + 2, 1);
        lemma_skip_trivia_bounds(t, block_comment_end(t, q + 2, 1));
    }
}

/// The character an escape `\x` stands for in a string literal.
pub open spec fn string_escape(c: char) -> char {
    if c == 'n' {
        '\n'
    } else if c == 'r' {
        '\r'
    } else if c == 't' {
        '\t'
    } else if c == '0' {
        '\0'
    } else {
        c
    }
}

/// The character an escape `\x` stands for in a character literal.
pub open spec fn char_escape(c: char) -> char {
    if c == 'n' {
        '\n'
    } else if c == 't' {
        '\t'
    } else if c == '0' {
        '\0'
    } else {
        c
    }
}

/// The rest of a one-line string literal from `p`, with `acc` read so far.
pub open spec fn string_body(t: Seq<char>, p: int, acc: Seq<char>) -> (TokenKindView, int)
    decreases t.len() - p,
{
    if p < 0 || p >= t.len() {
        (TokenKindView::Error("Unclosed string literal"@), t.len() as int)
    } else if t[p] == '"' {
        (TokenKindView::StringLit(acc), p + 1)
    } else if t[p] == '\\' {
        if p + 1 < t.len() {
            string_body(t, p + 2, acc.push(string_escape(t[p + 1])))
        } else {
            string_body(t, p + 1, acc)
        }
    } else if t[p] == '\n' {
        (TokenKindView::Error("Unterminated single-line string literal"@), p + 1)
    } else {
        string_body(t, p + 1, acc.push(t[p]))
    }
}

/// The first index at or after `p` where `"""` begins, or `t.len()`.
pub open spec fn find_triple_quote(t: Seq<char>, p: int) -> int
    decreases t.len() - p,
{
    if p < 0 || p >= t.len() {
        t.len() as int
    } else if t[p] == '"' && char_at(t, p + 1) == Some('"') && char_at(t, p + 2) == Some('"') {
        p
    } else {
        find_triple_quote(t, p + 1)
    }
}

/// A multiline string literal whose text starts at `p`.
pub open spec fn multiline_string(t: Seq<char>, p: int) -> (TokenKindView, int) {
    let q = find_triple_quote(t, p);
    if q < t.len() {
        (TokenKindView::StringLit(strip_indentation(t.subrange(p, q))), q + 3)
    } else {
        (TokenKindView::Error("Unclosed multiline string literal"@), t.len() as int)
    }
}

/// A string literal whose opening `"` is just before `k`.
pub open spec fn string_literal(t: Seq<char>, k: int) -> (TokenKindView, int) {
    if char_at(t, k) == Some('"') && char_at(t, k + 1) == Some('"') {
        multiline_string(t, k + 2)
    } else {
        string_body(t, k, seq![])
    }
}

/// A character literal whose opening `'` is just before `k`.
pub open spec fn char_literal(t: Seq<char>, k: int) -> (TokenKindView, int) {
    match char_at(t, k) {
        None => (TokenKindView::Error("Unclosed char literal"@), k),
        Some(c0) => {
            if c0 == '\\' && char_at(t, k + 1) is None {
                (TokenKindView::Error("Unclosed escape in char literal"@), k + 1)
            } else {
                let c = if c0 == '\\' { char_escape(t[k + 1]) } else { c0 };
                let e = if c0 == '\\' { k + 2 } else { k + 1 };
                if char_at(t, e) == Some('\'') {
                    (TokenKindView::CharLit(c), e + 1)
                } else {
                    (
                        TokenKindView::Error("Expected closing quote for char literal"@),
                        if e < t.len() { e + 1 } else { e },
                    )
                }
            }
        }
    }
}

/// `s` without its underscores.
pub open spec fn remove_underscores(s: Seq<char>) -> Seq<char>
    decreases s.len(),
{
    if s.len() == 0 {
        s
    } else if s.last() == '_' {
        remove_underscores(s.drop_last())
    } else {
        remove_underscores(s.drop_last()).push(s.last())
    }
}

/// The end of the digits, underscores and fraction points of a decimal
/// literal continuing at `p`; a point counts only when a digit follows it.
pub open spec fn decimal_end(t: Seq<char>, p: int) -> int
    decreases t.len() - p,
{
    if 0 <= p < t.len() && (is_digit(t[p]) || t[p] == '_') {
        decimal_end(t, p + 1)
    } else if 0 <= p < t.len() && t[p] == '.' && p + 1 < t.len() && is_digit(t[p + 1]) {
        decimal_end(t, p + 1)
    } else {
        p
    }
}

/// A suffix such as `u8`, `i24` or `f32` at `e`: a run of letters and digits
/// that begins with `u`, `i` or `f`.
pub open spec fn number_suffix(t: Seq<char>, e: int) -> (Option<Seq<char>>, int) {
    if char_at(t, e) == Some('u') || char_at(t, e) == Some('i') || char_at(t, e) == Some('f') {
        let e2 = run_end(t, e, CharClass::Alnum);
        (Some(t.subrange(e, e2)), e2)
    } else {
        (None, e)
    }
}

/// An integer suffix such as `u8` or `i32` at `e`: a run of letters and
/// digits that begins with `u` or `i`.
pub open spec fn int_suffix(t: Seq<char>, e: int) -> (Option<Seq<char>>, int) {
    if char_at(t, e) == Some('u') || char_at(t, e) == Some('i') {
        let e2 = run_end(t, e, CharClass::Alnum);
        (Some(t.subrange(e, e2)), e2)
    } else {
        (None, e)
    }
}

/// A number literal that starts at `s`.
pub open spec fn number_literal(t: Seq<char>, s: int) -> (TokenKindView, int) {
    let k = s + 1;
    if t[s] == '0' && (char_at(t, k) == Some('x') || char_at(t, k) == Some('X')) {
        let e = run_end(t, k + 1, CharClass::HexOrUnderscore);
        let (suffix, e2) = int_suffix(t, e);
        (
            TokenKindView::Int(
                int_literal_value(remove_underscores(t.subrange(k + 1, e)), 16),
                suffix,
            ),
            e2,
        )
    } else if t[s] == '0' && (char_at(t, k) == Some('b') || char_at(t, k) == Some('B')) {
        let e = run_end(t, k + 1, CharClass::BinOrUnderscore);
        let (suffix, e2) = int_suffix(t, e);
        (
            TokenKindView::Int(int_literal_value(remove_underscores(t.subrange(k + 1, e)), 2), suffix),
            e2,
        )
    } else {
        let e = decimal_end(t, k);
        let body = seq![t[s]] + remove_underscores(t.subrange(k, e));
        let (suffix, e2) = number_suffix(t, e);
        if body.contains('.') {
            (TokenKindView::Float(body), e2)
        } else {
            (TokenKindView::Int(int_literal_value(body, 10), suffix), e2)
        }
    }
}

/// The keyword that `w` spells, or the identifier `w`.
pub open spec fn keyword_or_ident(w: Seq<char>) -> TokenKindView {
    if w == "let"@ {
        TokenKindView::Let
    } else if w == "var"@ {
        TokenKindView::Var
    } else if w == "fn"@ {
        TokenKindView::Fn
    } else if w == "struct"@ {
        TokenKindView::Struct
    } else if w == "packed"@ {
        TokenKindView::Packed
    } else if w == "extern"@ {
        TokenKindView::Extern
    } else if w == "interface"@ {
        TokenKindView::Interface
    } else if w == "extend"@ {
        TokenKindView::Extend
    } else if w == "pub"@ {
        TokenKindView::Pub
    } else if w == "export"@ {
        TokenKindView::Export
    } else if w == "static"@ {
        TokenKindView::Static
    } else if w == "inline"@ {
        TokenKindView::Inline
    } else if w == "noinline"@ {
        TokenKindView::Noinline
    } else if w == "const"@ {
        TokenKindView::Const
    } else if w == "naked"@ {
        TokenKindView::Naked
    } else if w == "match"@ {
        TokenKindView::Match
    } else if w == "loop"@ {
        TokenKindView::Loop
    } else if w == "while"@ {
        TokenKindView::While
    } else if w == "for"@ {
        TokenKindView::For
    } else if w == "in"@ {
        TokenKindView::In
    } else if w == "if"@ {
        TokenKindView::If
    } else if w == "else"@ {
        TokenKindView::Else
    } else if w == "break"@ {
        TokenKindView::Break
    } else if w == "continue"@ {
        TokenKindView::Continue
    } else if w == "defer"@ {
        TokenKindView::Defer
    } else if w == "errdefer"@ {
        TokenKindView::Errdefer
    } else if w == "try"@ {
        TokenKindView::Try
    } else if w == "catch"@ {
        TokenKindView::Catch
    } else if w == "null"@ {
        TokenKindView::Null
    } else if w == "undefined"@ {
        TokenKindView::Undefined
    } else if w == "unreachable"@ {
        TokenKindView::Unreachable
    } else if w == "type"@ {
        TokenKindView::Type
    } else if w == "distinct"@ {
        TokenKindView::Distinct
    } else if w == "test"@ {
        TokenKindView::Test
    } else if w == "import"@ {
        TokenKindView::Import
    } else if w == "enum"@ {
        TokenKindView::Enum
    } else if w == "union"@ {
        TokenKindView::Union
    } else if w == "bitand"@ {
        TokenKindView::BitAnd
    } else if w == "bitor"@ {
        TokenKindView::BitOr
    } else if w == "bitxor"@ {
        TokenKindView::BitXor
    } else if w == "true"@ {
        TokenKindView::BoolLit(true)
    } else if w == "false"@ {
        TokenKindView::BoolLit(false)
    } else {
        TokenKindView::Ident(w)
    }
}

/// A token of one or two characters: `two` when `c` is at `k`, else `one`.
pub open spec fn maybe_pair(t: Seq<char>, k: int, c: char, two: TokenKindView, one: TokenKindView) -> (
    TokenKindView,
    int,
) {
    if char_at(t, k) == Some(c) {
        (two, k + 1)
    } else {
        (one, k)
    }
}

/// The text of an escaped identifier `@"..."` from `p` up to the closing
/// quote (or the end of the input), and the position past that quote.
pub open spec fn raw_string_contents(t: Seq<char>, p: int) -> (Seq<char>, int) {
    let q = find_char(t, p, '"');
    if q < t.len() {
        (t.subrange(p, q), q + 1)
    } else {
        (t.subrange(p, t.len() as int), t.len() as int)
    }
}

/// What follows an `@` that is just before `k`: an escaped identifier
/// `@"..."`, a builtin name, or an error.
pub open spec fn at_sign(t: Seq<char>, k: int) -> (TokenKindView, int) {
    if char_at(t, k) == Some('"') {
        let (raw, e) = raw_string_contents(t, k + 1);
        (TokenKindView::Ident(raw), e)
    } else if k < t.len() {
        if is_alpha(t[k]) || t[k] == '_' {
            let e = run_end(t, k, CharClass::Word);
            (TokenKindView::Builtin(t.subrange(k, e)), e)
        } else {
            (TokenKindView::Error("Expected builtin name after '@'"@), k)
        }
    } else {
        (TokenKindView::Error("Unexpected trailing '@'"@), k)
    }
}

/// An interpolated string whose text starts at `p`, just after `$"`.
pub open spec fn interpolated_string(t: Seq<char>, p: int) -> (TokenKindView, int) {
    let q = find_char(t, p, '"');
    if q < t.len() {
        (TokenKindView::InterpolatedString(t.subrange(p, q)), q + 1)
    } else {
        (TokenKindView::Error("Unclosed interpolated string literal"@), t.len() as int)
    }
}

/// What follows a `$` that is just before `k`: an interpolated string or an error.
pub open spec fn dollar(t: Seq<char>, k: int) -> (TokenKindView, int) {
    if char_at(t, k) == Some('"') {
        interpolated_string(t, k + 1)
    } else {
        (TokenKindView::Error("Unexpected '$' without string literal"@), k)
    }
}

/// The kind and end of the token whose first character is at `s`.
pub open spec fn lex_token(t: Seq<char>, s: int) -> (TokenKindView, int) {
    let c = t[s];
    let k = s + 1;
    if c == '(' {
        (TokenKindView::OpenParen, k)
    } else if c == ')' {
        (TokenKindView::CloseParen, k)
    } else if c == '{' {
        (TokenKindView::OpenBrace, k)
    } else if c == '}' {
        (TokenKindView::CloseBrace, k)
    } else if c == '[' {
        (TokenKindView::OpenBracket, k)
    } else if c == ']' {
        (TokenKindView::CloseBracket, k)
    } else if c == ':' {
        maybe_pair(t, k, '=', TokenKindView::ColonEq, TokenKindView::Colon)
    } else if c == ';' {
        (TokenKindView::Semicolon, k)
    } else if c == ',' {
        (TokenKindView::Comma, k)
    } else if c == '~' {
        (TokenKindView::Tilde, k)
    } else if c == '^' {
        (TokenKindView::Caret, k)
    } else if c == '?' {
        if char_at(t, k) == Some('?') {
            (TokenKindView::QuestionQuestion, k + 1)
        } else {
            maybe_pair(t, k, '.', TokenKindView::QuestionDot, TokenKindView::Question)
        }
    } else if c == '.' {
        if char_at(t, k) == Some('*') {
            (TokenKindView::DotStar, k + 1)
        } else if char_at(t, k) == Some('.') {
            maybe_pair(t, k + 1, '.', TokenKindView::DotDotDot, TokenKindView::DotDot)
        } else {
            (TokenKindView::Dot, k)
        }
    } else if c == '=' {
        if char_at(t, k) == Some('>') {
            (TokenKindView::FatArrow, k + 1)
        } else {
            maybe_pair(t, k, '=', TokenKindView::EqEq, TokenKindView::Eq)
        }
    } else if c == '!' {
        maybe_pair(t, k, '=', TokenKindView::NotEq, TokenKindView::Bang)
    } else if c == '<' {
        if char_at(t, k) == Some('=') {
            (TokenKindView::LtEq, k + 1)
        } else {
            maybe_pair(t, k, '<', TokenKindView::Shl, TokenKindView::Lt)
        }
    } else if c == '>' {
        if char_at(t, k) == Some('=') {
            (TokenKindView::GtEq, k + 1)
        } else {
            maybe_pair(t, k, '>', TokenKindView::Shr, TokenKindView::Gt)
        }
    } else if c == '+' {
        if char_at(t, k) == Some('%') {
            (TokenKindView::PlusPercent, k + 1)
        } else {
            maybe_pair(t, k, '=', TokenKindView::PlusEq, TokenKindView::Plus)
        }
    } else if c == '-' {
        if char_at(t, k) == Some('%') {
            (TokenKindView::MinusPercent, k + 1)
        } else {
            maybe_pair(t, k, '=', TokenKindView::MinusEq, TokenKindView::Minus)
        }
    } else if c == '*' {
        if char_at(t, k) == Some('%') {
            (TokenKindView::StarPercent, k + 1)
        } else {
            maybe_pair(t, k, '=', TokenKindView::StarEq, TokenKindView::Star)
        }
    } else if c == '/' {
        maybe_pair(t, k, '=', TokenKindView::SlashEq, TokenKindView::Slash)
    } else if c == '%' {
        (TokenKindView::Percent, k)
    } else if c == '&' {
        maybe_pair(t, k, '&', TokenKindView::AmpAmp, TokenKindView::Ampersand)
    } else if c == '|' {
        maybe_pair(t, k, '|', TokenKindView::PipePipe, TokenKindView::Pipe)
    } else if c == '"' {
        string_literal(t, k)
    } else if c == '$' {
        dollar(t, k)
    } else if c == '\'' {
        char_literal(t, k)
    } else if c == '@' {
        at_sign(t, k)
    } else if is_digit(c) {
        number_literal(t, s)
    } else if is_alpha(c) || c == '_' {
        let e = run_end(t, k, CharClass::Word);
        (keyword_or_ident(t.subrange(s, e)), e)
    } else {
        (TokenKindView::Error("Unexpected character '"@ + seq![c, '\'']), k)
    }
}

/// The span of the characters `s..e`: their byte offsets and where `s` is.
pub open spec fn span_of(t: Seq<char>, s: int, e: int) -> Span {
    Span {
        start: byte_len(t.take(s)) as usize,
        end: byte_len(t.take(e)) as usize,
        line: line_col(t, s).0 as usize,
        col: line_col(t, s).1 as usize,
    }
}

/// The token that the lexer produces at position `p`, and the position after it.
/// At the end of the input it produces `Eof`, and keeps producing it.
pub open spec fn next_token_spec(t: Seq<char>, p: int) -> (TokenView, int) {
    let s = skip_trivia(t, p);
    if s >= t.len() {
        (TokenView { kind: TokenKindView::Eof, span: span_of(t, s, s) }, s)
    } else {
        let (k, e) = lex_token(t, s);
        (TokenView { kind: k, span: span_of(t, s, e) }, e)
    }
}


pub proof fn lemma_string_body_bounds(t: Seq<char>, p: int, acc: Seq<char>)
    requires
        0 <= p <= t.len(),
    ensures
        p <= string_body(t, p, acc).1 <= t.len(),
    decreases t.len() - p,
{
    if p < t.len() && t[p] != '"' && t[p] != '\n' {
        if t[p] == '\\' {
            if p + 1 < t.len() {
                lemma_string_body_bounds(t, p + 2, acc.push(string_escape(t[p + 1])));
            } else {
                lemma_string_body_bounds(t, p + 1, acc);
            }
        } else {
            lemma_string_body_bounds(t, p + 1, acc.push(t[p]));
        }
    }
}

pub proof fn lemma_find_triple_quote_bounds(t: Seq<char>, p: int)
    requires
        0 <= p <= t.len(),
    ensures
        p <= find_triple_quote(t, p) <= t.len(),
        find_triple_quote(t, p) < t.len() ==> find_triple_quote(t, p) + 3 <= t.len(),
    decreases t.len() - p,
{
    if p < t.len() && !(t[p] == '"' && char_at(t, p + 1) == Some('"') && char_at(t, p + 2) == Some(
        '"',
    )) {
        lemma_find_triple_quote_bounds(t, p + 1);
    }
}

pub proof fn lemma_decimal_end_bounds(t: Seq<char>, p: int)
    requires
        0 <= p <= t.len(),
    ensures
        p <= decimal_end(t, p) <= t.len(),
    decreases t.len() - p,
{
    if p < t.len() && (is_digit(t[p]) || t[p] == '_') {
        lemma_decimal_end_bounds(t, p + 1);
    } else if p < t.len() && t[p] == '.' && p + 1 < t.len() && is_digit(t[p + 1]) {
        lemma_decimal_end_bounds(t, p + 1);
    }
}

/// Every token that is not `Eof` takes at least one character.
pub proof fn lemma_lex_token_progress(t: Seq<char>, s: int)
    requires
        0 <= s < t.len(),
    ensures
        s < lex_token(t, s).1 <= t.len(),
{
    let k = s + 1;
    let c = t[s];
    lemma_string_body_bounds(t, k, seq![]);
    if k + 1 <= t.len() {
        lemma_find_char_bounds(t, k + 1, '"');
    }
    lemma_run_end_bounds(t, k, CharClass::Word);
    if c == '"' {
        if k + 2 <= t.len() {
            lemma_find_triple_quote_bounds(t, k + 2);
        }
    }
    if is_digit(c) {
        lemma_decimal_end_bounds(t, k);
        if k + 1 <= t.len() {
            lemma_run_end_bounds(t, k + 1, CharClass::HexOrUnderscore);
            lemma_run_end_bounds(t, k + 1, CharClass::BinOrUnderscore);
            lemma_run_end_bounds(t, run_end(t, k + 1, CharClass::HexOrUnderscore), CharClass::Alnum);
            lemma_run_end_bounds(t, run_end(t, k + 1, CharClass::BinOrUnderscore), CharClass::Alnum);
        }
        let e = decimal_end(t, k);
        lemma_run_end_bounds(t, e, CharClass::Alnum);
    }
}

proof fn lemma_string_body_not_eof(t: Seq<char>, p: int, acc: Seq<char>)
    ensures
        !(string_body(t, p, acc).0 is Eof),
    decreases t.len() - p,
{
    if 0 <= p < t.len() && t[p] != '"' && t[p] != '\n' {
        if t[p] == '\\' {
            if p + 1 < t.len() {
                lemma_string_body_not_eof(t, p + 2, acc.push(string_escape(t[p + 1])));
            } else {
                lemma_string_body_not_eof(t, p + 1, acc);
            }
        } else {
            lemma_string_body_not_eof(t, p + 1, acc.push(t[p]));
        }
    }
}

/// The lexer produces `Eof` only at the end of the input.
pub proof fn lemma_lex_token_not_eof(t: Seq<char>, s: int)
    requires
        0 <= s < t.len(),
    ensures
        !(lex_token(t, s).0 is Eof),
{
    lemma_string_body_not_eof(t, s + 1, seq![]);
    let c = t[s];
    if is_alpha(c) || c == '_' {
        let e = run_end(t, s + 1, CharClass::Word);
        assert(!(keyword_or_ident(t.subrange(s, e)) is Eof));
    }
}

} // verus!
