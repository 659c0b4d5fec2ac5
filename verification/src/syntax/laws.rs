//! Properties of the lexer and the parser as a whole, over many calls.

use vstd::prelude::*;
use crate::syntax::chars::{
    byte_len, is_alpha, is_word, lemma_byte_len_take_mono,
};
use crate::syntax::scan::{
    chars_after_last_newline, count_newlines, find_char, lemma_find_char_bounds, lemma_line_col_bounds,
    lemma_run_end_bounds, line_col, run_end, CharClass,
};
use crate::syntax::itemspec::{
    file_spec, parse_file_spec,
};
use crate::syntax::lexspec::{
    next_token_spec, skip_trivia, lex_token, keyword_or_ident, string_body, string_escape, char_literal,
    lemma_skip_trivia_bounds,
    lemma_lex_token_progress, lemma_lex_token_not_eof,
};
use crate::syntax::parsespec::{
    advance_spec, assign_op_spec, expr_bp_spec, expr_spec, infix_info, is_block_expr, measure, lt,
    postfix_spec, prefix_spec, stmt_spec, type_spec, unary_spec, PState,
};
use crate::syntax::ast::{AssignOp, BinaryOp, ExprView, StmtView, UnaryOp};
use crate::syntax::number::{digit_value, digits_value, int_literal_value, is_radix_digit};
use crate::syntax::token::TokenKindView as TK;
use crate::syntax::token::TokenKindView;

verus! {

/// Once the lexer has produced `Eof`, it stays at the end of the input and
/// produces the same `Eof` token on every later call.
pub proof fn law_eof_repeats(t: Seq<char>, p: int)
    requires
        0 <= p <= t.len(),
        next_token_spec(t, p).0.kind is Eof,
    ensures
        next_token_spec(t, p).1 == t.len(),
        next_token_spec(t, next_token_spec(t, p).1) == next_token_spec(t, p),
{
    lemma_skip_trivia_bounds(t, p);
    let s = skip_trivia(t, p);
    if s < t.len() {
        lemma_lex_token_not_eof(t, s);
    }
    assert(skip_trivia(t, t.len() as int) == t.len());
}

/// The `Eof` token is empty and stands at the end of the input: both ends of
/// its span are the byte length of the text.
pub proof fn law_eof_span(t: Seq<char>, p: int)
    requires
        0 <= p <= t.len(),
        byte_len(t) <= usize::MAX,
        next_token_spec(t, p).0.kind is Eof,
    ensures
        next_token_spec(t, p).0.span.start == byte_len(t),
        next_token_spec(t, p).0.span.end == byte_len(t),
{
    law_eof_repeats(t, p);
    lemma_skip_trivia_bounds(t, p);
    let s = skip_trivia(t, p);
    if s < t.len() {
        lemma_lex_token_not_eof(t, s);
    }
    assert(t.take(t.len() as int) =~= t);
}

/// The line of position `p` is one more than the number of line feeds
/// before it, and its column one more than the number of characters between
/// the last of those line feeds and `p`.
pub proof fn law_line_col_counts(t: Seq<char>, p: int)
    requires
        0 <= p <= t.len(),
    ensures
        line_col(t, p) == (1 + count_newlines(t.take(p)), 1 + chars_after_last_newline(t.take(p))),
    decreases p,
{
    if p > 0 {
        law_line_col_counts(t, p - 1);
        assert(t.take(p).drop_last() =~= t.take(p - 1));
        assert(t.take(p).last() == t[p - 1]);
    } else {
        assert(t.take(p).len() == 0);
    }
}

/// A token starts where the whitespace and comments before it end: its
/// span starts at the byte offset of that position, its line is one more
/// than the number of line feeds before it, and its column one more than
/// the number of characters after the last of them. A token that is not
/// `Eof` spans at least one byte.
pub proof fn law_token_position(t: Seq<char>, p: int)
    requires
        0 <= p <= t.len(),
        t.len() < usize::MAX,
        byte_len(t) <= usize::MAX,
    ensures
        next_token_spec(t, p).0.span.start == byte_len(t.take(skip_trivia(t, p))),
        next_token_spec(t, p).0.span.line == 1 + count_newlines(t.take(skip_trivia(t, p))),
        next_token_spec(t, p).0.span.col == 1 + chars_after_last_newline(t.take(skip_trivia(t, p))),
        !(next_token_spec(t, p).0.kind is Eof) ==> next_token_spec(t, p).0.span.start
            < next_token_spec(t, p).0.span.end,
{
    lemma_skip_trivia_bounds(t, p);
    let s = skip_trivia(t, p);
    law_line_col_counts(t, s);
    lemma_line_col_bounds(t, s);
    assert(t.take(t.len() as int) =~= t);
    lemma_byte_len_take_mono(t, s, t.len() as int);
    if s < t.len() {
        lemma_lex_token_progress(t, s);
        let e = lex_token(t, s).1;
        lemma_byte_len_take_mono(t, s, e);
        lemma_byte_len_take_mono(t, e, t.len() as int);
    }
}

/// Each call of the lexer moves forward and stays within the input: it
/// produces `Eof` exactly when only whitespace and comments are left, and any
/// other token takes at least one character.
pub proof fn law_lexer_progress(t: Seq<char>, p: int)
    requires
        0 <= p <= t.len(),
    ensures
        p <= next_token_spec(t, p).1 <= t.len(),
        next_token_spec(t, p).0.kind is Eof <==> skip_trivia(t, p) == t.len(),
        !(next_token_spec(t, p).0.kind is Eof) ==> p < next_token_spec(t, p).1,
{
    lemma_skip_trivia_bounds(t, p);
    let s = skip_trivia(t, p);
    if s < t.len() {
        lemma_lex_token_progress(t, s);
        lemma_lex_token_not_eof(t, s);
    }
}

/// The lexer's position after `n` calls, starting at `p`.
pub open spec fn after_calls(t: Seq<char>, p: int, n: nat) -> int
    decreases n,
{
    if n == 0 {
        p
    } else {
        next_token_spec(t, after_calls(t, p, (n - 1) as nat)).1
    }
}

proof fn lemma_after_calls(t: Seq<char>, p: int, n: nat)
    requires
        0 <= p <= t.len(),
    ensures
        p <= after_calls(t, p, n) <= t.len(),
        p + n <= after_calls(t, p, n) || next_token_spec(t, after_calls(t, p, n)).0.kind is Eof,
    decreases n,
{
    if n > 0 {
        let m = (n - 1) as nat;
        lemma_after_calls(t, p, m);
        let q = after_calls(t, p, m);
        law_lexer_progress(t, q);
        if next_token_spec(t, q).0.kind is Eof {
            law_eof_repeats(t, q);
        }
    }
}

/// Starting at `p`, the lexer produces `Eof` by its call number
/// `t.len() - p + 1` at the latest.
pub proof fn law_eof_arrives(t: Seq<char>, p: int)
    requires
        0 <= p <= t.len(),
    ensures
        next_token_spec(t, after_calls(t, p, (t.len() - p) as nat)).0.kind is Eof,
{
    let n = (t.len() - p) as nat;
    lemma_after_calls(t, p, n);
    let q = after_calls(t, p, n);
    if !(next_token_spec(t, q).0.kind is Eof) {
        assert(q == t.len());
        law_lexer_progress(t, q);
        lemma_skip_trivia_bounds(t, q);
    }
}

/// A token's span runs forward, ends at the byte offset where the lexer stops,
/// and the next token starts no earlier than this one ends.
pub proof fn law_spans_in_order(t: Seq<char>, p: int)
    requires
        0 <= p <= t.len(),
        byte_len(t) <= usize::MAX,
    ensures
        next_token_spec(t, p).0.span.start <= next_token_spec(t, p).0.span.end,
        next_token_spec(t, p).0.span.end == byte_len(t.take(next_token_spec(t, p).1)),
        next_token_spec(t, p).0.span.end <= next_token_spec(t, next_token_spec(t, p).1).0.span.start,
{
    law_lexer_progress(t, p);
    lemma_skip_trivia_bounds(t, p);
    let s = skip_trivia(t, p);
    if s < t.len() {
        lemma_lex_token_progress(t, s);
    }
    let q = next_token_spec(t, p).1;
    law_lexer_progress(t, q);
    lemma_skip_trivia_bounds(t, q);
    let s2 = skip_trivia(t, q);
    assert(t.take(t.len() as int) =~= t);
    lemma_byte_len_take_mono(t, s, q);
    lemma_byte_len_take_mono(t, q, s2);
    lemma_byte_len_take_mono(t, s2, t.len() as int);
    lemma_byte_len_take_mono(t, q, t.len() as int);
}

/// A statement ends with `;`: after a declaration, a `defer`, an assignment or
/// an expression statement the last token consumed is `;`. Only an
/// expression statement whose expression is block-like (`if`, `match`, a
/// loop or a block) may go without one.
pub proof fn law_statements_end_with_semicolon(st: PState)
    ensures
        match stmt_spec(st) {
            (Ok(StmtView::Expr(e, _)), s) => !is_block_expr(e) ==> s.previous.kind is Semicolon,
            (Ok(_), s) => s.previous.kind is Semicolon,
            _ => true,
        },
{
    reveal(advance_spec);
}

/// An expression statement whose expression is not block-like and is not
/// followed by an assignment operator is accepted exactly when `;` follows
/// the expression, and that `;` is consumed.
pub proof fn law_expression_statement_needs_semicolon(st: PState)
    requires
        !(st.current.kind is Let || st.current.kind is Var || st.current.kind is Defer
            || st.current.kind is Errdefer),
    ensures
        match expr_spec(st) {
            (Ok(e), s1) => assign_op_spec(s1).0 is None && !is_block_expr(e) ==> (
            stmt_spec(st).0 is Ok <==> s1.current.kind is Semicolon) && (stmt_spec(st).0 is Ok
                ==> stmt_spec(st).1 == advance_spec(s1)),
            _ => true,
        },
{
}

/// A word that starts with a letter or `_` runs over the letters, digits and
/// underscores after it, and is lexed as the keyword it spells, as `true` or
/// `false`, or else as a name.
pub proof fn law_identifier_token(t: Seq<char>, s: int)
    requires
        0 <= s < t.len(),
        is_alpha(t[s]) || t[s] == '_',
    ensures
        s < run_end(t, s + 1, CharClass::Word) <= t.len(),
        forall|i: int| s <= i < run_end(t, s + 1, CharClass::Word) ==> is_word(#[trigger] t[i]),
        run_end(t, s + 1, CharClass::Word) < t.len() ==> !is_word(t[run_end(t, s + 1, CharClass::Word)]),
        lex_token(t, s) == (
            keyword_or_ident(t.subrange(s, run_end(t, s + 1, CharClass::Word))),
            run_end(t, s + 1, CharClass::Word),
        ),
{
    lemma_run_end_bounds(t, s + 1, CharClass::Word);
}

/// The items of a file are accepted only up to the end of the input: after a
/// successful parse the current token is `Eof`.
pub proof fn law_file_ends_at_eof(st: PState, acc: Seq<crate::syntax::ast::ItemView>)
    ensures
        file_spec(st, acc).0 is Ok ==> file_spec(st, acc).1.current.kind is Eof,
    decreases measure(st),
{
    if !(st.current.kind is Eof) {
        match crate::syntax::itemspec::item_spec(st) {
            (Ok(item), s1) => if lt(s1, st) {
                law_file_ends_at_eof(s1, acc.push(item));
            },
            (Err(_), _) => {},
        }
    }
}

/// A whole file parses only when every token of it is consumed.
pub proof fn law_parse_consumes_input(st: PState)
    ensures
        parse_file_spec(st).0 is Ok ==> parse_file_spec(st).1.current.kind is Eof,
{
    law_file_ends_at_eof(st, seq![]);
}

/// The word operators `bitand`, `bitor` and `bitxor` bind exactly as `&`,
/// `|` and `^` do and build the same operations.
pub proof fn law_word_operators()
    ensures
        infix_info(TK::BitAnd) == infix_info(TK::Ampersand),
        infix_info(TK::BitOr) == infix_info(TK::Pipe),
        infix_info(TK::BitXor) == infix_info(TK::Caret),
{
}

/// The left binding power of an infix operator token, or -1.
pub open spec fn left_bp(k: TK) -> int {
    match infix_info(k) {
        Some((_, l, _)) => l as int,
        None => -1,
    }
}

/// The right binding power of an infix operator token, or -1.
pub open spec fn right_bp(k: TK) -> int {
    match infix_info(k) {
        Some((_, _, r)) => r as int,
        None => -1,
    }
}

/// The operation of an infix operator token (`None` for `??` and non-operators).
pub open spec fn infix_op(k: TK) -> Option<BinaryOp> {
    match infix_info(k) {
        Some((op, _, _)) => op,
        None => None,
    }
}

/// Every binary operator is left-associative: its right binding power is
/// one more than its left one, so an operator of the same precedence after
/// the right operand is not taken into it (`a - b - c` is `(a - b) - c`).
/// `+` and `-` (and their wrapping forms) share one precedence, as do `*`,
/// `/` and `%`, and precedence rises from `??` through `||`, `&&`,
/// comparisons, `|`, `^`, `&`, shifts and additions to multiplications.
pub proof fn law_binary_operators_left_associative(k: TK)
    ensures
        match infix_info(k) {
            Some((_, l, r)) => r == l + 1,
            None => true,
        },
        infix_info(TK::Minus) == Some((Some(BinaryOp::Sub), left_bp(TK::Plus) as u8, right_bp(TK::Plus) as u8)),
        left_bp(TK::Plus) >= 0,
        infix_op(TK::Plus) == Some(BinaryOp::Add),
        left_bp(TK::MinusPercent) == left_bp(TK::Plus),
        left_bp(TK::PlusPercent) == left_bp(TK::Plus),
        left_bp(TK::Slash) == left_bp(TK::Star),
        left_bp(TK::Percent) == left_bp(TK::Star),
        left_bp(TK::QuestionQuestion) < left_bp(TK::PipePipe),
        left_bp(TK::PipePipe) < left_bp(TK::AmpAmp),
        left_bp(TK::AmpAmp) < left_bp(TK::EqEq),
        left_bp(TK::EqEq) < left_bp(TK::Lt),
        left_bp(TK::Lt) < left_bp(TK::Pipe),
        left_bp(TK::Pipe) < left_bp(TK::Caret),
        left_bp(TK::Caret) < left_bp(TK::Ampersand),
        left_bp(TK::Ampersand) < left_bp(TK::Shl),
        left_bp(TK::Shl) < left_bp(TK::Plus),
        left_bp(TK::Plus) < left_bp(TK::Star),
{
}

/// After a binary operator of left binding power at least `min_bp`, the right
/// operand is read with a higher minimum than that operator's left binding
/// power, so it stops before the next operator of the same precedence; the
/// operation built joins `lhs` and that operand.
pub proof fn law_infix_right_operand_stops_at_same_precedence(
    st: PState,
    lhs: ExprView,
    min_bp: u8,
    structs: bool,
)
    requires
        infix_info(st.current.kind) is Some,
        infix_op(st.current.kind) is Some,
        left_bp(st.current.kind) >= min_bp,
        !(st.current.kind is OpenParen || st.current.kind is OpenBracket || st.current.kind is DotStar
            || st.current.kind is QuestionDot || st.current.kind is Dot || st.current.kind is Catch
            || st.current.kind is Bang),
    ensures
        ({
            let (op, l, r) = infix_info(st.current.kind).unwrap();
            let s1 = advance_spec(st);
            lt(s1, st) ==> match expr_bp_spec(s1, r, structs) {
                (Ok(rhs), s2) => lt(s2, st) ==> postfix_spec(st, lhs, min_bp, structs) == postfix_spec(
                    s2,
                    ExprView::Binary(Box::new(lhs), op->0, Box::new(rhs), st.current.span),
                    min_bp,
                    structs,
                ),
                (Err(e), s2) => postfix_spec(st, lhs, min_bp, structs) == (Err::<ExprView, Seq<char>>(e), s2),
            } && l < r
        }),
{
}

/// Each assignment token gives its own operator and is consumed: `=` gives
/// `Assign`, `+=` `PlusAssign`, `-=` `MinusAssign`, `*=` `StarAssign`, `/=`
/// `SlashAssign`; any other token gives none and is left in place.
pub proof fn law_assignment_operators(st: PState)
    ensures
        (assign_op_spec(st).0 == Some(AssignOp::Assign)) <==> st.current.kind is Eq,
        (assign_op_spec(st).0 == Some(AssignOp::PlusAssign)) <==> st.current.kind is PlusEq,
        (assign_op_spec(st).0 == Some(AssignOp::MinusAssign)) <==> st.current.kind is MinusEq,
        (assign_op_spec(st).0 == Some(AssignOp::StarAssign)) <==> st.current.kind is StarEq,
        (assign_op_spec(st).0 == Some(AssignOp::SlashAssign)) <==> st.current.kind is SlashEq,
        assign_op_spec(st).0 is Some ==> assign_op_spec(st).1 == advance_spec(st),
        assign_op_spec(st).0 is None ==> assign_op_spec(st).1 == st,
{
}

/// An assignment statement assigns to the expression it starts with, with
/// the operator that the token after that expression spells: `x -= 1` is a
/// `MinusAssign` to `x`.
pub proof fn law_assignment_statement(st: PState)
    requires
        !(st.current.kind is Let || st.current.kind is Var || st.current.kind is Defer
            || st.current.kind is Errdefer),
    ensures
        match (expr_spec(st), stmt_spec(st)) {
            ((Ok(e), s1), (Ok(StmtView::Assign(target, op, _, _)), _)) => target == e && (op
                == AssignOp::MinusAssign <==> s1.current.kind is MinusEq) && (op == AssignOp::PlusAssign
                <==> s1.current.kind is PlusEq) && (op == AssignOp::Assign <==> s1.current.kind is Eq) && (
            op == AssignOp::StarAssign <==> s1.current.kind is StarEq) && (op == AssignOp::SlashAssign
                <==> s1.current.kind is SlashEq),
            _ => true,
        },
{
}

/// A pointer type `*T` is constant exactly when `const` follows the `*`; a
/// reference `&T` is constant unless `mut` follows the `&`.
pub proof fn law_pointer_constness(st: PState)
    ensures
        st.current.kind is Star ==> match type_spec(st) {
            (Ok(ty), _) => ty is Pointer && ty->Pointer_1 == (advance_spec(st).current.kind is Const),
            _ => true,
        },
        st.current.kind is Ampersand ==> match type_spec(st) {
            (Ok(ty), _) => ty is Pointer && ty->Pointer_1 == (advance_spec(st).current.kind != TK::Ident(
                "mut"@,
            )),
            _ => true,
        },
{
}

/// In a one-line string literal a backslash and the character after it stand
/// for one character: line feed (U+000A) for `n`, carriage return (U+000D)
/// for `r`, tab (U+0009) for `t`, NUL (U+0000) for `0`, and the character
/// itself for anything else; reading goes on after the two. Of the printable
/// characters, exactly these four escape to control characters.
pub proof fn law_string_escapes(t: Seq<char>, p: int, acc: Seq<char>)
    requires
        0 <= p,
        p + 1 < t.len(),
        t[p] == '\\',
    ensures
        string_body(t, p, acc) == string_body(
            t,
            p + 2,
            acc.push(
                if t[p + 1] == 'n' {
                    '\u{a}'
                } else if t[p + 1] == 'r' {
                    '\u{d}'
                } else if t[p + 1] == 't' {
                    '\u{9}'
                } else if t[p + 1] == '0' {
                    '\u{0}'
                } else {
                    t[p + 1]
                },
            ),
        ),
        (t[p + 1] as u32) >= 0x20 ==> ((string_escape(t[p + 1]) as u32) < 0x20 <==> (t[p + 1] == 'n'
            || t[p + 1] == 'r' || t[p + 1] == 't' || t[p + 1] == '0')),
{
}

/// Whether `a` and `b` are the same hex digit, perhaps in different case.
pub open spec fn same_hex_digit(a: char, b: char) -> bool {
    ||| a == b
    ||| 'a' <= a <= 'f' && (b as int) == (a as int) - 32
    ||| 'A' <= a <= 'F' && (b as int) == (a as int) + 32
}

/// Decimal digits are worth their distance from `0`, and the letters `a`-`f`
/// in either case are worth 10 to 15 in order.
pub proof fn law_digit_values(c: char)
    ensures
        '0' <= c <= '9' ==> digit_value(c) == (c as int) - ('0' as int),
        'a' <= c <= 'f' ==> digit_value(c) == 10 + (c as int) - ('a' as int),
        'A' <= c <= 'F' ==> digit_value(c) == 10 + (c as int) - ('A' as int),
        is_radix_digit(c, 16) ==> digit_value(c) < 16,
        is_radix_digit(c, 10) ==> digit_value(c) < 10,
        is_radix_digit(c, 2) ==> digit_value(c) < 2,
{
}

/// The value of hex digits does not depend on the case of their letters:
/// `0xff` and `0xFF` are the same number.
pub proof fn law_hex_value_ignores_case(a: Seq<char>, b: Seq<char>)
    requires
        a.len() == b.len(),
        forall|i: int| 0 <= i < a.len() ==> same_hex_digit(#[trigger] a[i], b[i]),
    ensures
        digits_value(a, 16) == digits_value(b, 16),
        int_literal_value(a, 16) == int_literal_value(b, 16),
    decreases a.len(),
{
    if a.len() > 0 {
        law_hex_value_ignores_case(a.drop_last(), b.drop_last());
        assert(same_hex_digit(a[a.len() - 1], b[b.len() - 1]));
    }
}

/// Appending a digit multiplies the value so far by the base and adds the
/// digit's value: the digits are read as a number in that base.
pub proof fn law_digits_positional(ds: Seq<char>, c: char, radix: nat)
    ensures
        digits_value(ds.push(c), radix) == digits_value(ds, radix) * radix + digit_value(c),
{
    assert(ds.push(c).drop_last() =~= ds);
}

/// Each operator token builds its own operation: `+` addition, `-`
/// subtraction, `*` multiplication, `/` division, `%` remainder, the `%`
/// forms their wrapping versions, `&`/`|`/`^` and their word forms the bit
/// operations, `<<`/`>>` shifts, `&&`/`||` the logical ones, and the six
/// comparisons; `??` builds no binary operation.
pub proof fn law_operator_tokens()
    ensures
        infix_op(TK::Plus) == Some(BinaryOp::Add),
        infix_op(TK::Minus) == Some(BinaryOp::Sub),
        infix_op(TK::Star) == Some(BinaryOp::Mul),
        infix_op(TK::Slash) == Some(BinaryOp::Div),
        infix_op(TK::Percent) == Some(BinaryOp::Mod),
        infix_op(TK::PlusPercent) == Some(BinaryOp::AddWrap),
        infix_op(TK::MinusPercent) == Some(BinaryOp::SubWrap),
        infix_op(TK::StarPercent) == Some(BinaryOp::MulWrap),
        infix_op(TK::Ampersand) == Some(BinaryOp::BitAnd),
        infix_op(TK::Pipe) == Some(BinaryOp::BitOr),
        infix_op(TK::Caret) == Some(BinaryOp::BitXor),
        infix_op(TK::Shl) == Some(BinaryOp::Shl),
        infix_op(TK::Shr) == Some(BinaryOp::Shr),
        infix_op(TK::AmpAmp) == Some(BinaryOp::LogicalAnd),
        infix_op(TK::PipePipe) == Some(BinaryOp::LogicalOr),
        infix_op(TK::EqEq) == Some(BinaryOp::Eq),
        infix_op(TK::NotEq) == Some(BinaryOp::NotEq),
        infix_op(TK::Lt) == Some(BinaryOp::Lt),
        infix_op(TK::LtEq) == Some(BinaryOp::LtEq),
        infix_op(TK::Gt) == Some(BinaryOp::Gt),
        infix_op(TK::GtEq) == Some(BinaryOp::GtEq),
        infix_info(TK::QuestionQuestion) is Some && infix_op(TK::QuestionQuestion) is None,
        left_bp(TK::Minus) == left_bp(TK::Plus) && left_bp(TK::StarPercent) == left_bp(TK::Star),
        left_bp(TK::NotEq) == left_bp(TK::EqEq) && left_bp(TK::LtEq) == left_bp(TK::Lt),
        left_bp(TK::Gt) == left_bp(TK::Lt) && left_bp(TK::GtEq) == left_bp(TK::Lt),
        left_bp(TK::Shr) == left_bp(TK::Shl),
{
}

/// A prefix `!`, `-`, `~` or `&` builds the unary operation it names (not,
/// negation, bit complement, address) around the operand after it.
pub proof fn law_unary_operators(st: PState, structs: bool)
    ensures
        match prefix_spec(st, structs) {
            (Ok(e), _) => (st.current.kind is Bang ==> e is Unary && e->Unary_0 == UnaryOp::Not) && (
            st.current.kind is Minus ==> e is Unary && e->Unary_0 == UnaryOp::Neg) && (st.current.kind is Tilde
                ==> e is Unary && e->Unary_0 == UnaryOp::BitNot) && (st.current.kind is Ampersand ==> e is Unary
                && e->Unary_0 == UnaryOp::AddressOf),
            _ => true,
        },
{
    let s1 = advance_spec(st);
    if lt(s1, st) {
        if st.current.kind is Bang || st.current.kind is Minus || st.current.kind is Tilde
            || st.current.kind is Ampersand {
            let op = if st.current.kind is Bang {
                UnaryOp::Not
            } else if st.current.kind is Minus {
                UnaryOp::Neg
            } else if st.current.kind is Tilde {
                UnaryOp::BitNot
            } else {
                UnaryOp::AddressOf
            };
            assert(prefix_spec(st, structs) == unary_spec(s1, op, st.current.span, structs));
        }
    }
}

/// In a character literal a backslash and the character after it stand for
/// one character: line feed for `n`, tab for `t`, NUL for `0`, and the
/// character itself otherwise (a quote or backslash among them); the literal
/// then needs its closing quote.
pub proof fn law_char_escapes(t: Seq<char>, k: int)
    requires
        0 <= k,
        k + 2 < t.len(),
        t[k] == '\\',
        t[k + 2] == '\'',
    ensures
        char_literal(t, k) == (
            TokenKindView::CharLit(
                if t[k + 1] == 'n' {
                    '\u{a}'
                } else if t[k + 1] == 't' {
                    '\u{9}'
                } else if t[k + 1] == '0' {
                    '\u{0}'
                } else {
                    t[k + 1]
                },
            ),
            k + 3,
        ),
{
}

/// Words and the tokens they lex to correspond one to one: two words give
/// the same token only when they are the same word, and a word that is no
/// keyword, `true` or `false` is a name that keeps its spelling.
pub proof fn law_words_are_distinct(w1: Seq<char>, w2: Seq<char>)
    ensures
        keyword_or_ident(w1) == keyword_or_ident(w2) ==> w1 == w2,
        keyword_or_ident(w1) is Ident ==> keyword_or_ident(w1) == TK::Ident(w1),
        keyword_or_ident(w1) is BoolLit ==> (w1 == "true"@ || w1 == "false"@),
{
}

} // verus!
