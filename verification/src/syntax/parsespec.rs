//! What the parser produces, stated over the parser's state: the source text,
//! the lexer's position, and the current and previous tokens.
//!
//! Each function gives the result and the state after it. Recursive calls are
//! made only on states of smaller `measure` (or equal measure and a lower
//! rank); the executable parser proves that these conditions always hold, so
//! the `Err(seq![])` results that guard them are never produced.

use vstd::prelude::*;
use crate::syntax::ast::{
    AssignOp, BinaryOp, BlockView, CallArgView, ExprView, FieldInitView, MatchArmBodyView,
    MatchArmView, PatternView, StmtView, TypeExprView, UnaryOp, VarDeclView,
};
use crate::syntax::diag::{
    bad_array_length_text, expected_text, unexpected_prefix_text,
};
use crate::syntax::lexspec::next_token_spec;
use crate::syntax::token::{
    Span, TokenView, token_kind_debug,
};
use crate::syntax::token::TokenKindView as TK;

verus! {

/// The parser's state: the text and lexer position, and the current and previous tokens.
pub struct PState {
    pub text: Seq<char>,
    pub pos: int,
    pub current: TokenView,
    pub previous: TokenView,
}

/// A parse result with the state after it.
pub type PResult<T> = (Result<T, Seq<char>>, PState);

/// Characters left to lex, plus one while the current token is not `Eof`.
/// Consuming a token that is not `Eof` makes it smaller.
#[verifier::opaque]
pub open spec fn measure(st: PState) -> int {
    (st.text.len() - st.pos) + if st.current.kind is Eof {
        0int
    } else {
        1int
    }
}

pub open spec fn lt(a: PState, b: PState) -> bool {
    0 <= measure(a) < measure(b)
}

pub open spec fn le(a: PState, b: PState) -> bool {
    0 <= measure(a) <= measure(b)
}

pub open spec fn stuck<T>(st: PState) -> PResult<T> {
    (Err(seq![]), st)
}

/// Moves to the next token: the current one becomes the previous one.
#[verifier::opaque]
pub open spec fn advance_spec(st: PState) -> PState {
    let (tok, p) = next_token_spec(st.text, st.pos);
    PState { text: st.text, pos: p, current: tok, previous: st.current }
}

/// The state of a new parser over a lexer at `pos`: the first token is current.
#[verifier::opaque]
pub open spec fn start_spec(text: Seq<char>, pos: int) -> PState {
    let (tok, p) = next_token_spec(text, pos);
    PState {
        text,
        pos: p,
        current: tok,
        previous: TokenView { kind: TK::Eof, span: Span { start: 0, end: 0, line: 1, col: 1 } },
    }
}

pub open spec fn check_spec(st: PState, k: TK) -> bool {
    st.current.kind == k
}

/// Consumes the current token when it is `k`.
pub open spec fn match_spec(st: PState, k: TK) -> (bool, PState) {
    if check_spec(st, k) {
        (true, advance_spec(st))
    } else {
        (false, st)
    }
}

/// The message for a missing `what` where the current token stands.
#[verifier::opaque]
pub open spec fn expected_msg(st: PState, what: Seq<char>) -> Seq<char> {
    expected_text(st.current.span.line, st.current.span.col, what, token_kind_debug(st.current.kind))
}

/// Consumes the current token, which must be `k`, and gives it back.
pub open spec fn expect_spec(st: PState, k: TK, what: Seq<char>) -> PResult<TokenView> {
    if check_spec(st, k) {
        (Ok(st.current), advance_spec(st))
    } else {
        (Err(expected_msg(st, what)), st)
    }
}

/// Consumes the current token, which must be an identifier, and gives its name.
pub open spec fn expect_ident_spec(st: PState, what: Seq<char>) -> PResult<Seq<char>> {
    match st.current.kind {
        TK::Ident(s) => (Ok(s), advance_spec(st)),
        _ => (Err(expected_msg(st, what)), st),
    }
}

/// Consumes a closing parenthesis when an opening one was consumed.
pub open spec fn close_paren_spec(st: PState, has_paren: bool, what: Seq<char>) -> PResult<()> {
    if has_paren {
        match expect_spec(st, TK::CloseParen, what) {
            (Ok(_), s) => (Ok(()), s),
            (Err(e), s) => (Err(e), s),
        }
    } else {
        (Ok(()), st)
    }
}

// ---------------------------------------------------------------------------
// Types
// ---------------------------------------------------------------------------

/// Consumes the `>` that closes type arguments; of a `>>` only the first `>`
/// is consumed, and a `>` with the same span is left as the current token.
pub open spec fn close_angle_spec(st: PState) -> PResult<()> {
    if check_spec(st, TK::Gt) {
        (Ok(()), advance_spec(st))
    } else if check_spec(st, TK::Shr) {
        (Ok(()), PState { current: TokenView { kind: TK::Gt, span: st.current.span }, ..st })
    } else {
        (Err(expected_msg(st, "'>' after type arguments"@)), st)
    }
}

/// A type: `!T`, `?T`, `*T`, `*const T`, a reference `&T` (constant) or
/// `&mut T`, `[]T`, `[]const T`, `[const T]`, `[N]T` with `N` an integer
/// literal, `anytype`, a name, or a name with type arguments `Name<T, ...>`.
pub open spec fn type_spec(st: PState) -> PResult<TypeExprView>
    decreases measure(st), 1int,
{
    let span = st.current.span;
    if check_spec(st, TK::Bang) {
        let s1 = advance_spec(st);
        if lt(s1, st) {
            match type_spec(s1) {
                (Ok(inner), s2) => (Ok(TypeExprView::ErrorUnion(None, Box::new(inner), span)), s2),
                (Err(e), s2) => (Err(e), s2),
            }
        } else {
            stuck(s1)
        }
    } else if check_spec(st, TK::Question) {
        let s1 = advance_spec(st);
        if lt(s1, st) {
            match type_spec(s1) {
                (Ok(inner), s2) => (Ok(TypeExprView::Optional(Box::new(inner), span)), s2),
                (Err(e), s2) => (Err(e), s2),
            }
        } else {
            stuck(s1)
        }
    } else if check_spec(st, TK::Star) {
        let s1 = advance_spec(st);
        let (is_const, s2) = match_spec(s1, TK::Const);
        if lt(s2, st) {
            match type_spec(s2) {
                (Ok(inner), s3) => (Ok(TypeExprView::Pointer(Box::new(inner), is_const, span)), s3),
                (Err(e), s3) => (Err(e), s3),
            }
        } else {
            stuck(s2)
        }
    } else if check_spec(st, TK::Ampersand) {
        let s1 = advance_spec(st);
        let (is_mut, s2) = match_spec(s1, TK::Ident("mut"@));
        if lt(s2, st) {
            match type_spec(s2) {
                (Ok(inner), s3) => (Ok(TypeExprView::Pointer(Box::new(inner), !is_mut, span)), s3),
                (Err(e), s3) => (Err(e), s3),
            }
        } else {
            stuck(s2)
        }
    } else if check_spec(st, TK::OpenBracket) {
        let s1 = advance_spec(st);
        if check_spec(s1, TK::Const) {
            let s2 = advance_spec(s1);
            if lt(s2, st) {
                match type_spec(s2) {
                    (Ok(inner), s3) => match expect_spec(s3, TK::CloseBracket, "']' after slice element type"@) {
                        (Ok(_), s4) => (Ok(TypeExprView::Slice(Box::new(inner), span)), s4),
                        (Err(e), s4) => (Err(e), s4),
                    },
                    (Err(e), s3) => (Err(e), s3),
                }
            } else {
                stuck(s2)
            }
        } else if check_spec(s1, TK::CloseBracket) {
            let s2 = advance_spec(s1);
            let (_c, s3) = match_spec(s2, TK::Const);
            if lt(s3, st) {
                match type_spec(s3) {
                    (Ok(inner), s4) => (Ok(TypeExprView::Slice(Box::new(inner), span)), s4),
                    (Err(e), s4) => (Err(e), s4),
                }
            } else {
                stuck(s3)
            }
        } else {
            match s1.current.kind {
                TK::Int(v, _) => {
                    let s2 = advance_spec(s1);
                    match expect_spec(s2, TK::CloseBracket, "']' after array length"@) {
                        (Ok(_), s3) => if lt(s3, st) {
                            match type_spec(s3) {
                                (Ok(inner), s4) => (Ok(TypeExprView::Array(Box::new(inner), v as usize, span)), s4),
                                (Err(e), s4) => (Err(e), s4),
                            }
                        } else {
                            stuck(s3)
                        },
                        (Err(e), s3) => (Err(e), s3),
                    }
                },
                _ => (
                    Err(
                        bad_array_length_text(
                            s1.current.span.line,
                            s1.current.span.col,
                            token_kind_debug(s1.current.kind),
                        ),
                    ),
                    s1,
                ),
            }
        }
    } else {
        named_type_spec(st)
    }
}

/// A type name, `anytype`, or a name with type arguments `Name<T, ...>`.
pub open spec fn named_type_spec(st: PState) -> PResult<TypeExprView>
    decreases measure(st), 0int,
{
    let span = st.current.span;
    match expect_ident_spec(st, "type name"@) {
        (Ok(name), s1) => {
            if name == "anytype"@ {
                (Ok(TypeExprView::Anytype(span)), s1)
            } else if check_spec(s1, TK::Lt) {
                let s2 = advance_spec(s1);
                if lt(s2, st) {
                    match type_args_spec(s2, seq![]) {
                        (Ok(args), s3) => match close_angle_spec(s3) {
                            (Ok(_), s4) => (
                                Ok(
                                    TypeExprView::Generic(
                                        Box::new(TypeExprView::Named(name, span)),
                                        args,
                                        span,
                                    ),
                                ),
                                s4,
                            ),
                            (Err(e), s4) => (Err(e), s4),
                        },
                        (Err(e), s3) => (Err(e), s3),
                    }
                } else {
                    stuck(s2)
                }
            } else {
                (Ok(TypeExprView::Named(name, span)), s1)
            }
        },
        (Err(e), s1) => (Err(e), s1),
    }
}

/// Type arguments separated by commas, after `acc`.
pub open spec fn type_args_spec(st: PState, acc: Seq<TypeExprView>) -> PResult<Seq<TypeExprView>>
    decreases measure(st), 2int,
{
    match type_spec(st) {
        (Ok(t), s1) => {
            let acc2 = acc.push(t);
            if check_spec(s1, TK::Comma) {
                let s2 = advance_spec(s1);
                if lt(s2, st) {
                    type_args_spec(s2, acc2)
                } else {
                    stuck(s2)
                }
            } else {
                (Ok(acc2), s1)
            }
        },
        (Err(e), s1) => (Err(e), s1),
    }
}


// ---------------------------------------------------------------------------
// Expressions and statements
// ---------------------------------------------------------------------------

/// The infix operators: the operator (`None` for `??`) and the left and right
/// binding powers. Word operators `bitand`, `bitor`, `bitxor` bind as `&`, `|`, `^`.
pub open spec fn infix_info(k: TK) -> Option<(Option<BinaryOp>, u8, u8)> {
    match k {
        TK::QuestionQuestion => Some((None, 1, 2)),
        TK::PipePipe => Some((Some(BinaryOp::LogicalOr), 3, 4)),
        TK::AmpAmp => Some((Some(BinaryOp::LogicalAnd), 5, 6)),
        TK::EqEq => Some((Some(BinaryOp::Eq), 7, 8)),
        TK::NotEq => Some((Some(BinaryOp::NotEq), 7, 8)),
        TK::Lt => Some((Some(BinaryOp::Lt), 9, 10)),
        TK::LtEq => Some((Some(BinaryOp::LtEq), 9, 10)),
        TK::Gt => Some((Some(BinaryOp::Gt), 9, 10)),
        TK::GtEq => Some((Some(BinaryOp::GtEq), 9, 10)),
        TK::Pipe => Some((Some(BinaryOp::BitOr), 11, 12)),
        TK::BitOr => Some((Some(BinaryOp::BitOr), 11, 12)),
        TK::Caret => Some((Some(BinaryOp::BitXor), 13, 14)),
        TK::BitXor => Some((Some(BinaryOp::BitXor), 13, 14)),
        TK::Ampersand => Some((Some(BinaryOp::BitAnd), 15, 16)),
        TK::BitAnd => Some((Some(BinaryOp::BitAnd), 15, 16)),
        TK::Shl => Some((Some(BinaryOp::Shl), 17, 18)),
        TK::Shr => Some((Some(BinaryOp::Shr), 17, 18)),
        TK::Plus => Some((Some(BinaryOp::Add), 19, 20)),
        TK::Minus => Some((Some(BinaryOp::Sub), 19, 20)),
        TK::PlusPercent => Some((Some(BinaryOp::AddWrap), 19, 20)),
        TK::MinusPercent => Some((Some(BinaryOp::SubWrap), 19, 20)),
        TK::Star => Some((Some(BinaryOp::Mul), 21, 22)),
        TK::Slash => Some((Some(BinaryOp::Div), 21, 22)),
        TK::Percent => Some((Some(BinaryOp::Mod), 21, 22)),
        TK::StarPercent => Some((Some(BinaryOp::MulWrap), 21, 22)),
        _ => None,
    }
}

/// The message for a token that cannot start an expression.
#[verifier::opaque]
pub open spec fn prefix_error(tok: TokenView) -> Seq<char> {
    unexpected_prefix_text(tok.span.line, tok.span.col, token_kind_debug(tok.kind))
}

/// An expression.
pub open spec fn expr_spec(st: PState) -> PResult<ExprView>
    decreases measure(st), 4int,
{
    expr_bp_spec(st, 0, true)
}

/// An operand and the operators that follow it, with infix operators whose
/// left binding power is at least `min_bp`. Unless `structs` holds, a name
/// followed by `{` is not read as a struct initializer (as in a condition
/// without parentheses, where the `{` opens the block that follows).
pub open spec fn expr_bp_spec(st: PState, min_bp: u8, structs: bool) -> PResult<ExprView>
    decreases measure(st), 3int,
{
    match prefix_spec(st, structs) {
        (Ok(lhs), s1) => if lt(s1, st) {
            postfix_spec(s1, lhs, min_bp, structs)
        } else {
            stuck(s1)
        },
        (Err(e), s1) => (Err(e), s1),
    }
}

/// The postfix operators `(...)`, `[index]`, `.*`, `?.name`, `.name`, `.name(...)`,
/// `catch e`, `as T`, `!`, and the infix operators, applied to `lhs`.
pub open spec fn postfix_spec(st: PState, lhs: ExprView, min_bp: u8, structs: bool) -> PResult<ExprView>
    decreases measure(st), 2int,
{
    if check_spec(st, TK::OpenParen) {
        match call_spec(st, lhs) {
            (Ok(e), s1) => if lt(s1, st) {
                postfix_spec(s1, e, min_bp, structs)
            } else {
                stuck(s1)
            },
            (Err(e), s1) => (Err(e), s1),
        }
    } else if check_spec(st, TK::OpenBracket) {
        let span = st.current.span;
        let s1 = advance_spec(st);
        if lt(s1, st) {
            match expr_spec(s1) {
                (Ok(index), s2) => match expect_spec(s2, TK::CloseBracket, "']' after index"@) {
                    (Ok(_), s3) => if lt(s3, st) {
                        postfix_spec(s3, ExprView::Index(Box::new(lhs), Box::new(index), span), min_bp, structs)
                    } else {
                        stuck(s3)
                    },
                    (Err(e), s3) => (Err(e), s3),
                },
                (Err(e), s2) => (Err(e), s2),
            }
        } else {
            stuck(s1)
        }
    } else if check_spec(st, TK::DotStar) {
        let s1 = advance_spec(st);
        if lt(s1, st) {
            postfix_spec(s1, ExprView::Deref(Box::new(lhs), s1.previous.span), min_bp, structs)
        } else {
            stuck(s1)
        }
    } else if check_spec(st, TK::QuestionDot) {
        let s1 = advance_spec(st);
        match expect_ident_spec(s1, "member name after '?.'"@) {
            (Ok(member), s2) => if lt(s2, st) {
                postfix_spec(
                    s2,
                    ExprView::OptionalChaining(Box::new(lhs), member, s2.previous.span),
                    min_bp,
                    structs,
                )
            } else {
                stuck(s2)
            },
            (Err(e), s2) => (Err(e), s2),
        }
    } else if check_spec(st, TK::Dot) {
        let s1 = advance_spec(st);
        match expect_ident_spec(s1, "field or method name"@) {
            (Ok(member), s2) => if !lt(s2, st) {
                stuck(s2)
            } else if check_spec(s2, TK::OpenParen) {
                match call_spec(s2, ExprView::Ident(member, s2.previous.span)) {
                    (Ok(call), s3) => if lt(s3, st) {
                        let next = match call {
                            ExprView::Call(_, args, span) => ExprView::MethodCall(
                                Box::new(lhs),
                                member,
                                args,
                                span,
                            ),
                            _ => lhs,
                        };
                        postfix_spec(s3, next, min_bp, structs)
                    } else {
                        stuck(s3)
                    },
                    (Err(e), s3) => (Err(e), s3),
                }
            } else {
                postfix_spec(s2, ExprView::MemberAccess(Box::new(lhs), member, s2.previous.span), min_bp, structs)
            },
            (Err(e), s2) => (Err(e), s2),
        }
    } else if check_spec(st, TK::Catch) {
        let s1 = advance_spec(st);
        if lt(s1, st) {
            match expr_spec(s1) {
                (Ok(fallback), s2) => if lt(s2, st) {
                    postfix_spec(
                        s2,
                        ExprView::Catch(Box::new(lhs), None, Box::new(fallback), s2.previous.span),
                        min_bp,
                        structs,
                    )
                } else {
                    stuck(s2)
                },
                (Err(e), s2) => (Err(e), s2),
            }
        } else {
            stuck(s1)
        }
    } else if check_spec(st, TK::Ident("as"@)) {
        let span = st.current.span;
        let s1 = advance_spec(st);
        match type_spec(s1) {
            (Ok(ty), s2) => if lt(s2, st) {
                postfix_spec(s2, ExprView::Cast(Box::new(lhs), ty, span), min_bp, structs)
            } else {
                stuck(s2)
            },
            (Err(e), s2) => (Err(e), s2),
        }
    } else if check_spec(st, TK::Bang) {
        let s1 = advance_spec(st);
        if lt(s1, st) {
            postfix_spec(s1, ExprView::ForceUnwrap(Box::new(lhs), s1.previous.span), min_bp, structs)
        } else {
            stuck(s1)
        }
    } else {
        match infix_info(st.current.kind) {
            None => (Ok(lhs), st),
            Some((op, l_bp, r_bp)) => if l_bp < min_bp {
                (Ok(lhs), st)
            } else {
                let op_span = st.current.span;
                let s1 = advance_spec(st);
                if lt(s1, st) {
                    match expr_bp_spec(s1, r_bp, structs) {
                        (Ok(rhs), s2) => if lt(s2, st) {
                            let e = match op {
                                None => ExprView::NullCoalesce(Box::new(lhs), Box::new(rhs), op_span),
                                Some(b) => ExprView::Binary(Box::new(lhs), b, Box::new(rhs), op_span),
                            };
                            postfix_spec(s2, e, min_bp, structs)
                        } else {
                            stuck(s2)
                        },
                        (Err(e), s2) => (Err(e), s2),
                    }
                } else {
                    stuck(s1)
                }
            },
        }
    }
}

/// A unary operator's operand, parsed after the operator token.
pub open spec fn unary_spec(st: PState, op: UnaryOp, span: Span, structs: bool) -> PResult<ExprView>
    decreases measure(st), 4int,
{
    match expr_bp_spec(st, 25, structs) {
        (Ok(operand), s1) => (Ok(ExprView::Unary(op, Box::new(operand), span)), s1),
        (Err(e), s1) => (Err(e), s1),
    }
}

/// Whether the current token ends an expression that has no value, such as
/// a `break` or `return` without one: `;`, `}`, `)`, `,` or the end.
pub open spec fn ends_value(st: PState) -> bool {
    check_spec(st, TK::Semicolon) || check_spec(st, TK::CloseBrace) || check_spec(st, TK::CloseParen)
        || check_spec(st, TK::Comma) || check_spec(st, TK::Eof)
}

/// The value after `break` or `return`, unless the current token ends it.
pub open spec fn opt_value_spec(st: PState, structs: bool) -> PResult<Option<ExprView>>
    decreases measure(st), 4int,
{
    if ends_value(st) {
        (Ok(None), st)
    } else {
        match expr_bp_spec(st, 0, structs) {
            (Ok(e), s1) => (Ok(Some(e)), s1),
            (Err(e), s1) => (Err(e), s1),
        }
    }
}

/// A `break` (or, when `is_return`, a `return`) whose keyword at `span` was
/// just consumed, with its optional value.
pub open spec fn jump_spec(st: PState, is_return: bool, span: Span, structs: bool) -> PResult<ExprView>
    decreases measure(st), 5int,
{
    match opt_value_spec(st, structs) {
        (Ok(v), s1) => (
            Ok(
                if is_return {
                    ExprView::Return(boxed(v), span)
                } else {
                    ExprView::Break(None, boxed(v), span)
                },
            ),
            s1,
        ),
        (Err(e), s1) => (Err(e), s1),
    }
}

/// `Some(Box::new(e))` for `Some(e)`.
pub open spec fn boxed(v: Option<ExprView>) -> Option<Box<ExprView>> {
    match v {
        Some(e) => Some(Box::new(e)),
        None => None,
    }
}

/// The expression that starts with the current token: a literal, a name, a
/// struct initializer (when `structs` holds), a builtin call, a unary
/// operator, `try`, a parenthesized expression, a block, `if`, `match`, a
/// loop, or `break`, `continue` and `return` (the last one a name).
pub open spec fn prefix_spec(st: PState, structs: bool) -> PResult<ExprView>
    decreases measure(st), 2int,
{
    let tok = st.current;
    let s1 = advance_spec(st);
    match tok.kind {
        TK::Int(v, suffix) => (Ok(ExprView::Int(v, suffix, tok.span)), s1),
        TK::Float(s) => (Ok(ExprView::Float(s, tok.span)), s1),
        TK::StringLit(s) => (Ok(ExprView::StringLit(s, tok.span)), s1),
        TK::InterpolatedString(s) => (Ok(ExprView::InterpolatedString(s, tok.span)), s1),
        TK::BoolLit(b) => (Ok(ExprView::BoolLit(b, tok.span)), s1),
        TK::Null => (Ok(ExprView::Null(tok.span)), s1),
        TK::Undefined => (Ok(ExprView::Undefined(tok.span)), s1),
        TK::Unreachable => (Ok(ExprView::Unreachable(tok.span)), s1),
        TK::Ident(s) => if s == "return"@ {
            if lt(s1, st) {
                jump_spec(s1, true, tok.span, structs)
            } else {
                stuck(s1)
            }
        } else if structs && check_spec(s1, TK::OpenBrace) {
            if lt(s1, st) {
                struct_init_spec(s1, TypeExprView::Named(s, tok.span))
            } else {
                stuck(s1)
            }
        } else {
            (Ok(ExprView::Ident(s, tok.span)), s1)
        },
        TK::Builtin(s) => match expect_spec(s1, TK::OpenParen, "'(' after builtin"@) {
            (Ok(_), s2) => if lt(s2, st) {
                match builtin_args_spec(s2, seq![]) {
                    (Ok(args), s3) => match expect_spec(s3, TK::CloseParen, "')' after builtin arguments"@) {
                        (Ok(_), s4) => (Ok(ExprView::Builtin(s, args, tok.span)), s4),
                        (Err(e), s4) => (Err(e), s4),
                    },
                    (Err(e), s3) => (Err(e), s3),
                }
            } else {
                stuck(s2)
            },
            (Err(e), s2) => (Err(e), s2),
        },
        TK::Bang => if lt(s1, st) {
            unary_spec(s1, UnaryOp::Not, tok.span, structs)
        } else {
            stuck(s1)
        },
        TK::Minus => if lt(s1, st) {
            unary_spec(s1, UnaryOp::Neg, tok.span, structs)
        } else {
            stuck(s1)
        },
        TK::Tilde => if lt(s1, st) {
            unary_spec(s1, UnaryOp::BitNot, tok.span, structs)
        } else {
            stuck(s1)
        },
        TK::Ampersand => if lt(s1, st) {
            unary_spec(s1, UnaryOp::AddressOf, tok.span, structs)
        } else {
            stuck(s1)
        },
        TK::Try => if lt(s1, st) {
            match expr_bp_spec(s1, 25, structs) {
                (Ok(operand), s2) => (Ok(ExprView::Try(Box::new(operand), tok.span)), s2),
                (Err(e), s2) => (Err(e), s2),
            }
        } else {
            stuck(s1)
        },
        TK::OpenParen => if lt(s1, st) {
            match expr_spec(s1) {
                (Ok(e), s2) => match expect_spec(s2, TK::CloseParen, "')' to match '('"@) {
                    (Ok(_), s3) => (Ok(e), s3),
                    (Err(m), s3) => (Err(m), s3),
                },
                (Err(m), s2) => (Err(m), s2),
            }
        } else {
            stuck(s1)
        },
        TK::OpenBrace => if lt(s1, st) {
            block_expr_spec(s1, tok.span)
        } else {
            stuck(s1)
        },
        TK::If => if lt(s1, st) {
            if_spec(s1, tok.span)
        } else {
            stuck(s1)
        },
        TK::Match => if lt(s1, st) {
            match_expr_spec(s1, tok.span)
        } else {
            stuck(s1)
        },
        TK::Loop => if lt(s1, st) {
            match block_spec(s1) {
                (Ok(b), s2) => (Ok(ExprView::Loop(None, b, tok.span)), s2),
                (Err(e), s2) => (Err(e), s2),
            }
        } else {
            stuck(s1)
        },
        TK::While => if lt(s1, st) {
            while_spec(s1, tok.span)
        } else {
            stuck(s1)
        },
        TK::For => if lt(s1, st) {
            for_spec(s1, tok.span)
        } else {
            stuck(s1)
        },
        TK::Break => if lt(s1, st) {
            jump_spec(s1, false, tok.span, structs)
        } else {
            stuck(s1)
        },
        TK::Continue => (Ok(ExprView::Continue(None, tok.span)), s1),
        _ => (Err(prefix_error(tok)), s1),
    }
}

/// The arguments of a builtin, separated by commas, after `acc`.
pub open spec fn builtin_args_spec(st: PState, acc: Seq<CallArgView>) -> PResult<Seq<CallArgView>>
    decreases measure(st), 5int,
{
    if check_spec(st, TK::CloseParen) {
        (Ok(acc), st)
    } else {
        match expr_spec(st) {
            (Ok(v), s1) => {
                let acc2 = acc.push(CallArgView { label: None, value: v, span: s1.previous.span });
                if check_spec(s1, TK::Comma) {
                    let s2 = advance_spec(s1);
                    if lt(s2, st) {
                        builtin_args_spec(s2, acc2)
                    } else {
                        stuck(s2)
                    }
                } else {
                    (Ok(acc2), s1)
                }
            },
            (Err(e), s1) => (Err(e), s1),
        }
    }
}

/// A call of `callee`: `(arg, label: arg, ...)`.
pub open spec fn call_spec(st: PState, callee: ExprView) -> PResult<ExprView>
    decreases measure(st), 1int,
{
    let span = st.current.span;
    match expect_spec(st, TK::OpenParen, "'(' for function call"@) {
        (Ok(_), s1) => if lt(s1, st) {
            match call_args_spec(s1, seq![]) {
                (Ok(args), s2) => match expect_spec(s2, TK::CloseParen, "')' after call arguments"@) {
                    (Ok(_), s3) => (Ok(ExprView::Call(Box::new(callee), args, span)), s3),
                    (Err(e), s3) => (Err(e), s3),
                },
                (Err(e), s2) => (Err(e), s2),
            }
        } else {
            stuck(s1)
        },
        (Err(e), s1) => (Err(e), s1),
    }
}

/// One call argument: `label: value` or a value.
pub open spec fn call_arg_spec(st: PState) -> PResult<(Option<Seq<char>>, ExprView)>
    decreases measure(st), 5int,
{
    match st.current.kind {
        TK::Ident(lbl) => {
            let s1 = advance_spec(st);
            if !lt(s1, st) {
                stuck(s1)
            } else if check_spec(s1, TK::Colon) {
                let s2 = advance_spec(s1);
                if lt(s2, st) {
                    match expr_spec(s2) {
                        (Ok(v), s3) => (Ok((Some(lbl), v)), s3),
                        (Err(e), s3) => (Err(e), s3),
                    }
                } else {
                    stuck(s2)
                }
            } else {
                match postfix_spec(s1, ExprView::Ident(lbl, s1.previous.span), 0, true) {
                    (Ok(v), s2) => (Ok((None, v)), s2),
                    (Err(e), s2) => (Err(e), s2),
                }
            }
        },
        _ => match expr_spec(st) {
            (Ok(v), s1) => (Ok((None, v)), s1),
            (Err(e), s1) => (Err(e), s1),
        },
    }
}

/// Call arguments separated by commas, after `acc`.
pub open spec fn call_args_spec(st: PState, acc: Seq<CallArgView>) -> PResult<Seq<CallArgView>>
    decreases measure(st), 6int,
{
    if check_spec(st, TK::CloseParen) {
        (Ok(acc), st)
    } else {
        match call_arg_spec(st) {
            (Ok((label, v)), s1) => {
                let acc2 = acc.push(CallArgView { label, value: v, span: s1.previous.span });
                if check_spec(s1, TK::Comma) {
                    let s2 = advance_spec(s1);
                    if lt(s2, st) {
                        call_args_spec(s2, acc2)
                    } else {
                        stuck(s2)
                    }
                } else {
                    (Ok(acc2), s1)
                }
            },
            (Err(e), s1) => (Err(e), s1),
        }
    }
}

/// A struct initializer `{ .field = value, ... }` or `{ field: value, ... }`
/// for the type `ty`.
pub open spec fn struct_init_spec(st: PState, ty: TypeExprView) -> PResult<ExprView>
    decreases measure(st), 1int,
{
    let span = st.current.span;
    match expect_spec(st, TK::OpenBrace, "'{' for struct initializer"@) {
        (Ok(_), s1) => if lt(s1, st) {
            match field_inits_spec(s1, seq![]) {
                (Ok(fields), s2) => match expect_spec(s2, TK::CloseBrace, "'}' after struct initializer"@) {
                    (Ok(_), s3) => (Ok(ExprView::StructInit(ty, fields, span)), s3),
                    (Err(e), s3) => (Err(e), s3),
                },
                (Err(e), s2) => (Err(e), s2),
            }
        } else {
            stuck(s1)
        },
        (Err(e), s1) => (Err(e), s1),
    }
}

/// The start of a field initializer, `.name =` or `name:`, and the name.
pub open spec fn field_head_spec(st: PState) -> PResult<Seq<char>> {
    if check_spec(st, TK::Dot) {
        match expect_ident_spec(advance_spec(st), "field name"@) {
            (Ok(name), s1) => match expect_spec(s1, TK::Eq, "'=' after designated field"@) {
                (Ok(_), s2) => (Ok(name), s2),
                (Err(e), s2) => (Err(e), s2),
            },
            (Err(e), s1) => (Err(e), s1),
        }
    } else {
        match expect_ident_spec(st, "field name"@) {
            (Ok(name), s1) => match expect_spec(s1, TK::Colon, "':' after field name"@) {
                (Ok(_), s2) => (Ok(name), s2),
                (Err(e), s2) => (Err(e), s2),
            },
            (Err(e), s1) => (Err(e), s1),
        }
    }
}

/// Field initializers `.field = value` or `field: value` separated by
/// commas, after `acc`.
pub open spec fn field_inits_spec(st: PState, acc: Seq<FieldInitView>) -> PResult<Seq<FieldInitView>>
    decreases measure(st), 1int,
{
    if check_spec(st, TK::CloseBrace) {
        (Ok(acc), st)
    } else {
        match field_head_spec(st) {
            (Ok(name), s1) => if lt(s1, st) {
                match expr_spec(s1) {
                    (Ok(v), s2) => {
                        let acc2 = acc.push(FieldInitView { name, value: v, span: s2.previous.span });
                        if check_spec(s2, TK::Comma) {
                            let s3 = advance_spec(s2);
                            if lt(s3, st) {
                                field_inits_spec(s3, acc2)
                            } else {
                                stuck(s3)
                            }
                        } else {
                            (Ok(acc2), s2)
                        }
                    },
                    (Err(e), s2) => (Err(e), s2),
                }
            } else {
                stuck(s1)
            },
            (Err(e), s1) => (Err(e), s1),
        }
    }
}

/// A block `{ stmt; ... => value; }`.
pub open spec fn block_spec(st: PState) -> PResult<BlockView>
    decreases measure(st), 1int,
{
    let start_span = st.current.span;
    match expect_spec(st, TK::OpenBrace, "'{' to begin block"@) {
        (Ok(_), s1) => if lt(s1, st) {
            match block_body_spec(s1, seq![]) {
                (Ok((stmts, y)), s2) => match expect_spec(s2, TK::CloseBrace, "'}' to close block"@) {
                    (Ok(_), s3) => (Ok(BlockView { stmts, yield_expr: y, span: start_span }), s3),
                    (Err(e), s3) => (Err(e), s3),
                },
                (Err(e), s2) => (Err(e), s2),
            }
        } else {
            stuck(s1)
        },
        (Err(e), s1) => (Err(e), s1),
    }
}

/// The statements of a block after `acc`, up to `}` or the end of the input,
/// and the value of a final `=> value;`.
pub open spec fn block_body_spec(st: PState, acc: Seq<StmtView>) -> PResult<(Seq<StmtView>, Option<Box<ExprView>>)>
    decreases measure(st), 7int,
{
    if check_spec(st, TK::CloseBrace) || check_spec(st, TK::Eof) {
        (Ok((acc, None)), st)
    } else if check_spec(st, TK::FatArrow) {
        let s1 = advance_spec(st);
        if lt(s1, st) {
            match expr_spec(s1) {
                (Ok(e), s2) => match expect_spec(s2, TK::Semicolon, "';' after arrow block return"@) {
                    (Ok(_), s3) => (Ok((acc, Some(Box::new(e)))), s3),
                    (Err(m), s3) => (Err(m), s3),
                },
                (Err(m), s2) => (Err(m), s2),
            }
        } else {
            stuck(s1)
        }
    } else {
        match stmt_spec(st) {
            (Ok(s), s1) => if lt(s1, st) {
                block_body_spec(s1, acc.push(s))
            } else {
                stuck(s1)
            },
            (Err(e), s1) => (Err(e), s1),
        }
    }
}

/// A block expression whose `{` was just consumed.
pub open spec fn block_expr_spec(st: PState, start_span: Span) -> PResult<ExprView>
    decreases measure(st), 8int,
{
    match block_body_spec(st, seq![]) {
        (Ok((stmts, y)), s1) => match expect_spec(s1, TK::CloseBrace, "'}' to close block"@) {
            (Ok(_), s2) => (Ok(ExprView::Block(BlockView { stmts, yield_expr: y, span: start_span })), s2),
            (Err(e), s2) => (Err(e), s2),
        },
        (Err(e), s1) => (Err(e), s1),
    }
}

/// A branch of `if`: a block, or an expression that becomes a block's value.
pub open spec fn branch_spec(st: PState) -> PResult<BlockView>
    decreases measure(st), 5int,
{
    if check_spec(st, TK::OpenBrace) {
        block_spec(st)
    } else {
        match expr_spec(st) {
            (Ok(e), s1) => (Ok(BlockView { stmts: seq![], yield_expr: Some(Box::new(e)), span: s1.previous.span }), s1),
            (Err(m), s1) => (Err(m), s1),
        }
    }
}

/// An optional `else` branch.
pub open spec fn else_spec(st: PState) -> PResult<Option<BlockView>>
    decreases measure(st), 5int,
{
    if check_spec(st, TK::Else) {
        let s1 = advance_spec(st);
        if lt(s1, st) {
            match branch_spec(s1) {
                (Ok(b), s2) => (Ok(Some(b)), s2),
                (Err(e), s2) => (Err(e), s2),
            }
        } else {
            stuck(s1)
        }
    } else {
        (Ok(None), st)
    }
}

/// An `if` whose keyword was just consumed: `if (cond) then else other` or
/// `if (let name = value) then else other`; the parentheses are optional.
pub open spec fn if_spec(st: PState, start_span: Span) -> PResult<ExprView>
    decreases measure(st), 6int,
{
    let (has_paren, s1) = match_spec(st, TK::OpenParen);
    if check_spec(s1, TK::Let) {
        let s2 = advance_spec(s1);
        match expect_ident_spec(s2, "unwrapped variable name"@) {
            (Ok(name), s3) => match expect_spec(s3, TK::Eq, "'=' in if-let"@) {
                (Ok(_), s4) => if le(s4, st) {
                    match expr_bp_spec(s4, 0, has_paren) {
                        (Ok(value), s5) => match close_paren_spec(s5, has_paren, "')' after if-let condition"@) {
                            (Ok(_), s6) => if le(s6, st) {
                                match branch_spec(s6) {
                                    (Ok(then_block), s7) => if le(s7, st) {
                                        match else_spec(s7) {
                                            (Ok(else_block), s8) => (
                                                Ok(ExprView::IfLet(name, Box::new(value), then_block, else_block, start_span)),
                                                s8,
                                            ),
                                            (Err(e), s8) => (Err(e), s8),
                                        }
                                    } else {
                                        stuck(s7)
                                    },
                                    (Err(e), s7) => (Err(e), s7),
                                }
                            } else {
                                stuck(s6)
                            },
                            (Err(e), s6) => (Err(e), s6),
                        },
                        (Err(e), s5) => (Err(e), s5),
                    }
                } else {
                    stuck(s4)
                },
                (Err(e), s4) => (Err(e), s4),
            },
            (Err(e), s3) => (Err(e), s3),
        }
    } else if le(s1, st) {
        match expr_bp_spec(s1, 0, has_paren) {
            (Ok(cond), s2) => match close_paren_spec(s2, has_paren, "')' after if condition"@) {
                (Ok(_), s3) => if le(s3, st) {
                    match branch_spec(s3) {
                        (Ok(then_block), s4) => if le(s4, st) {
                            match else_spec(s4) {
                                (Ok(else_block), s5) => (
                                    Ok(ExprView::If(Box::new(cond), then_block, else_block, start_span)),
                                    s5,
                                ),
                                (Err(e), s5) => (Err(e), s5),
                            }
                        } else {
                            stuck(s4)
                        },
                        (Err(e), s4) => (Err(e), s4),
                    }
                } else {
                    stuck(s3)
                },
                (Err(e), s3) => (Err(e), s3),
            },
            (Err(e), s2) => (Err(e), s2),
        }
    } else {
        stuck(s1)
    }
}

/// A `match` whose keyword was just consumed.
pub open spec fn match_expr_spec(st: PState, start_span: Span) -> PResult<ExprView>
    decreases measure(st), 8int,
{
    let (has_paren, s1) = match_spec(st, TK::OpenParen);
    if le(s1, st) {
        match expr_bp_spec(s1, 0, has_paren) {
            (Ok(target), s2) => match close_paren_spec(s2, has_paren, "')' after match target"@) {
                (Ok(_), s3) => match expect_spec(s3, TK::OpenBrace, "'{' for match arms"@) {
                    (Ok(_), s4) => if le(s4, st) {
                        match arms_spec(s4, seq![]) {
                            (Ok(arms), s5) => match expect_spec(s5, TK::CloseBrace, "'}' after match arms"@) {
                                (Ok(_), s6) => (Ok(ExprView::Match(Box::new(target), arms, start_span)), s6),
                                (Err(e), s6) => (Err(e), s6),
                            },
                            (Err(e), s5) => (Err(e), s5),
                        }
                    } else {
                        stuck(s4)
                    },
                    (Err(e), s4) => (Err(e), s4),
                },
                (Err(e), s3) => (Err(e), s3),
            },
            (Err(e), s2) => (Err(e), s2),
        }
    } else {
        stuck(s1)
    }
}

/// A match pattern: `else`, `_`, `.Tag`, `.Tag(let name)`, a range
/// `low..high`, or a literal expression.
pub open spec fn pattern_spec(st: PState) -> PResult<PatternView>
    decreases measure(st), 5int,
{
    if check_spec(st, TK::Else) {
        let s1 = advance_spec(st);
        (Ok(PatternView::Else(s1.previous.span)), s1)
    } else if check_spec(st, TK::Ident("_"@)) {
        let s1 = advance_spec(st);
        (Ok(PatternView::Wildcard(s1.previous.span)), s1)
    } else if check_spec(st, TK::Dot) {
        let s1 = advance_spec(st);
        match expect_ident_spec(s1, "enum tag or variant"@) {
            (Ok(tag), s2) => if check_spec(s2, TK::OpenParen) {
                let s3 = advance_spec(s2);
                match expect_spec(s3, TK::Let, "'let' in variant payload binding"@) {
                    (Ok(_), s4) => match expect_ident_spec(s4, "payload binding name"@) {
                        (Ok(name), s5) => match expect_spec(s5, TK::CloseParen, "')' after payload binding"@) {
                            (Ok(_), s6) => (Ok(PatternView::Variant(tag, Some(name), s6.previous.span)), s6),
                            (Err(e), s6) => (Err(e), s6),
                        },
                        (Err(e), s5) => (Err(e), s5),
                    },
                    (Err(e), s4) => (Err(e), s4),
                }
            } else {
                (Ok(PatternView::Variant(tag, None, s2.previous.span)), s2)
            },
            (Err(e), s2) => (Err(e), s2),
        }
    } else {
        match expr_spec(st) {
            (Ok(lit), s1) => if check_spec(s1, TK::DotDot) {
                let s2 = advance_spec(s1);
                if lt(s2, st) {
                    match expr_spec(s2) {
                        (Ok(high), s3) => (Ok(PatternView::Range(Box::new(lit), Box::new(high), s3.previous.span)), s3),
                        (Err(e), s3) => (Err(e), s3),
                    }
                } else {
                    stuck(s2)
                }
            } else {
                (Ok(PatternView::Literal(Box::new(lit), s1.previous.span)), s1)
            },
            (Err(e), s1) => (Err(e), s1),
        }
    }
}

/// The body of a match arm: a block, or an expression and an optional comma.
pub open spec fn arm_body_spec(st: PState) -> PResult<MatchArmBodyView>
    decreases measure(st), 5int,
{
    if check_spec(st, TK::OpenBrace) {
        match block_spec(st) {
            (Ok(b), s1) => (Ok(MatchArmBodyView::Block(b)), s1),
            (Err(e), s1) => (Err(e), s1),
        }
    } else {
        match expr_spec(st) {
            (Ok(e), s1) => {
                let (_c, s2) = match_spec(s1, TK::Comma);
                (Ok(MatchArmBodyView::Expr(Box::new(e))), s2)
            },
            (Err(m), s1) => (Err(m), s1),
        }
    }
}

/// Match arms `pattern => body` up to `}`, after `acc`.
pub open spec fn arms_spec(st: PState, acc: Seq<MatchArmView>) -> PResult<Seq<MatchArmView>>
    decreases measure(st), 7int,
{
    if check_spec(st, TK::CloseBrace) {
        (Ok(acc), st)
    } else {
        match pattern_spec(st) {
            (Ok(pattern), s1) => match expect_spec(s1, TK::FatArrow, "'=>' after match pattern"@) {
                (Ok(_), s2) => if le(s2, st) {
                    match arm_body_spec(s2) {
                        (Ok(body), s3) => {
                            let arm = MatchArmView { pattern, body, span: s3.previous.span };
                            let (_c, s4) = match_spec(s3, TK::Comma);
                            if lt(s4, st) {
                                arms_spec(s4, acc.push(arm))
                            } else {
                                stuck(s4)
                            }
                        },
                        (Err(e), s3) => (Err(e), s3),
                    }
                } else {
                    stuck(s2)
                },
                (Err(e), s2) => (Err(e), s2),
            },
            (Err(e), s1) => (Err(e), s1),
        }
    }
}

/// A `while` whose keyword was just consumed.
pub open spec fn while_spec(st: PState, start_span: Span) -> PResult<ExprView>
    decreases measure(st), 5int,
{
    let (has_paren, s1) = match_spec(st, TK::OpenParen);
    if le(s1, st) {
        match expr_bp_spec(s1, 0, has_paren) {
            (Ok(cond), s2) => match close_paren_spec(s2, has_paren, "')' after while condition"@) {
                (Ok(_), s3) => if le(s3, st) {
                    match block_spec(s3) {
                        (Ok(b), s4) => (Ok(ExprView::While(None, Box::new(cond), b, start_span)), s4),
                        (Err(e), s4) => (Err(e), s4),
                    }
                } else {
                    stuck(s3)
                },
                (Err(e), s3) => (Err(e), s3),
            },
            (Err(e), s2) => (Err(e), s2),
        }
    } else {
        stuck(s1)
    }
}

/// A `for` whose keyword was just consumed: `for (name in items) block`, or
/// a three-part loop. To see the `in`, the token after an identifier is read
/// from the lexer; when it is not `in`, that token is skipped.
pub open spec fn for_spec(st: PState, start_span: Span) -> PResult<ExprView>
    decreases measure(st), 6int,
{
    let (has_paren, s1) = match_spec(st, TK::OpenParen);
    match s1.current.kind {
        TK::Ident(var_name) => {
            let (next_tok, p2) = next_token_spec(s1.text, s1.pos);
            let s2 = PState { pos: p2, ..s1 };
            if next_tok.kind == TK::In {
                let s3 = advance_spec(s2);
                if lt(s3, st) {
                    match expr_bp_spec(s3, 0, has_paren) {
                        (Ok(iter), s4) => match close_paren_spec(s4, has_paren, "')' after for-in loop"@) {
                            (Ok(_), s5) => if lt(s5, st) {
                                match block_spec(s5) {
                                    (Ok(b), s6) => (Ok(ExprView::ForIn(None, var_name, Box::new(iter), b, start_span)), s6),
                                    (Err(e), s6) => (Err(e), s6),
                                }
                            } else {
                                stuck(s5)
                            },
                            (Err(e), s5) => (Err(e), s5),
                        },
                        (Err(e), s4) => (Err(e), s4),
                    }
                } else {
                    stuck(s3)
                }
            } else if le(s2, st) {
                c_for_spec(s2, has_paren, start_span)
            } else {
                stuck(s2)
            }
        },
        _ => if le(s1, st) {
            c_for_spec(s1, has_paren, start_span)
        } else {
            stuck(s1)
        },
    }
}

/// The step of a three-part `for`: `lhs += e` and `lhs -= e` become additions
/// and subtractions, `lhs = e` becomes `e`, and any other expression stays.
pub open spec fn for_step_spec(st: PState, lhs: ExprView) -> PResult<ExprView>
    decreases measure(st), 1int,
{
    if check_spec(st, TK::PlusEq) || check_spec(st, TK::MinusEq) || check_spec(st, TK::Eq) {
        let s1 = advance_spec(st);
        if lt(s1, st) {
            match expr_spec(s1) {
                (Ok(rhs), s2) => (
                    Ok(
                        if check_spec(st, TK::PlusEq) {
                            ExprView::Binary(Box::new(lhs), BinaryOp::Add, Box::new(rhs), s2.previous.span)
                        } else if check_spec(st, TK::MinusEq) {
                            ExprView::Binary(Box::new(lhs), BinaryOp::Sub, Box::new(rhs), s2.previous.span)
                        } else {
                            rhs
                        },
                    ),
                    s2,
                ),
                (Err(e), s2) => (Err(e), s2),
            }
        } else {
            stuck(s1)
        }
    } else {
        (Ok(lhs), st)
    }
}

/// A three-part `for (var i = 0; cond; step) block`, after `for` and the optional `(`.
pub open spec fn c_for_spec(st: PState, has_paren: bool, start_span: Span) -> PResult<ExprView>
    decreases measure(st), 3int,
{
    match expect_spec(st, TK::Var, "'var' in 3-part for loop"@) {
        (Ok(_), s1) => if lt(s1, st) {
            match var_decl_spec(s1, true) {
                (Ok(init), s2) => match expect_spec(s2, TK::Semicolon, "';' after for-init"@) {
                    (Ok(_), s3) => if lt(s3, st) {
                        c_for_cond_spec(s3, init, has_paren, start_span)
                    } else {
                        stuck(s3)
                    },
                    (Err(e), s3) => (Err(e), s3),
                },
                (Err(e), s2) => (Err(e), s2),
            }
        } else {
            stuck(s1)
        },
        (Err(e), s1) => (Err(e), s1),
    }
}

/// The condition of a three-part `for` and the `;` after it.
pub open spec fn c_for_cond_spec(st: PState, init: VarDeclView, has_paren: bool, start_span: Span) -> PResult<ExprView>
    decreases measure(st), 5int,
{
    match expr_spec(st) {
        (Ok(cond), s1) => match expect_spec(s1, TK::Semicolon, "';' after for-condition"@) {
            (Ok(_), s2) => if lt(s2, st) {
                c_for_step_spec(s2, init, cond, has_paren, start_span)
            } else {
                stuck(s2)
            },
            (Err(e), s2) => (Err(e), s2),
        },
        (Err(e), s1) => (Err(e), s1),
    }
}

/// The step of a three-part `for`.
pub open spec fn c_for_step_spec(st: PState, init: VarDeclView, cond: ExprView, has_paren: bool, start_span: Span) -> PResult<ExprView>
    decreases measure(st), 5int,
{
    match expr_spec(st) {
        (Ok(lhs), s1) => if lt(s1, st) {
            match for_step_spec(s1, lhs) {
                (Ok(step), s2) => if lt(s2, st) {
                    c_for_body_spec(s2, init, cond, step, has_paren, start_span)
                } else {
                    stuck(s2)
                },
                (Err(e), s2) => (Err(e), s2),
            }
        } else {
            stuck(s1)
        },
        (Err(e), s1) => (Err(e), s1),
    }
}

/// The optional `)` and the body of a three-part `for`.
pub open spec fn c_for_body_spec(st: PState, init: VarDeclView, cond: ExprView, step: ExprView, has_paren: bool, start_span: Span) -> PResult<ExprView>
    decreases measure(st), 2int,
{
    match close_paren_spec(st, has_paren, "')' after 3-part for header"@) {
        (Ok(_), s1) => if le(s1, st) {
            match block_spec(s1) {
                (Ok(b), s2) => (
                    Ok(ExprView::ForC(None, Box::new(StmtView::Var(init)), Box::new(cond), Box::new(step), b, start_span)),
                    s2,
                ),
                (Err(e), s2) => (Err(e), s2),
            }
        } else {
            stuck(s1)
        },
        (Err(e), s1) => (Err(e), s1),
    }
}

/// Whether a statement made of `e` may omit its semicolon: `if`, `match`,
/// loops and blocks.
pub open spec fn is_block_expr(e: ExprView) -> bool {
    ||| e is If
    ||| e is IfLet
    ||| e is Match
    ||| e is Loop
    ||| e is While
    ||| e is ForC
    ||| e is ForIn
    ||| e is Block
}

/// An assignment operator, if the current token is one (it is consumed).
pub open spec fn assign_op_spec(st: PState) -> (Option<AssignOp>, PState) {
    if check_spec(st, TK::Eq) {
        (Some(AssignOp::Assign), advance_spec(st))
    } else if check_spec(st, TK::PlusEq) {
        (Some(AssignOp::PlusAssign), advance_spec(st))
    } else if check_spec(st, TK::MinusEq) {
        (Some(AssignOp::MinusAssign), advance_spec(st))
    } else if check_spec(st, TK::StarEq) {
        (Some(AssignOp::StarAssign), advance_spec(st))
    } else if check_spec(st, TK::SlashEq) {
        (Some(AssignOp::SlashAssign), advance_spec(st))
    } else {
        (None, st)
    }
}

/// A statement: a `let` or `var` declaration, `defer`, `errdefer`, an
/// assignment, or an expression.
pub open spec fn stmt_spec(st: PState) -> PResult<StmtView>
    decreases measure(st), 6int,
{
    if check_spec(st, TK::Let) || check_spec(st, TK::Var) {
        decl_stmt_spec(st)
    } else if check_spec(st, TK::Defer) || check_spec(st, TK::Errdefer) {
        defer_stmt_spec(st)
    } else {
        expr_stmt_spec(st)
    }
}

/// A declaration statement `let name ... ;` or `var name ... ;`.
pub open spec fn decl_stmt_spec(st: PState) -> PResult<StmtView>
    decreases measure(st), 1int,
{
    let is_var = check_spec(st, TK::Var);
    let s1 = advance_spec(st);
    if lt(s1, st) {
        match var_decl_spec(s1, is_var) {
            (Ok(v), s2) => match expect_spec(
                s2,
                TK::Semicolon,
                if is_var { "';' after var statement"@ } else { "';' after let statement"@ },
            ) {
                (Ok(_), s3) => (Ok(if is_var { StmtView::Var(v) } else { StmtView::Let(v) }), s3),
                (Err(e), s3) => (Err(e), s3),
            },
            (Err(e), s2) => (Err(e), s2),
        }
    } else {
        stuck(s1)
    }
}

/// A statement `defer value;` or `errdefer value;`.
pub open spec fn defer_stmt_spec(st: PState) -> PResult<StmtView>
    decreases measure(st), 1int,
{
    let span = st.current.span;
    let is_err = check_spec(st, TK::Errdefer);
    let s1 = advance_spec(st);
    if lt(s1, st) {
        match expr_spec(s1) {
            (Ok(e), s2) => match expect_spec(
                s2,
                TK::Semicolon,
                if is_err { "';' after errdefer statement"@ } else { "';' after defer statement"@ },
            ) {
                (Ok(_), s3) => (Ok(if is_err { StmtView::Errdefer(e, span) } else { StmtView::Defer(e, span) }), s3),
                (Err(m), s3) => (Err(m), s3),
            },
            (Err(m), s2) => (Err(m), s2),
        }
    } else {
        stuck(s1)
    }
}

/// An assignment `target op value;`, or an expression statement; the `;` may
/// be left out after `if`, `match`, loops and blocks.
pub open spec fn expr_stmt_spec(st: PState) -> PResult<StmtView>
    decreases measure(st), 5int,
{
    let span = st.current.span;
    match expr_spec(st) {
        (Ok(e), s1) => {
            let (op, s2) = assign_op_spec(s1);
            match op {
                Some(op) => if lt(s2, st) {
                    match expr_spec(s2) {
                        (Ok(val), s3) => match expect_spec(s3, TK::Semicolon, "';' after assignment"@) {
                            (Ok(_), s4) => (Ok(StmtView::Assign(e, op, val, span)), s4),
                            (Err(m), s4) => (Err(m), s4),
                        },
                        (Err(m), s3) => (Err(m), s3),
                    }
                } else {
                    stuck(s2)
                },
                None => if is_block_expr(e) {
                    let (_c, s3) = match_spec(s1, TK::Semicolon);
                    (Ok(StmtView::Expr(e, span)), s3)
                } else {
                    match expect_spec(s1, TK::Semicolon, "';' after expression statement"@) {
                        (Ok(_), s3) => (Ok(StmtView::Expr(e, span)), s3),
                        (Err(m), s3) => (Err(m), s3),
                    }
                },
            }
        },
        (Err(m), s1) => (Err(m), s1),
    }
}

/// A variable declaration after `let` or `var`: `name := value`,
/// `name: T = value` or `name = value`.
pub open spec fn var_decl_spec(st: PState, is_mut: bool) -> PResult<VarDeclView>
    decreases measure(st), 1int,
{
    match expect_ident_spec(st, "variable name"@) {
        (Ok(name), s1) => if check_spec(s1, TK::ColonEq) {
            let s2 = advance_spec(s1);
            if lt(s2, st) {
                match expr_spec(s2) {
                    (Ok(value), s3) => (Ok(VarDeclView { name, is_mut, ty: None, value, span: s3.previous.span }), s3),
                    (Err(e), s3) => (Err(e), s3),
                }
            } else {
                stuck(s2)
            }
        } else {
            let (ty, s2) = if check_spec(s1, TK::Colon) {
                match type_spec(advance_spec(s1)) {
                    (Ok(t), s) => (Ok(Some(t)), s),
                    (Err(e), s) => (Err(e), s),
                }
            } else {
                (Ok(None), s1)
            };
            match ty {
                Ok(ty) => match expect_spec(s2, TK::Eq, "'=' in variable declaration"@) {
                    (Ok(_), s3) => if lt(s3, st) {
                        match expr_spec(s3) {
                            (Ok(value), s4) => (Ok(VarDeclView { name, is_mut, ty, value, span: s4.previous.span }), s4),
                            (Err(e), s4) => (Err(e), s4),
                        }
                    } else {
                        stuck(s3)
                    },
                    (Err(e), s3) => (Err(e), s3),
                },
                Err(e) => (Err(e), s2),
            }
        },
        (Err(e), s1) => (Err(e), s1),
    }
}

} // verus!
