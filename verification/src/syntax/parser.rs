//! Hand-written recursive descent + Pratt parser for Juyu.

use vstd::prelude::*;
use crate::syntax::ast::{
    AssignOp, BinaryOp, Block, CallArg, CallArgView, Expr, ExprView, FieldInit, MatchArm,
    MatchArmBody, Pattern, Stmt, StmtView, TypeExpr, TypeExprView, UnaryOp, VarDecl, view_type_expr,
    MatchArmView, FieldInitView,
};
use crate::syntax::astview::{
    view_seq, opt_expr_view, lemma_block_view, lemma_stmt_let_view, lemma_stmt_var_view,
    lemma_stmt_defer_view, lemma_stmt_errdefer_view, lemma_stmt_assign_view, lemma_stmt_expr_view,
    lemma_expr_ident_view, lemma_expr_builtin_view, lemma_expr_binary_view, lemma_expr_unary_view,
    lemma_expr_call_view, lemma_expr_method_call_view, lemma_expr_member_access_view,
    lemma_expr_optional_chaining_view, lemma_expr_deref_view, lemma_expr_struct_init_view,
    lemma_expr_block_view, lemma_expr_if_view, lemma_expr_if_let_view, lemma_expr_match_view,
    lemma_expr_loop_view, lemma_expr_while_view, lemma_expr_for_c_view, lemma_expr_for_in_view,
    lemma_expr_try_view, lemma_expr_catch_view, lemma_expr_null_coalesce_view,
    lemma_expr_force_unwrap_view, lemma_expr_cast_view, lemma_expr_break_view,
    lemma_expr_continue_view, lemma_expr_return_view, lemma_expr_index_view, lemma_match_arm_body_expr_view,
    lemma_match_arm_body_block_view, lemma_pattern_literal_view, lemma_pattern_variant_view,
    lemma_pattern_else_view, lemma_pattern_wildcard_view, lemma_pattern_range_view,
};
use crate::syntax::diag::{
    bad_array_length_error, expected_token_error, unexpected_prefix_error,
};
use crate::syntax::lexer::Lexer;
use crate::syntax::lexspec::{
    next_token_spec, skip_trivia, lemma_skip_trivia_bounds,
    lemma_lex_token_progress,
};
use crate::syntax::parsespec::{
    PState, measure, lt, le, advance_spec, start_spec, check_spec, match_spec, expected_msg,
    expect_spec, expect_ident_spec, close_paren_spec, close_angle_spec, type_spec, type_args_spec,
    named_type_spec, infix_info, prefix_error, expr_spec, expr_bp_spec, postfix_spec, prefix_spec,
    builtin_args_spec, call_spec, call_arg_spec, call_args_spec, struct_init_spec, field_inits_spec,
    block_spec, block_body_spec, block_expr_spec, branch_spec, else_spec, if_spec, match_expr_spec,
    pattern_spec, arm_body_spec, arms_spec, while_spec, for_spec, for_step_spec, c_for_spec,
    is_block_expr, assign_op_spec, stmt_spec, var_decl_spec, decl_stmt_spec, defer_stmt_spec,
    expr_stmt_spec, c_for_cond_spec, c_for_step_spec, c_for_body_spec, opt_value_spec, boxed, jump_spec, unary_spec,
    field_head_spec,
};
use crate::syntax::token::{
    debug_text, same_kind, Span, Token, TokenKind,
};
use crate::syntax::token::TokenKindView as TK;

verus! {

/// The view of a parse result: the value's view, or the error's characters.
pub open spec fn result_view<T: View>(r: Result<T, String>) -> Result<T::V, Seq<char>> {
    match r {
        Ok(x) => Ok(x@),
        Err(e) => Err(e@),
    }
}

/// `Some(Box::new(e))` for `Some(e)`.
fn boxed_exec(v: Option<Expr>) -> (r: Option<Box<Expr>>)
    ensures
        match r {
            Some(b) => Some(Box::new(b@)),
            None => None,
        } == boxed(
            match v {
                Some(e) => Some(e@),
                None => None,
            },
        ),
{
    match v {
        Some(e) => Some(Box::new(e)),
        None => None,
    }
}

/// The view of a parse result holding an optional value.
pub open spec fn result_view_opt<T: View>(r: Result<Option<T>, String>) -> Result<Option<T::V>, Seq<char>> {
    match r {
        Ok(Some(x)) => Ok(Some(x@)),
        Ok(None) => Ok(None),
        Err(e) => Err(e@),
    }
}

/// The view of a parse result holding a vector.
pub open spec fn result_view_vec<T: View>(r: Result<Vec<T>, String>) -> Result<Seq<T::V>, Seq<char>> {
    match r {
        Ok(v) => Ok(view_seq(v@)),
        Err(e) => Err(e@),
    }
}

/// A state that a parser can be in: the lexer position lies in the text, and
/// the current token is `Eof` only at the end.
pub open spec fn state_ok(st: PState) -> bool {
    &&& 0 <= st.pos <= st.text.len()
    &&& (st.current.kind is Eof ==> st.pos == st.text.len())
}

proof fn lemma_skip_trivia_at_end(t: Seq<char>)
    ensures
        skip_trivia(t, t.len() as int) == t.len(),
{
}

/// Lexing on from a position in the text: the position moves forward, and
/// reaches the end when the token is `Eof`.
pub proof fn lemma_next_token_stream(t: Seq<char>, p: int)
    requires
        0 <= p <= t.len(),
    ensures
        p <= next_token_spec(t, p).1 <= t.len(),
        next_token_spec(t, p).0.kind is Eof ==> next_token_spec(t, p).1 == t.len(),
        !(next_token_spec(t, p).0.kind is Eof) ==> p < next_token_spec(t, p).1,
{
    lemma_skip_trivia_bounds(t, p);
    lemma_skip_trivia_at_end(t);
    let s = skip_trivia(t, p);
    if s < t.len() {
        lemma_lex_token_progress(t, s);
        crate::syntax::lexspec::lemma_lex_token_not_eof(t, s);
    }
}

/// Moving to the next token keeps the state valid and does not increase the
/// measure; it decreases it unless the current token is `Eof`.
pub proof fn lemma_advance(st: PState)
    requires
        state_ok(st),
    ensures
        state_ok(advance_spec(st)),
        le(advance_spec(st), st),
        !(st.current.kind is Eof) ==> lt(advance_spec(st), st),
{
    reveal(advance_spec);
    reveal(measure);
    lemma_next_token_stream(st.text, st.pos);
}

/// Parses the tokens of a lexer into a syntax tree.
pub struct Parser {
    lexer: Lexer,
    current: Token,
    previous: Token,
}

impl View for Parser {
    type V = PState;

    closed spec fn view(&self) -> PState {
        PState {
            text: self.lexer@.text,
            pos: self.lexer@.pos,
            current: self.current@,
            previous: self.previous@,
        }
    }
}

impl Parser {
    /// The lexer is consistent and the state is one a parser can be in.
    #[verifier::opaque]
    pub closed spec fn wf(&self) -> bool {
        &&& self.lexer.wf()
        &&& state_ok(self@)
    }

    pub proof fn lemma_wf(&self)
        requires
            self.wf(),
        ensures
            state_ok(self@),
            measure(self@) >= 0,
    {
        reveal(Parser::wf);
        reveal(measure);
    }

    /// A parser whose current token is the first token of `lexer`.
    pub fn new(mut lexer: Lexer) -> (p: Self)
        requires
            lexer.wf(),
        ensures
            p.wf(),
            p@ == start_spec(lexer@.text, lexer@.pos),
    {
        proof {
            lexer.lemma_wf();
            lemma_next_token_stream(lexer@.text, lexer@.pos);
            reveal(start_spec);
            reveal(Parser::wf);
        }
        let first = lexer.next_token();
        Self { lexer, current: first, previous: Token::new(TokenKind::Eof, Span::dummy()) }
    }

    /// Moves to the next token and returns the one that was current.
    pub(crate) fn advance(&mut self) -> (t: Token)
        requires
            old(self).wf(),
        ensures
            final(self).wf(),
            final(self)@ == advance_spec(old(self)@),
            t@ == old(self)@.current,
            le(final(self)@, old(self)@),
            !(old(self)@.current.kind is Eof) ==> lt(final(self)@, old(self)@),
    {
        proof {
            reveal(Parser::wf);
            lemma_advance(self@);
            reveal(advance_spec);
        }
        let mut next = self.lexer.next_token();
        std::mem::swap(&mut self.current, &mut next);
        self.previous = next;
        self.previous.copy()
    }

    /// The kind of the current token.
    pub(crate) fn current_kind(&self) -> (k: &TokenKind)
        ensures
            k@ == self@.current.kind,
    {
        &self.current.kind
    }

    /// Where the current token is.
    pub(crate) fn current_span(&self) -> (s: Span)
        ensures
            s == self@.current.span,
    {
        self.current.span
    }

    /// Where the previous token is.
    pub(crate) fn previous_span(&self) -> (s: Span)
        ensures
            s == self@.previous.span,
    {
        self.previous.span
    }

    /// Whether the current token is `kind`.
    pub(crate) fn check(&self, kind: &TokenKind) -> (b: bool)
        requires
            self.wf(),
        ensures
            b == check_spec(self@, kind@),
    {
        same_kind(&self.current.kind, kind)
    }

    /// Whether the current token is the identifier `word`.
    pub(crate) fn check_word(&self, word: &str) -> (b: bool)
        requires
            self.wf(),
        ensures
            b == check_spec(self@, TK::Ident(word@)),
    {
        match &self.current.kind {
            TokenKind::Ident(w) => crate::syntax::chars::word_eq_string(w, word),
            _ => false,
        }
    }

    /// Consumes the current token when it is `kind`.
    pub(crate) fn match_token(&mut self, kind: &TokenKind) -> (b: bool)
        requires
            old(self).wf(),
        ensures
            final(self).wf(),
            (b, final(self)@) == match_spec(old(self)@, kind@),
            le(final(self)@, old(self)@),
            b && !(kind@ is Eof) ==> lt(final(self)@, old(self)@),
    {
        proof {
            self.lemma_wf();
        }
        if self.check(kind) {
            self.advance();
            true
        } else {
            false
        }
    }

    /// `error[E1001] at line L, col C: Expected <what>, got <current token>`.
    fn expected_message(&self, what: &str) -> (m: String)
        requires
            self.wf(),
        ensures
            m@ == expected_msg(self@, what@),
    {
        let d = debug_text(&self.current.kind);
        let m = expected_token_error(self.current.span.line, self.current.span.col, what, d.as_str());
        proof {
            reveal(expected_msg);
        }
        m
    }

    /// Consumes the current token, which must be `kind`.
    pub(crate) fn expect(&mut self, kind: &TokenKind, what: &str) -> (r: Result<Token, String>)
        requires
            old(self).wf(),
        ensures
            final(self).wf(),
            (result_view(r), final(self)@) == expect_spec(old(self)@, kind@, what@),
            le(final(self)@, old(self)@),
            r is Ok && !(kind@ is Eof) ==> lt(final(self)@, old(self)@),
    {
        proof {
            self.lemma_wf();
        }
        if self.check(kind) {
            Ok(self.advance())
        } else {
            Err(self.expected_message(what))
        }
    }

    /// Consumes the current token, which must be an identifier, and returns its name.
    pub(crate) fn expect_ident(&mut self, what: &str) -> (r: Result<String, String>)
        requires
            old(self).wf(),
        ensures
            final(self).wf(),
            (result_view(r), final(self)@) == expect_ident_spec(old(self)@, what@),
            le(final(self)@, old(self)@),
            r is Ok ==> lt(final(self)@, old(self)@),
    {
        proof {
            self.lemma_wf();
        }
        match &self.current.kind {
            TokenKind::Ident(s) => {
                let name = s.clone();
                self.advance();
                Ok(name)
            },
            _ => Err(self.expected_message(what)),
        }
    }

    /// Consumes a closing parenthesis when an opening one was consumed.
    fn close_paren(&mut self, has_paren: bool, what: &str) -> (r: Result<(), String>)
        requires
            old(self).wf(),
        ensures
            final(self).wf(),
            (result_view(r), final(self)@) == close_paren_spec(old(self)@, has_paren, what@),
            le(final(self)@, old(self)@),
    {
        proof {
            self.lemma_wf();
        }
        if has_paren {
            self.expect(&TokenKind::CloseParen, what)?;
        }
        Ok(())
    }
}


impl Parser {
    /// Consumes the `>` that closes type arguments. Of a `>>` only the first
    /// `>` is consumed: a `>` with the same span is left as the current token.
    fn close_angle(&mut self) -> (r: Result<(), String>)
        requires
            old(self).wf(),
        ensures
            final(self).wf(),
            (result_view(r), final(self)@) == close_angle_spec(old(self)@),
            le(final(self)@, old(self)@),
    {
        proof {
            self.lemma_wf();
        }
        if self.check(&TokenKind::Gt) {
            self.advance();
            Ok(())
        } else if self.check(&TokenKind::Shr) {
            proof {
                reveal(Parser::wf);
                reveal(measure);
            }
            self.current = Token::new(TokenKind::Gt, self.current.span);
            Ok(())
        } else {
            Err(self.expected_message("'>' after type arguments"))
        }
    }

    /// Parses a type: `!T`, `?T`, `*T`, `*const T`, `&T`, `&mut T`, `[]T`,
    /// `[]const T`, `[const T]`, `[N]T` (with `N` an integer literal),
    /// `anytype`, a name, or a name with type arguments `Name<T, ...>`.
    pub fn parse_type(&mut self) -> (r: Result<TypeExpr, String>)
        requires
            old(self).wf(),
        ensures
            final(self).wf(),
            (result_view(r), final(self)@) == type_spec(old(self)@),
            le(final(self)@, old(self)@),
            r is Ok ==> lt(final(self)@, old(self)@),
        decreases measure(old(self)@), 1int,
    {
        proof {
            self.lemma_wf();
        }
        let span = self.current.span;
        if self.match_token(&TokenKind::Bang) {
            let inner = match self.parse_type() {
                Ok(t) => t,
                Err(e) => return Err(e),
            };
            return Ok(TypeExpr::ErrorUnion(None, Box::new(inner), span));
        }
        if self.match_token(&TokenKind::Question) {
            let inner = match self.parse_type() {
                Ok(t) => t,
                Err(e) => return Err(e),
            };
            return Ok(TypeExpr::Optional(Box::new(inner), span));
        }
        if self.match_token(&TokenKind::Star) {
            let is_const = self.match_token(&TokenKind::Const);
            let inner = match self.parse_type() {
                Ok(t) => t,
                Err(e) => return Err(e),
            };
            return Ok(TypeExpr::Pointer(Box::new(inner), is_const, span));
        }
        if self.match_token(&TokenKind::Ampersand) {
            let is_mut = self.check_word("mut");
            if is_mut {
                self.advance();
            }
            let inner = match self.parse_type() {
                Ok(t) => t,
                Err(e) => return Err(e),
            };
            return Ok(TypeExpr::Pointer(Box::new(inner), !is_mut, span));
        }
        if self.match_token(&TokenKind::OpenBracket) {
            if self.match_token(&TokenKind::Const) {
                let inner = match self.parse_type() {
                    Ok(t) => t,
                    Err(e) => return Err(e),
                };
                match self.expect(&TokenKind::CloseBracket, "']' after slice element type") {
                    Ok(_) => {},
                    Err(e) => return Err(e),
                }
                return Ok(TypeExpr::Slice(Box::new(inner), span));
            }
            if self.match_token(&TokenKind::CloseBracket) {
                let _is_const = self.match_token(&TokenKind::Const);
                let inner = match self.parse_type() {
                    Ok(t) => t,
                    Err(e) => return Err(e),
                };
                return Ok(TypeExpr::Slice(Box::new(inner), span));
            } else {
                let size: usize = match self.current_kind() {
                    TokenKind::Int(v, _) => *v as usize,
                    _ => {
                        let cur = self.current_span();
                        let d = debug_text(self.current_kind());
                        return Err(bad_array_length_error(cur.line, cur.col, d.as_str()));
                    },
                };
                self.advance();
                match self.expect(&TokenKind::CloseBracket, "']' after array length") {
                    Ok(_) => {},
                    Err(e) => return Err(e),
                }
                let inner = match self.parse_type() {
                    Ok(t) => t,
                    Err(e) => return Err(e),
                };
                return Ok(TypeExpr::Array(Box::new(inner), size, span));
            }
        }
        self.parse_named_type()
    }

    /// Parses a type name, `anytype`, or a name with type arguments `Name<T, ...>`.
    fn parse_named_type(&mut self) -> (r: Result<TypeExpr, String>)
        requires
            old(self).wf(),
        ensures
            final(self).wf(),
            (result_view(r), final(self)@) == named_type_spec(old(self)@),
            le(final(self)@, old(self)@),
            r is Ok ==> lt(final(self)@, old(self)@),
        decreases measure(old(self)@), 0int,
    {
        let span = self.current.span;
        let name = match self.expect_ident("type name") {
            Ok(n) => n,
            Err(e) => return Err(e),
        };
        if crate::syntax::chars::word_eq_string(&name, "anytype") {
            Ok(TypeExpr::Anytype(span))
        } else if self.check(&TokenKind::Lt) {
            self.advance();
            let args = match self.parse_type_args() {
                Ok(a) => a,
                Err(e) => return Err(e),
            };
            match self.close_angle() {
                Ok(_) => {},
                Err(e) => return Err(e),
            }
            let ty = TypeExpr::Generic(Box::new(TypeExpr::Named(name, span)), args, span);
            proof {
                let tv = ty@;
                assert(tv is Generic);
                let a = tv->Generic_1;
                assert(a.len() == args@.len());
                assert forall|i: int| 0 <= i < a.len() implies a[i] == view_seq(args@)[i] by {
                    assert(a[i] == args@[i]@);
                }
                assert(a =~= view_seq(args@));
                assert(view_type_expr(*ty->Generic_0) == TypeExprView::Named(name@, span));
                assert(tv == TypeExprView::Generic(
                    Box::new(TypeExprView::Named(name@, span)),
                    view_seq(args@),
                    span,
                ));
            }
            Ok(ty)
        } else {
            Ok(TypeExpr::Named(name, span))
        }
    }

    /// Parses type arguments separated by commas.
    fn parse_type_args(&mut self) -> (r: Result<Vec<TypeExpr>, String>)
        requires
            old(self).wf(),
        ensures
            final(self).wf(),
            (result_view_vec(r), final(self)@) == type_args_spec(old(self)@, seq![]),
            le(final(self)@, old(self)@),
            r is Ok ==> lt(final(self)@, old(self)@),
        decreases measure(old(self)@), 2int,
    {
        let ghost st0 = self@;
        proof {
            self.lemma_wf();
        }
        let mut args: Vec<TypeExpr> = Vec::new();
        assert(view_seq(args@) =~= Seq::<TypeExprView>::empty());
        loop
            invariant_except_break
                self.wf(),
                st0 == old(self)@,
                le(self@, st0),
                args@.len() > 0 ==> lt(self@, st0),
                type_args_spec(self@, view_seq(args@)) == type_args_spec(st0, seq![]),
            ensures
                self.wf(),
                le(self@, st0),
                args@.len() > 0 && lt(self@, st0),
                type_args_spec(st0, seq![]) == (Ok::<Seq<TypeExprView>, Seq<char>>(view_seq(args@)), self@),
            decreases measure(self@),
        {
            let ghost st = self@;
            let t = match self.parse_type() {
                Ok(t) => t,
                Err(e) => return Err(e),
            };
            proof {
                assert(view_seq(args@.push(t)) =~= view_seq(args@).push(t@));
            }
            args.push(t);
            if !self.match_token(&TokenKind::Comma) {
                break;
            }
        }
        Ok(args)
    }
}


/// The binding powers of the infix operator `k`, if it is one.
fn infix_info_exec(k: &TokenKind) -> (r: Option<(Option<BinaryOp>, u8, u8)>)
    ensures
        r == infix_info(k@),
{
    match k {
        TokenKind::QuestionQuestion => Some((None, 1, 2)),
        TokenKind::PipePipe => Some((Some(BinaryOp::LogicalOr), 3, 4)),
        TokenKind::AmpAmp => Some((Some(BinaryOp::LogicalAnd), 5, 6)),
        TokenKind::EqEq => Some((Some(BinaryOp::Eq), 7, 8)),
        TokenKind::NotEq => Some((Some(BinaryOp::NotEq), 7, 8)),
        TokenKind::Lt => Some((Some(BinaryOp::Lt), 9, 10)),
        TokenKind::LtEq => Some((Some(BinaryOp::LtEq), 9, 10)),
        TokenKind::Gt => Some((Some(BinaryOp::Gt), 9, 10)),
        TokenKind::GtEq => Some((Some(BinaryOp::GtEq), 9, 10)),
        TokenKind::Pipe => Some((Some(BinaryOp::BitOr), 11, 12)),
        TokenKind::BitOr => Some((Some(BinaryOp::BitOr), 11, 12)),
        TokenKind::Caret => Some((Some(BinaryOp::BitXor), 13, 14)),
        TokenKind::BitXor => Some((Some(BinaryOp::BitXor), 13, 14)),
        TokenKind::Ampersand => Some((Some(BinaryOp::BitAnd), 15, 16)),
        TokenKind::BitAnd => Some((Some(BinaryOp::BitAnd), 15, 16)),
        TokenKind::Shl => Some((Some(BinaryOp::Shl), 17, 18)),
        TokenKind::Shr => Some((Some(BinaryOp::Shr), 17, 18)),
        TokenKind::Plus => Some((Some(BinaryOp::Add), 19, 20)),
        TokenKind::Minus => Some((Some(BinaryOp::Sub), 19, 20)),
        TokenKind::PlusPercent => Some((Some(BinaryOp::AddWrap), 19, 20)),
        TokenKind::MinusPercent => Some((Some(BinaryOp::SubWrap), 19, 20)),
        TokenKind::Star => Some((Some(BinaryOp::Mul), 21, 22)),
        TokenKind::Slash => Some((Some(BinaryOp::Div), 21, 22)),
        TokenKind::Percent => Some((Some(BinaryOp::Mod), 21, 22)),
        TokenKind::StarPercent => Some((Some(BinaryOp::MulWrap), 21, 22)),
        _ => None,
    }
}

impl Parser {
    /// Parses an expression.
    #[verifier::spinoff_prover]
    pub fn parse_expr(&mut self) -> (r: Result<Expr, String>)
        requires
            old(self).wf(),
        ensures
            final(self).wf(),
            (result_view(r), final(self)@) == expr_spec(old(self)@),
            le(final(self)@, old(self)@),
            r is Ok ==> lt(final(self)@, old(self)@),
        decreases measure(old(self)@), 4int,
    {
        self.parse_expr_bp(0, true)
    }

    /// Parses an operand and the operators that follow it, with infix
    /// operators whose left binding power is at least `min_bp`.
    #[verifier::spinoff_prover]
    fn parse_expr_bp(&mut self, min_bp: u8, structs: bool) -> (r: Result<Expr, String>)
        requires
            old(self).wf(),
        ensures
            final(self).wf(),
            (result_view(r), final(self)@) == expr_bp_spec(old(self)@, min_bp, structs),
            le(final(self)@, old(self)@),
            r is Ok ==> lt(final(self)@, old(self)@),
        decreases measure(old(self)@), 3int,
    {
        let lhs = match self.parse_prefix(structs) {
            Ok(e) => e,
            Err(e) => return Err(e),
        };
        self.parse_postfix_and_infix(lhs, min_bp, structs)
    }

    /// Applies the postfix and infix operators that follow `lhs`.
    #[verifier::spinoff_prover]
    #[verifier::rlimit(40)]
    fn parse_postfix_and_infix(&mut self, first: Expr, min_bp: u8, structs: bool) -> (r: Result<Expr, String>)
        requires
            old(self).wf(),
        ensures
            final(self).wf(),
            (result_view(r), final(self)@) == postfix_spec(old(self)@, first@, min_bp, structs),
            le(final(self)@, old(self)@),
        decreases measure(old(self)@), 2int,
    {
        let ghost st0 = self@;
        proof {
            self.lemma_wf();
        }
        let ghost lhs0 = first@;
        let mut lhs = first;
        loop
            invariant
                self.wf(),
                st0 == old(self)@,
                lhs0 == first@,
                le(self@, st0),
                postfix_spec(self@, lhs@, min_bp, structs) == postfix_spec(st0, lhs0, min_bp, structs),
            decreases measure(self@),
        {
            let ghost st = self@;
            proof {
                self.lemma_wf();
            }
            if self.check(&TokenKind::OpenParen) {
                lhs = match self.parse_call(lhs) {
                    Ok(e) => e,
                    Err(e) => return Err(e),
                };
                continue;
            }
            if self.check(&TokenKind::OpenBracket) {
                let span = self.current.span;
                self.advance();
                let index = match self.parse_expr() {
                    Ok(i) => i,
                    Err(e) => return Err(e),
                };
                match self.expect(&TokenKind::CloseBracket, "']' after index") {
                    Ok(_) => {},
                    Err(e) => return Err(e),
                }
                lhs = Expr::Index(Box::new(lhs), Box::new(index), span);
                proof {
                    lemma_expr_index_view(lhs);
                }
                continue;
            }
            if self.match_token(&TokenKind::DotStar) {
                lhs = Expr::Deref(Box::new(lhs), self.previous.span);
                proof {
                    lemma_expr_deref_view(lhs);
                }
                continue;
            }
            if self.match_token(&TokenKind::QuestionDot) {
                let member = match self.expect_ident("member name after '?.'") {
                    Ok(m) => m,
                    Err(e) => return Err(e),
                };
                lhs = Expr::OptionalChaining(Box::new(lhs), member, self.previous.span);
                proof {
                    lemma_expr_optional_chaining_view(lhs);
                }
                continue;
            }
            if self.match_token(&TokenKind::Dot) {
                let member = match self.expect_ident("field or method name") {
                    Ok(m) => m,
                    Err(e) => return Err(e),
                };
                if self.check(&TokenKind::OpenParen) {
                    let call = match self.parse_call(Expr::Ident(member.clone(), self.previous.span)) {
                        Ok(c) => c,
                        Err(e) => return Err(e),
                    };
                    proof {
                        if call is Call {
                            lemma_expr_call_view(call);
                        }
                    }
                    lhs = match call {
                        Expr::Call(_, args, span) => {
                            let m = Expr::MethodCall(Box::new(lhs), member, args, span);
                            proof {
                                lemma_expr_method_call_view(m);
                            }
                            m
                        },
                        _ => lhs,
                    };
                } else {
                    lhs = Expr::MemberAccess(Box::new(lhs), member, self.previous.span);
                    proof {
                        lemma_expr_member_access_view(lhs);
                    }
                }
                continue;
            }
            if self.match_token(&TokenKind::Catch) {
                let fallback = match self.parse_expr() {
                    Ok(f) => f,
                    Err(e) => return Err(e),
                };
                lhs = Expr::Catch(Box::new(lhs), None, Box::new(fallback), self.previous.span);
                proof {
                    lemma_expr_catch_view(lhs);
                }
                continue;
            }
            if self.check_word("as") {
                let span = self.current.span;
                self.advance();
                let ty = match self.parse_type() {
                    Ok(t) => t,
                    Err(e) => return Err(e),
                };
                lhs = Expr::Cast(Box::new(lhs), ty, span);
                proof {
                    lemma_expr_cast_view(lhs);
                }
                continue;
            }
            if self.match_token(&TokenKind::Bang) {
                lhs = Expr::ForceUnwrap(Box::new(lhs), self.previous.span);
                proof {
                    lemma_expr_force_unwrap_view(lhs);
                }
                continue;
            }
            match infix_info_exec(&self.current.kind) {
                None => {
                    return Ok(lhs);
                },
                Some((op, l_bp, r_bp)) => {
                    if l_bp < min_bp {
                        return Ok(lhs);
                    }
                    let op_span = self.current.span;
                    self.advance();
                    let rhs = match self.parse_expr_bp(r_bp, structs) {
                        Ok(e) => e,
                        Err(e) => return Err(e),
                    };
                    lhs = match op {
                        None => Expr::NullCoalesce(Box::new(lhs), Box::new(rhs), op_span),
                        Some(b) => Expr::Binary(Box::new(lhs), b, Box::new(rhs), op_span),
                    };
                    proof {
                        if lhs is NullCoalesce {
                            lemma_expr_null_coalesce_view(lhs);
                        } else {
                            lemma_expr_binary_view(lhs);
                        }
                    }
                },
            }
        }
    }

    /// `error[E1003] at line L, col C: Unexpected prefix expression token <token>`.
    fn prefix_error_message(tok: &Token) -> (m: String)
        ensures
            m@ == prefix_error(tok@),
    {
        let d = debug_text(&tok.kind);
        let m = unexpected_prefix_error(tok.span.line, tok.span.col, d.as_str());
        proof {
            reveal(prefix_error);
        }
        m
    }

    /// Parses the expression that starts with the current token.
    #[verifier::spinoff_prover]
    #[verifier::rlimit(40)]
    fn parse_prefix(&mut self, structs: bool) -> (r: Result<Expr, String>)
        requires
            old(self).wf(),
        ensures
            final(self).wf(),
            (result_view(r), final(self)@) == prefix_spec(old(self)@, structs),
            le(final(self)@, old(self)@),
            r is Ok ==> lt(final(self)@, old(self)@),
        decreases measure(old(self)@), 2int,
    {
        let tok = self.advance();
        let ghost s1 = self@;
        let span = tok.span;
        match tok.kind {
            TokenKind::Int(v, suffix) => Ok(Expr::Int(v, suffix, span)),
            TokenKind::Float(s) => Ok(Expr::Float(s, span)),
            TokenKind::StringLit(s) => Ok(Expr::StringLit(s, span)),
            TokenKind::InterpolatedString(s) => Ok(Expr::InterpolatedString(s, span)),
            TokenKind::BoolLit(b) => Ok(Expr::BoolLit(b, span)),
            TokenKind::Null => Ok(Expr::Null(span)),
            TokenKind::Undefined => Ok(Expr::Undefined(span)),
            TokenKind::Unreachable => Ok(Expr::Unreachable(span)),
            TokenKind::Ident(s) => {
                if crate::syntax::chars::word_eq_string(&s, "return") {
                    return self.parse_jump(true, span, structs);
                }
                if structs && self.check(&TokenKind::OpenBrace) {
                    return self.parse_struct_init(TypeExpr::Named(s, span));
                }
                let node = Expr::Ident(s, span);
                proof {
                    lemma_expr_ident_view(node);
                }
                Ok(node)
            },
            TokenKind::Builtin(s) => {
                match self.expect(&TokenKind::OpenParen, "'(' after builtin") {
                    Ok(_) => {},
                    Err(e) => return Err(e),
                }
                let args = match self.parse_builtin_args() {
                    Ok(a) => a,
                    Err(e) => return Err(e),
                };
                match self.expect(&TokenKind::CloseParen, "')' after builtin arguments") {
                    Ok(_) => {},
                    Err(e) => return Err(e),
                }
                let e = Expr::Builtin(s, args, span);
                proof {
                    lemma_expr_builtin_view(e);
                }
                Ok(e)
            },
            TokenKind::Bang => self.parse_unary(UnaryOp::Not, span, structs),
            TokenKind::Minus => self.parse_unary(UnaryOp::Neg, span, structs),
            TokenKind::Tilde => self.parse_unary(UnaryOp::BitNot, span, structs),
            TokenKind::Ampersand => self.parse_unary(UnaryOp::AddressOf, span, structs),
            TokenKind::Try => {
                let operand = match self.parse_expr_bp(25, structs) {
                    Ok(o) => o,
                    Err(e) => return Err(e),
                };
                let node = Expr::Try(Box::new(operand), span);
                proof {
                    lemma_expr_try_view(node);
                }
                Ok(node)
            },
            TokenKind::OpenParen => {
                let e = match self.parse_expr() {
                    Ok(e) => e,
                    Err(m) => return Err(m),
                };
                match self.expect(&TokenKind::CloseParen, "')' to match '('") {
                    Ok(_) => {},
                    Err(m) => return Err(m),
                }
                Ok(e)
            },
            TokenKind::OpenBrace => self.parse_block_expr(span),
            TokenKind::If => self.parse_if(span),
            TokenKind::Match => self.parse_match(span),
            TokenKind::Loop => {
                let b = match self.parse_block() {
                    Ok(b) => b,
                    Err(e) => return Err(e),
                };
                let node = Expr::Loop(None, b, span);
                proof {
                    lemma_expr_loop_view(node);
                }
                Ok(node)
            },
            TokenKind::While => self.parse_while(span),
            TokenKind::For => self.parse_for(span),
            TokenKind::Break => self.parse_jump(false, span, structs),
            TokenKind::Continue => {
                let node = Expr::Continue(None, span);
                proof {
                    lemma_expr_continue_view(node);
                }
                Ok(node)
            },
            other => Err(Self::prefix_error_message(&Token { kind: other, span })),
        }
    }

    /// Parses the value after `break` or `return`, unless the current token
    /// is `;`, `}`, `)`, `,` or the end.
    fn parse_opt_value(&mut self, structs: bool) -> (r: Result<Option<Expr>, String>)
        requires
            old(self).wf(),
        ensures
            final(self).wf(),
            (result_view_opt(r), final(self)@) == opt_value_spec(old(self)@, structs),
            le(final(self)@, old(self)@),
        decreases measure(old(self)@), 4int,
    {
        proof {
            self.lemma_wf();
        }
        if self.check(&TokenKind::Semicolon) || self.check(&TokenKind::CloseBrace)
            || self.check(&TokenKind::CloseParen) || self.check(&TokenKind::Comma)
            || self.check(&TokenKind::Eof) {
            return Ok(None);
        }
        match self.parse_expr_bp(0, structs) {
            Ok(e) => Ok(Some(e)),
            Err(e) => Err(e),
        }
    }

    /// Parses the operand of a unary operator `op` at `span` that was just consumed.
    fn parse_unary(&mut self, op: UnaryOp, span: Span, structs: bool) -> (r: Result<Expr, String>)
        requires
            old(self).wf(),
        ensures
            final(self).wf(),
            (result_view(r), final(self)@) == unary_spec(old(self)@, op, span, structs),
            le(final(self)@, old(self)@),
        decreases measure(old(self)@), 4int,
    {
        let operand = match self.parse_expr_bp(25, structs) {
            Ok(o) => o,
            Err(e) => return Err(e),
        };
        let node = Expr::Unary(op, Box::new(operand), span);
        proof {
            lemma_expr_unary_view(node);
        }
        Ok(node)
    }

    /// Parses the rest of a `break` (or, when `is_return`, a `return`) whose
    /// keyword at `span` was just consumed: its optional value.
    fn parse_jump(&mut self, is_return: bool, span: Span, structs: bool) -> (r: Result<Expr, String>)
        requires
            old(self).wf(),
        ensures
            final(self).wf(),
            (result_view(r), final(self)@) == jump_spec(old(self)@, is_return, span, structs),
            le(final(self)@, old(self)@),
        decreases measure(old(self)@), 5int,
    {
        let v = match self.parse_opt_value(structs) {
            Ok(v) => v,
            Err(e) => return Err(e),
        };
        if is_return {
            let node = Expr::Return(boxed_exec(v), span);
            proof {
                lemma_expr_return_view(node);
            }
            Ok(node)
        } else {
            let node = Expr::Break(None, boxed_exec(v), span);
            proof {
                lemma_expr_break_view(node);
            }
            Ok(node)
        }
    }

    /// Parses the arguments of a builtin, separated by commas, up to `)`.
    #[verifier::spinoff_prover]
    fn parse_builtin_args(&mut self) -> (r: Result<Vec<CallArg>, String>)
        requires
            old(self).wf(),
        ensures
            final(self).wf(),
            (result_view_vec(r), final(self)@) == builtin_args_spec(old(self)@, seq![]),
            le(final(self)@, old(self)@),
        decreases measure(old(self)@), 5int,
    {
        let ghost st0 = self@;
        proof {
            self.lemma_wf();
        }
        let mut args: Vec<CallArg> = Vec::new();
        assert(view_seq(args@) =~= Seq::<CallArgView>::empty());
        loop
            invariant
                self.wf(),
                st0 == old(self)@,
                le(self@, st0),
                builtin_args_spec(self@, view_seq(args@)) == builtin_args_spec(st0, seq![]),
            decreases measure(self@),
        {
            let ghost st = self@;
            if self.check(&TokenKind::CloseParen) {
                return Ok(args);
            }
            let v = match self.parse_expr() {
                Ok(v) => v,
                Err(e) => return Err(e),
            };
            let arg = CallArg { label: None, value: v, span: self.previous.span };
            proof {
                assert(view_seq(args@.push(arg)) =~= view_seq(args@).push(arg@));
            }
            args.push(arg);
            if !self.match_token(&TokenKind::Comma) {
                return Ok(args);
            }
        }
    }

    /// Parses a call of `callee`: `(arg, label: arg, ...)`.
    #[verifier::spinoff_prover]
    fn parse_call(&mut self, callee: Expr) -> (r: Result<Expr, String>)
        requires
            old(self).wf(),
        ensures
            final(self).wf(),
            (result_view(r), final(self)@) == call_spec(old(self)@, callee@),
            le(final(self)@, old(self)@),
            r is Ok ==> lt(final(self)@, old(self)@),
        decreases measure(old(self)@), 1int,
    {
        let span = self.current.span;
        match self.expect(&TokenKind::OpenParen, "'(' for function call") {
            Ok(_) => {},
            Err(e) => return Err(e),
        }
        let args = match self.parse_call_args() {
            Ok(a) => a,
            Err(e) => return Err(e),
        };
        match self.expect(&TokenKind::CloseParen, "')' after call arguments") {
            Ok(_) => {},
            Err(e) => return Err(e),
        }
        let e = Expr::Call(Box::new(callee), args, span);
        proof {
            lemma_expr_call_view(e);
        }
        Ok(e)
    }

    /// Parses one call argument: `label: value` or a value.
    #[verifier::spinoff_prover]
    fn parse_call_arg(&mut self) -> (r: Result<(Option<String>, Expr), String>)
        requires
            old(self).wf(),
        ensures
            final(self).wf(),
            match r {
                Ok((l, v)) => call_arg_spec(old(self)@) == (
                    Ok::<(Option<Seq<char>>, ExprView), Seq<char>>(
                        (
                            match l {
                                Some(x) => Some(x@),
                                None => None,
                            },
                            v@,
                        ),
                    ),
                    final(self)@,
                ),
                Err(e) => call_arg_spec(old(self)@) == (Err::<(Option<Seq<char>>, ExprView), Seq<char>>(e@), final(self)@),
            },
            le(final(self)@, old(self)@),
            r is Ok ==> lt(final(self)@, old(self)@),
        decreases measure(old(self)@), 5int,
    {
        match &self.current.kind {
            TokenKind::Ident(lbl) => {
                let lbl = lbl.clone();
                self.advance();
                if self.check(&TokenKind::Colon) {
                    self.advance();
                    match self.parse_expr() {
                        Ok(v) => Ok((Some(lbl), v)),
                        Err(e) => Err(e),
                    }
                } else {
                    let ident = Expr::Ident(lbl, self.previous.span);
                    match self.parse_postfix_and_infix(ident, 0, true) {
                        Ok(v) => Ok((None, v)),
                        Err(e) => Err(e),
                    }
                }
            },
            _ => match self.parse_expr() {
                Ok(v) => Ok((None, v)),
                Err(e) => Err(e),
            },
        }
    }

    /// Parses call arguments separated by commas, up to `)`.
    #[verifier::spinoff_prover]
    fn parse_call_args(&mut self) -> (r: Result<Vec<CallArg>, String>)
        requires
            old(self).wf(),
        ensures
            final(self).wf(),
            (result_view_vec(r), final(self)@) == call_args_spec(old(self)@, seq![]),
            le(final(self)@, old(self)@),
        decreases measure(old(self)@), 6int,
    {
        let ghost st0 = self@;
        proof {
            self.lemma_wf();
        }
        let mut args: Vec<CallArg> = Vec::new();
        assert(view_seq(args@) =~= Seq::<CallArgView>::empty());
        loop
            invariant
                self.wf(),
                st0 == old(self)@,
                le(self@, st0),
                call_args_spec(self@, view_seq(args@)) == call_args_spec(st0, seq![]),
            decreases measure(self@),
        {
            let ghost st = self@;
            if self.check(&TokenKind::CloseParen) {
                return Ok(args);
            }
            let (label, v) = match self.parse_call_arg() {
                Ok(p) => p,
                Err(e) => return Err(e),
            };
            let arg = CallArg { label, value: v, span: self.previous.span };
            proof {
                assert(view_seq(args@.push(arg)) =~= view_seq(args@).push(arg@));
            }
            args.push(arg);
            if !self.match_token(&TokenKind::Comma) {
                return Ok(args);
            }
        }
    }

    /// Parses a struct initializer `{ .field = value, ... }` or
    /// `{ field: value, ... }` for the type `ty`.
    #[verifier::spinoff_prover]
    fn parse_struct_init(&mut self, ty: TypeExpr) -> (r: Result<Expr, String>)
        requires
            old(self).wf(),
        ensures
            final(self).wf(),
            (result_view(r), final(self)@) == struct_init_spec(old(self)@, ty@),
            le(final(self)@, old(self)@),
            r is Ok ==> lt(final(self)@, old(self)@),
        decreases measure(old(self)@), 1int,
    {
        let span = self.current.span;
        match self.expect(&TokenKind::OpenBrace, "'{' for struct initializer") {
            Ok(_) => {},
            Err(e) => return Err(e),
        }
        let fields = match self.parse_field_inits() {
            Ok(f) => f,
            Err(e) => return Err(e),
        };
        match self.expect(&TokenKind::CloseBrace, "'}' after struct initializer") {
            Ok(_) => {},
            Err(e) => return Err(e),
        }
        let e = Expr::StructInit(ty, fields, span);
        proof {
            lemma_expr_struct_init_view(e);
        }
        Ok(e)
    }

    /// Parses the start of a field initializer, `.name =` or `name:`, and gives the name.
    fn parse_field_head(&mut self) -> (r: Result<String, String>)
        requires
            old(self).wf(),
        ensures
            final(self).wf(),
            (result_view(r), final(self)@) == field_head_spec(old(self)@),
            le(final(self)@, old(self)@),
            r is Ok ==> lt(final(self)@, old(self)@),
    {
        proof {
            self.lemma_wf();
        }
        let designated = self.match_token(&TokenKind::Dot);
        let name = match self.expect_ident("field name") {
            Ok(n) => n,
            Err(e) => return Err(e),
        };
        let sep = if designated {
            self.expect(&TokenKind::Eq, "'=' after designated field")
        } else {
            self.expect(&TokenKind::Colon, "':' after field name")
        };
        match sep {
            Ok(_) => Ok(name),
            Err(e) => Err(e),
        }
    }

    /// Parses field initializers `.field = value` or `field: value`, up to `}`.
    #[verifier::spinoff_prover]
    fn parse_field_inits(&mut self) -> (r: Result<Vec<FieldInit>, String>)
        requires
            old(self).wf(),
        ensures
            final(self).wf(),
            (result_view_vec(r), final(self)@) == field_inits_spec(old(self)@, seq![]),
            le(final(self)@, old(self)@),
        decreases measure(old(self)@), 1int,
    {
        let ghost st0 = self@;
        proof {
            self.lemma_wf();
        }
        let mut fields: Vec<FieldInit> = Vec::new();
        assert(view_seq(fields@) =~= Seq::<FieldInitView>::empty());
        loop
            invariant
                self.wf(),
                st0 == old(self)@,
                le(self@, st0),
                field_inits_spec(self@, view_seq(fields@)) == field_inits_spec(st0, seq![]),
            decreases measure(self@),
        {
            let ghost st = self@;
            if self.check(&TokenKind::CloseBrace) {
                return Ok(fields);
            }
            let name = match self.parse_field_head() {
                Ok(n) => n,
                Err(e) => return Err(e),
            };
            let v = match self.parse_expr() {
                Ok(v) => v,
                Err(e) => return Err(e),
            };
            let fi = FieldInit { name, value: v, span: self.previous.span };
            proof {
                assert(view_seq(fields@.push(fi)) =~= view_seq(fields@).push(fi@));
            }
            fields.push(fi);
            if !self.match_token(&TokenKind::Comma) {
                return Ok(fields);
            }
        }
    }
}

/// The view of a block body result: the statements and the final value.
pub open spec fn body_view(r: Result<(Vec<Stmt>, Option<Box<Expr>>), String>) -> Result<(Seq<StmtView>, Option<Box<ExprView>>), Seq<char>> {
    match r {
        Ok((stmts, y)) => Ok((view_seq(stmts@), opt_expr_view(y))),
        Err(e) => Err(e@),
    }
}

/// The three-part loop `for (init; cond; step) body`, without a label.
fn for_c_node(init: VarDecl, cond: Expr, step: Expr, body: Block, span: Span) -> (e: Expr)
    ensures
        e@ == ExprView::ForC(None, Box::new(StmtView::Var(init@)), Box::new(cond@), Box::new(step@), body@, span),
{
    let init_stmt = Stmt::Var(init);
    proof {
        lemma_stmt_var_view(init_stmt);
    }
    let e = Expr::ForC(None, Box::new(init_stmt), Box::new(cond), Box::new(step), body, span);
    proof {
        lemma_expr_for_c_view(e);
    }
    e
}

/// Whether a statement made of `e` may omit its semicolon.
fn is_block_expr_exec(e: &Expr) -> (b: bool)
    ensures
        b == is_block_expr(e@),
{
    match e {
        Expr::If(..) => true,
        Expr::IfLet(..) => true,
        Expr::Match(..) => true,
        Expr::Loop(..) => true,
        Expr::While(..) => true,
        Expr::ForC(..) => true,
        Expr::ForIn(..) => true,
        Expr::Block(..) => true,
        _ => false,
    }
}

impl Parser {
    /// Parses a block `{ stmt; ... => value; }`.
    #[verifier::spinoff_prover]
    pub fn parse_block(&mut self) -> (r: Result<Block, String>)
        requires
            old(self).wf(),
        ensures
            final(self).wf(),
            (result_view(r), final(self)@) == block_spec(old(self)@),
            le(final(self)@, old(self)@),
            r is Ok ==> lt(final(self)@, old(self)@),
        decreases measure(old(self)@), 1int,
    {
        let start_span = self.current.span;
        match self.expect(&TokenKind::OpenBrace, "'{' to begin block") {
            Ok(_) => {},
            Err(e) => return Err(e),
        }
        let (stmts, y) = match self.parse_block_body() {
            Ok(p) => p,
            Err(e) => return Err(e),
        };
        match self.expect(&TokenKind::CloseBrace, "'}' to close block") {
            Ok(_) => {},
            Err(e) => return Err(e),
        }
        let b = Block { stmts, yield_expr: y, span: start_span };
        proof {
            lemma_block_view(b);
        }
        Ok(b)
    }

    /// Parses the statements of a block up to `}` or the end of the input,
    /// and the value of a final `=> value;`.
    #[verifier::spinoff_prover]
    fn parse_block_body(&mut self) -> (r: Result<(Vec<Stmt>, Option<Box<Expr>>), String>)
        requires
            old(self).wf(),
        ensures
            final(self).wf(),
            (body_view(r), final(self)@) == block_body_spec(old(self)@, seq![]),
            le(final(self)@, old(self)@),
        decreases measure(old(self)@), 7int,
    {
        let ghost st0 = self@;
        proof {
            self.lemma_wf();
        }
        let mut stmts: Vec<Stmt> = Vec::new();
        assert(view_seq(stmts@) =~= Seq::<StmtView>::empty());
        loop
            invariant
                self.wf(),
                st0 == old(self)@,
                le(self@, st0),
                block_body_spec(self@, view_seq(stmts@)) == block_body_spec(st0, seq![]),
            decreases measure(self@),
        {
            if self.check(&TokenKind::CloseBrace) || self.check(&TokenKind::Eof) {
                return Ok((stmts, None));
            }
            if self.match_token(&TokenKind::FatArrow) {
                let e = match self.parse_expr() {
                    Ok(e) => e,
                    Err(m) => return Err(m),
                };
                match self.expect(&TokenKind::Semicolon, "';' after arrow block return") {
                    Ok(_) => {},
                    Err(m) => return Err(m),
                }
                return Ok((stmts, Some(Box::new(e))));
            }
            let s = match self.parse_stmt() {
                Ok(s) => s,
                Err(m) => return Err(m),
            };
            proof {
                assert(view_seq(stmts@.push(s)) =~= view_seq(stmts@).push(s@));
            }
            stmts.push(s);
        }
    }

    /// Parses a block expression whose `{` was just consumed.
    #[verifier::spinoff_prover]
    fn parse_block_expr(&mut self, start_span: Span) -> (r: Result<Expr, String>)
        requires
            old(self).wf(),
        ensures
            final(self).wf(),
            (result_view(r), final(self)@) == block_expr_spec(old(self)@, start_span),
            le(final(self)@, old(self)@),
        decreases measure(old(self)@), 8int,
    {
        let (stmts, y) = match self.parse_block_body() {
            Ok(p) => p,
            Err(e) => return Err(e),
        };
        match self.expect(&TokenKind::CloseBrace, "'}' to close block") {
            Ok(_) => {},
            Err(e) => return Err(e),
        }
        let b = Block { stmts, yield_expr: y, span: start_span };
        proof {
            lemma_block_view(b);
        }
        let node = Expr::Block(b);
        proof {
            lemma_expr_block_view(node);
        }
        Ok(node)
    }

    /// Parses a branch of `if`: a block, or an expression that becomes a block's value.
    #[verifier::spinoff_prover]
    fn parse_branch_block(&mut self) -> (r: Result<Block, String>)
        requires
            old(self).wf(),
        ensures
            final(self).wf(),
            (result_view(r), final(self)@) == branch_spec(old(self)@),
            le(final(self)@, old(self)@),
            r is Ok ==> lt(final(self)@, old(self)@),
        decreases measure(old(self)@), 5int,
    {
        if self.check(&TokenKind::OpenBrace) {
            self.parse_block()
        } else {
            let e = match self.parse_expr() {
                Ok(e) => e,
                Err(m) => return Err(m),
            };
            let b = Block { stmts: Vec::new(), yield_expr: Some(Box::new(e)), span: self.previous.span };
            proof {
                lemma_block_view(b);
                assert(view_seq(b.stmts@) =~= Seq::<StmtView>::empty());
            }
            Ok(b)
        }
    }

    /// Parses an optional `else` branch.
    #[verifier::spinoff_prover]
    fn parse_else(&mut self) -> (r: Result<Option<Block>, String>)
        requires
            old(self).wf(),
        ensures
            final(self).wf(),
            (result_view_opt(r), final(self)@) == else_spec(old(self)@),
            le(final(self)@, old(self)@),
        decreases measure(old(self)@), 5int,
    {
        if self.match_token(&TokenKind::Else) {
            match self.parse_branch_block() {
                Ok(b) => Ok(Some(b)),
                Err(e) => Err(e),
            }
        } else {
            Ok(None)
        }
    }

    /// Parses an `if` whose keyword was just consumed: `if (cond) then else
    /// other` or `if (let name = value) then else other`.
    #[verifier::spinoff_prover]
    fn parse_if(&mut self, start_span: Span) -> (r: Result<Expr, String>)
        requires
            old(self).wf(),
        ensures
            final(self).wf(),
            (result_view(r), final(self)@) == if_spec(old(self)@, start_span),
            le(final(self)@, old(self)@),
        decreases measure(old(self)@), 6int,
    {
        let has_paren = self.match_token(&TokenKind::OpenParen);
        if self.match_token(&TokenKind::Let) {
            let name = match self.expect_ident("unwrapped variable name") {
                Ok(n) => n,
                Err(e) => return Err(e),
            };
            match self.expect(&TokenKind::Eq, "'=' in if-let") {
                Ok(_) => {},
                Err(e) => return Err(e),
            }
            let value = match self.parse_expr_bp(0, has_paren) {
                Ok(v) => v,
                Err(e) => return Err(e),
            };
            match self.close_paren(has_paren, "')' after if-let condition") {
                Ok(_) => {},
                Err(e) => return Err(e),
            }
            let then_block = match self.parse_branch_block() {
                Ok(b) => b,
                Err(e) => return Err(e),
            };
            let else_block = match self.parse_else() {
                Ok(b) => b,
                Err(e) => return Err(e),
            };
            let node = Expr::IfLet(name, Box::new(value), then_block, else_block, start_span);
            proof {
                lemma_expr_if_let_view(node);
            }
            return Ok(node);
        }
        let cond = match self.parse_expr_bp(0, has_paren) {
            Ok(c) => c,
            Err(e) => return Err(e),
        };
        match self.close_paren(has_paren, "')' after if condition") {
            Ok(_) => {},
            Err(e) => return Err(e),
        }
        let then_block = match self.parse_branch_block() {
            Ok(b) => b,
            Err(e) => return Err(e),
        };
        let else_block = match self.parse_else() {
            Ok(b) => b,
            Err(e) => return Err(e),
        };
        let node = Expr::If(Box::new(cond), then_block, else_block, start_span);
        proof {
            lemma_expr_if_view(node);
        }
        Ok(node)
    }

    /// Parses a `match` whose keyword was just consumed.
    #[verifier::spinoff_prover]
    fn parse_match(&mut self, start_span: Span) -> (r: Result<Expr, String>)
        requires
            old(self).wf(),
        ensures
            final(self).wf(),
            (result_view(r), final(self)@) == match_expr_spec(old(self)@, start_span),
            le(final(self)@, old(self)@),
        decreases measure(old(self)@), 8int,
    {
        let has_paren = self.match_token(&TokenKind::OpenParen);
        let target = match self.parse_expr_bp(0, has_paren) {
            Ok(t) => t,
            Err(e) => return Err(e),
        };
        match self.close_paren(has_paren, "')' after match target") {
            Ok(_) => {},
            Err(e) => return Err(e),
        }
        match self.expect(&TokenKind::OpenBrace, "'{' for match arms") {
            Ok(_) => {},
            Err(e) => return Err(e),
        }
        let arms = match self.parse_arms() {
            Ok(a) => a,
            Err(e) => return Err(e),
        };
        match self.expect(&TokenKind::CloseBrace, "'}' after match arms") {
            Ok(_) => {},
            Err(e) => return Err(e),
        }
        let e = Expr::Match(Box::new(target), arms, start_span);
        proof {
            lemma_expr_match_view(e);
        }
        Ok(e)
    }

    /// Parses a match pattern: `else`, `_`, `.Tag`, `.Tag(let name)`, a range
    /// `low..high`, or a literal expression.
    #[verifier::spinoff_prover]
    fn parse_pattern(&mut self) -> (r: Result<Pattern, String>)
        requires
            old(self).wf(),
        ensures
            final(self).wf(),
            (result_view(r), final(self)@) == pattern_spec(old(self)@),
            le(final(self)@, old(self)@),
            r is Ok ==> lt(final(self)@, old(self)@),
        decreases measure(old(self)@), 5int,
    {
        if self.match_token(&TokenKind::Else) {
            let node = Pattern::Else(self.previous.span);
            proof {
                lemma_pattern_else_view(node);
            }
            return Ok(node);
        }
        if self.check_word("_") {
            self.advance();
            let node = Pattern::Wildcard(self.previous.span);
            proof {
                lemma_pattern_wildcard_view(node);
            }
            return Ok(node);
        }
        if self.match_token(&TokenKind::Dot) {
            let tag = match self.expect_ident("enum tag or variant") {
                Ok(t) => t,
                Err(e) => return Err(e),
            };
            if self.match_token(&TokenKind::OpenParen) {
                match self.expect(&TokenKind::Let, "'let' in variant payload binding") {
                    Ok(_) => {},
                    Err(e) => return Err(e),
                }
                let name = match self.expect_ident("payload binding name") {
                    Ok(n) => n,
                    Err(e) => return Err(e),
                };
                match self.expect(&TokenKind::CloseParen, "')' after payload binding") {
                    Ok(_) => {},
                    Err(e) => return Err(e),
                }
                let node = Pattern::Variant(tag, Some(name), self.previous.span);
                proof {
                    lemma_pattern_variant_view(node);
                }
                return Ok(node);
            }
            let node = Pattern::Variant(tag, None, self.previous.span);
            proof {
                lemma_pattern_variant_view(node);
            }
            return Ok(node);
        }
        let lit = match self.parse_expr() {
            Ok(l) => l,
            Err(e) => return Err(e),
        };
        if self.match_token(&TokenKind::DotDot) {
            let high = match self.parse_expr() {
                Ok(h) => h,
                Err(e) => return Err(e),
            };
            let node = Pattern::Range(Box::new(lit), Box::new(high), self.previous.span);
            proof {
                lemma_pattern_range_view(node);
            }
            return Ok(node);
        }
        let node = Pattern::Literal(Box::new(lit), self.previous.span);
        proof {
            lemma_pattern_literal_view(node);
        }
        Ok(node)
    }

    /// Parses the body of a match arm: a block, or an expression and an optional comma.
    #[verifier::spinoff_prover]
    fn parse_arm_body(&mut self) -> (r: Result<MatchArmBody, String>)
        requires
            old(self).wf(),
        ensures
            final(self).wf(),
            (result_view(r), final(self)@) == arm_body_spec(old(self)@),
            le(final(self)@, old(self)@),
        decreases measure(old(self)@), 5int,
    {
        if self.check(&TokenKind::OpenBrace) {
            match self.parse_block() {
                Ok(b) => {
                    let node = MatchArmBody::Block(b);
                    proof {
                        lemma_match_arm_body_block_view(node);
                    }
                    Ok(node)
                },
                Err(e) => Err(e),
            }
        } else {
            let e = match self.parse_expr() {
                Ok(e) => e,
                Err(m) => return Err(m),
            };
            self.match_token(&TokenKind::Comma);
            let node = MatchArmBody::Expr(Box::new(e));
            proof {
                lemma_match_arm_body_expr_view(node);
            }
            Ok(node)
        }
    }

    /// Parses match arms `pattern => body` up to `}`.
    #[verifier::spinoff_prover]
    #[verifier::rlimit(40)]
    fn parse_arms(&mut self) -> (r: Result<Vec<MatchArm>, String>)
        requires
            old(self).wf(),
        ensures
            final(self).wf(),
            (result_view_vec(r), final(self)@) == arms_spec(old(self)@, seq![]),
            le(final(self)@, old(self)@),
        decreases measure(old(self)@), 7int,
    {
        let ghost st0 = self@;
        proof {
            self.lemma_wf();
        }
        let mut arms: Vec<MatchArm> = Vec::new();
        assert(view_seq(arms@) =~= Seq::<MatchArmView>::empty());
        loop
            invariant
                self.wf(),
                st0 == old(self)@,
                le(self@, st0),
                arms_spec(self@, view_seq(arms@)) == arms_spec(st0, seq![]),
            decreases measure(self@),
        {
            if self.check(&TokenKind::CloseBrace) {
                return Ok(arms);
            }
            let pattern = match self.parse_pattern() {
                Ok(p) => p,
                Err(e) => return Err(e),
            };
            match self.expect(&TokenKind::FatArrow, "'=>' after match pattern") {
                Ok(_) => {},
                Err(e) => return Err(e),
            }
            let body = match self.parse_arm_body() {
                Ok(b) => b,
                Err(e) => return Err(e),
            };
            let arm = MatchArm { pattern, body, span: self.previous.span };
            self.match_token(&TokenKind::Comma);
            proof {
                assert(view_seq(arms@.push(arm)) =~= view_seq(arms@).push(arm@));
            }
            arms.push(arm);
        }
    }

    /// Parses a `while` whose keyword was just consumed.
    #[verifier::spinoff_prover]
    fn parse_while(&mut self, start_span: Span) -> (r: Result<Expr, String>)
        requires
            old(self).wf(),
        ensures
            final(self).wf(),
            (result_view(r), final(self)@) == while_spec(old(self)@, start_span),
            le(final(self)@, old(self)@),
        decreases measure(old(self)@), 5int,
    {
        let has_paren = self.match_token(&TokenKind::OpenParen);
        let cond = match self.parse_expr_bp(0, has_paren) {
            Ok(c) => c,
            Err(e) => return Err(e),
        };
        match self.close_paren(has_paren, "')' after while condition") {
            Ok(_) => {},
            Err(e) => return Err(e),
        }
        let b = match self.parse_block() {
            Ok(b) => b,
            Err(e) => return Err(e),
        };
        let node = Expr::While(None, Box::new(cond), b, start_span);
        proof {
            lemma_expr_while_view(node);
        }
        Ok(node)
    }

    /// Parses a `for` whose keyword was just consumed: `for (name in items)
    /// block` or a three-part loop. To see the `in`, the token after an
    /// identifier is read from the lexer; when it is not `in`, that token is
    /// skipped.
    #[verifier::spinoff_prover]
    fn parse_for(&mut self, start_span: Span) -> (r: Result<Expr, String>)
        requires
            old(self).wf(),
        ensures
            final(self).wf(),
            (result_view(r), final(self)@) == for_spec(old(self)@, start_span),
            le(final(self)@, old(self)@),
        decreases measure(old(self)@), 6int,
    {
        let ghost st = self@;
        let has_paren = self.match_token(&TokenKind::OpenParen);
        let ghost s1 = self@;
        let ident: Option<String> = match &self.current.kind {
            TokenKind::Ident(n) => Some(n.clone()),
            _ => None,
        };
        match ident {
            Some(var_name) => {
                proof {
                    reveal(Parser::wf);
                    self.lemma_wf();
                    lemma_next_token_stream(self@.text, self@.pos);
                }
                let next_tok = self.lexer.next_token();
                assert(state_ok(self@));
                assert(le(self@, s1)) by {
                    reveal(measure);
                }
                if same_kind(&next_tok.kind, &TokenKind::In) {
                    self.advance();
                    let iter = match self.parse_expr_bp(0, has_paren) {
                        Ok(i) => i,
                        Err(e) => return Err(e),
                    };
                    match self.close_paren(has_paren, "')' after for-in loop") {
                        Ok(_) => {},
                        Err(e) => return Err(e),
                    }
                    let b = match self.parse_block() {
                        Ok(b) => b,
                        Err(e) => return Err(e),
                    };
                    let node = Expr::ForIn(None, var_name, Box::new(iter), b, start_span);
                    proof {
                        lemma_expr_for_in_view(node);
                    }
                    Ok(node)
                } else {
                    self.parse_c_for(has_paren, start_span)
                }
            },
            None => self.parse_c_for(has_paren, start_span),
        }
    }

    /// Parses the step of a three-part `for`: `lhs += e` and `lhs -= e`
    /// become additions and subtractions, `lhs = e` becomes `e`.
    #[verifier::spinoff_prover]
    fn parse_for_step(&mut self, lhs: Expr) -> (r: Result<Expr, String>)
        requires
            old(self).wf(),
        ensures
            final(self).wf(),
            (result_view(r), final(self)@) == for_step_spec(old(self)@, lhs@),
            le(final(self)@, old(self)@),
        decreases measure(old(self)@), 1int,
    {
        if self.match_token(&TokenKind::PlusEq) {
            let rhs = match self.parse_expr() {
                Ok(e) => e,
                Err(m) => return Err(m),
            };
            let node = Expr::Binary(Box::new(lhs), BinaryOp::Add, Box::new(rhs), self.previous.span);
            proof {
                lemma_expr_binary_view(node);
            }
            return Ok(node);
        }
        if self.match_token(&TokenKind::MinusEq) {
            let rhs = match self.parse_expr() {
                Ok(e) => e,
                Err(m) => return Err(m),
            };
            let node = Expr::Binary(Box::new(lhs), BinaryOp::Sub, Box::new(rhs), self.previous.span);
            proof {
                lemma_expr_binary_view(node);
            }
            return Ok(node);
        }
        if self.match_token(&TokenKind::Eq) {
            return self.parse_expr();
        }
        Ok(lhs)
    }

    /// Parses a three-part `for (var i = 0; cond; step) block` after `for`
    /// and the optional `(`.
    #[verifier::spinoff_prover]
    fn parse_c_for(&mut self, has_paren: bool, start_span: Span) -> (r: Result<Expr, String>)
        requires
            old(self).wf(),
        ensures
            final(self).wf(),
            (result_view(r), final(self)@) == c_for_spec(old(self)@, has_paren, start_span),
            le(final(self)@, old(self)@),
        decreases measure(old(self)@), 3int,
    {
        match self.expect(&TokenKind::Var, "'var' in 3-part for loop") {
            Ok(_) => {},
            Err(e) => return Err(e),
        }
        let init = match self.parse_var_decl(true) {
            Ok(v) => v,
            Err(e) => return Err(e),
        };
        match self.expect(&TokenKind::Semicolon, "';' after for-init") {
            Ok(_) => {},
            Err(e) => return Err(e),
        }
        self.parse_c_for_cond(init, has_paren, start_span)
    }

    /// Parses the condition of a three-part `for` and the `;` after it, then the rest.
    #[verifier::spinoff_prover]
    fn parse_c_for_cond(&mut self, init: VarDecl, has_paren: bool, start_span: Span) -> (r: Result<Expr, String>)
        requires
            old(self).wf(),
        ensures
            final(self).wf(),
            (result_view(r), final(self)@) == c_for_cond_spec(old(self)@, init@, has_paren, start_span),
            le(final(self)@, old(self)@),
        decreases measure(old(self)@), 5int,
    {
        let cond = match self.parse_expr() {
            Ok(c) => c,
            Err(e) => return Err(e),
        };
        match self.expect(&TokenKind::Semicolon, "';' after for-condition") {
            Ok(_) => {},
            Err(e) => return Err(e),
        }
        self.parse_c_for_step(init, cond, has_paren, start_span)
    }

    /// Parses the step of a three-part `for`, then the rest.
    #[verifier::spinoff_prover]
    fn parse_c_for_step(&mut self, init: VarDecl, cond: Expr, has_paren: bool, start_span: Span) -> (r: Result<Expr, String>)
        requires
            old(self).wf(),
        ensures
            final(self).wf(),
            (result_view(r), final(self)@) == c_for_step_spec(old(self)@, init@, cond@, has_paren, start_span),
            le(final(self)@, old(self)@),
        decreases measure(old(self)@), 5int,
    {
        let lhs = match self.parse_expr() {
            Ok(l) => l,
            Err(e) => return Err(e),
        };
        let step = match self.parse_for_step(lhs) {
            Ok(s) => s,
            Err(e) => return Err(e),
        };
        self.parse_c_for_body(init, cond, step, has_paren, start_span)
    }

    /// Parses the optional `)` and the body of a three-part `for`.
    #[verifier::spinoff_prover]
    fn parse_c_for_body(&mut self, init: VarDecl, cond: Expr, step: Expr, has_paren: bool, start_span: Span) -> (r: Result<Expr, String>)
        requires
            old(self).wf(),
        ensures
            final(self).wf(),
            (result_view(r), final(self)@) == c_for_body_spec(old(self)@, init@, cond@, step@, has_paren, start_span),
            le(final(self)@, old(self)@),
        decreases measure(old(self)@), 2int,
    {
        match self.close_paren(has_paren, "')' after 3-part for header") {
            Ok(_) => {},
            Err(e) => return Err(e),
        }
        let b = match self.parse_block() {
            Ok(b) => b,
            Err(e) => return Err(e),
        };
        Ok(for_c_node(init, cond, step, b, start_span))
    }

    /// Consumes an assignment operator, if the current token is one.
    #[verifier::spinoff_prover]
    fn parse_assign_op(&mut self) -> (r: Option<AssignOp>)
        requires
            old(self).wf(),
        ensures
            final(self).wf(),
            (r, final(self)@) == assign_op_spec(old(self)@),
            le(final(self)@, old(self)@),
    {
        if self.match_token(&TokenKind::Eq) {
            Some(AssignOp::Assign)
        } else if self.match_token(&TokenKind::PlusEq) {
            Some(AssignOp::PlusAssign)
        } else if self.match_token(&TokenKind::MinusEq) {
            Some(AssignOp::MinusAssign)
        } else if self.match_token(&TokenKind::StarEq) {
            Some(AssignOp::StarAssign)
        } else if self.match_token(&TokenKind::SlashEq) {
            Some(AssignOp::SlashAssign)
        } else {
            None
        }
    }

    /// Parses a statement: a `let` or `var` declaration, `defer`, `errdefer`,
    /// an assignment, or an expression.
    #[verifier::spinoff_prover]
    fn parse_stmt(&mut self) -> (r: Result<Stmt, String>)
        requires
            old(self).wf(),
        ensures
            final(self).wf(),
            (result_view(r), final(self)@) == stmt_spec(old(self)@),
            le(final(self)@, old(self)@),
            r is Ok ==> lt(final(self)@, old(self)@),
        decreases measure(old(self)@), 6int,
    {
        if self.check(&TokenKind::Let) || self.check(&TokenKind::Var) {
            self.parse_decl_stmt()
        } else if self.check(&TokenKind::Defer) || self.check(&TokenKind::Errdefer) {
            self.parse_defer_stmt()
        } else {
            self.parse_expr_stmt()
        }
    }

    /// Parses a declaration statement `let name ... ;` or `var name ... ;`.
    #[verifier::spinoff_prover]
    #[verifier::rlimit(40)]
    fn parse_decl_stmt(&mut self) -> (r: Result<Stmt, String>)
        requires
            old(self).wf(),
            old(self)@.current.kind is Let || old(self)@.current.kind is Var,
        ensures
            final(self).wf(),
            (result_view(r), final(self)@) == decl_stmt_spec(old(self)@),
            le(final(self)@, old(self)@),
            r is Ok ==> lt(final(self)@, old(self)@),
        decreases measure(old(self)@), 1int,
    {
        let is_var = self.check(&TokenKind::Var);
        self.advance();
        let v = match self.parse_var_decl(is_var) {
            Ok(v) => v,
            Err(e) => return Err(e),
        };
        let what = if is_var { "';' after var statement" } else { "';' after let statement" };
        match self.expect(&TokenKind::Semicolon, what) {
            Ok(_) => {},
            Err(e) => return Err(e),
        }
        let node = if is_var { Stmt::Var(v) } else { Stmt::Let(v) };
        proof {
            if is_var {
                lemma_stmt_var_view(node);
            } else {
                lemma_stmt_let_view(node);
            }
        }
        Ok(node)
    }

    /// Parses a statement `defer value;` or `errdefer value;`.
    #[verifier::spinoff_prover]
    fn parse_defer_stmt(&mut self) -> (r: Result<Stmt, String>)
        requires
            old(self).wf(),
            old(self)@.current.kind is Defer || old(self)@.current.kind is Errdefer,
        ensures
            final(self).wf(),
            (result_view(r), final(self)@) == defer_stmt_spec(old(self)@),
            le(final(self)@, old(self)@),
            r is Ok ==> lt(final(self)@, old(self)@),
        decreases measure(old(self)@), 1int,
    {
        let span = self.current.span;
        let is_err = self.check(&TokenKind::Errdefer);
        self.advance();
        let e = match self.parse_expr() {
            Ok(e) => e,
            Err(m) => return Err(m),
        };
        let what = if is_err { "';' after errdefer statement" } else { "';' after defer statement" };
        match self.expect(&TokenKind::Semicolon, what) {
            Ok(_) => {},
            Err(m) => return Err(m),
        }
        let node = if is_err { Stmt::Errdefer(e, span) } else { Stmt::Defer(e, span) };
        proof {
            if is_err {
                lemma_stmt_errdefer_view(node);
            } else {
                lemma_stmt_defer_view(node);
            }
        }
        Ok(node)
    }

    /// Parses an assignment `target op value;` or an expression statement.
    #[verifier::spinoff_prover]
    #[verifier::rlimit(40)]
    fn parse_expr_stmt(&mut self) -> (r: Result<Stmt, String>)
        requires
            old(self).wf(),
        ensures
            final(self).wf(),
            (result_view(r), final(self)@) == expr_stmt_spec(old(self)@),
            le(final(self)@, old(self)@),
            r is Ok ==> lt(final(self)@, old(self)@),
        decreases measure(old(self)@), 5int,
    {
        let span = self.current.span;
        let e = match self.parse_expr() {
            Ok(e) => e,
            Err(m) => return Err(m),
        };
        match self.parse_assign_op() {
            Some(op) => {
                let val = match self.parse_expr() {
                    Ok(v) => v,
                    Err(m) => return Err(m),
                };
                match self.expect(&TokenKind::Semicolon, "';' after assignment") {
                    Ok(_) => {},
                    Err(m) => return Err(m),
                }
                let node = Stmt::Assign(e, op, val, span);
                proof {
                    lemma_stmt_assign_view(node);
                }
                Ok(node)
            },
            None => {
                if is_block_expr_exec(&e) {
                    self.match_token(&TokenKind::Semicolon);
                } else {
                    match self.expect(&TokenKind::Semicolon, "';' after expression statement") {
                        Ok(_) => {},
                        Err(m) => return Err(m),
                    }
                }
                let node = Stmt::Expr(e, span);
                proof {
                    lemma_stmt_expr_view(node);
                }
                Ok(node)
            },
        }
    }

    /// Parses a variable declaration after `let` or `var`: `name := value`,
    /// `name: T = value` or `name = value`.
    #[verifier::spinoff_prover]
    pub(crate) fn parse_var_decl(&mut self, is_mut: bool) -> (r: Result<VarDecl, String>)
        requires
            old(self).wf(),
        ensures
            final(self).wf(),
            (result_view(r), final(self)@) == var_decl_spec(old(self)@, is_mut),
            le(final(self)@, old(self)@),
            r is Ok ==> lt(final(self)@, old(self)@),
        decreases measure(old(self)@), 1int,
    {
        let name = match self.expect_ident("variable name") {
            Ok(n) => n,
            Err(e) => return Err(e),
        };
        if self.match_token(&TokenKind::ColonEq) {
            let value = match self.parse_expr() {
                Ok(v) => v,
                Err(e) => return Err(e),
            };
            return Ok(VarDecl { name, is_mut, ty: None, value, span: self.previous.span });
        }
        let ty = if self.match_token(&TokenKind::Colon) {
            match self.parse_type() {
                Ok(t) => Some(t),
                Err(e) => return Err(e),
            }
        } else {
            None
        };
        match self.expect(&TokenKind::Eq, "'=' in variable declaration") {
            Ok(_) => {},
            Err(e) => return Err(e),
        }
        let value = match self.parse_expr() {
            Ok(v) => v,
            Err(e) => return Err(e),
        };
        Ok(VarDecl { name, is_mut, ty, value, span: self.previous.span })
    }
}







} // verus!
