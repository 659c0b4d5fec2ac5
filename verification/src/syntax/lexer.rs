//! Hand-written lexer for Juyu.

use vstd::prelude::*;
use crate::syntax::chars::{
    byte_len, is_ascii_alphabetic, is_ascii_alphanumeric, is_ascii_digit, is_ascii_hexdigit,
    is_digit, is_whitespace, is_word_char, lemma_byte_len_push, lemma_byte_len_take_mono,
    lemma_encode_utf8_len, push_char, string_of, text, utf8_width, word_eq,
};
use crate::syntax::indent::{
    strip_indentation, strip_indentation_chars,
};
use crate::syntax::lexspec::{
    at_sign, block_comment_end, char_escape, char_literal, decimal_end, find_triple_quote,
    keyword_or_ident, lex_token, line_comment_end, maybe_pair, multiline_string,
    next_token_spec, number_literal, number_suffix, int_suffix, remove_underscores, skip_trivia,
    string_body, string_escape, string_literal, lemma_block_comment_end_bounds, raw_string_contents,
    interpolated_string,
};
use crate::syntax::number::{
    is_radix_digit, parse_int_digits,
};
use crate::syntax::scan::{
    char_at, find_char, line_col, run_end, CharClass, lemma_find_char_bounds, lemma_line_col_bounds,
    lemma_run_end_bounds,
};
use crate::syntax::token::{
    Span, Token, TokenKind,
};

verus! {

/// The lexer's position in a text: the characters and the index of the next one.
pub struct LexState {
    pub text: Seq<char>,
    pub pos: int,
}

/// Turns source text into tokens, one `next_token` call at a time.
pub struct Lexer {
    chars: Vec<(usize, char)>,
    text: Ghost<Seq<char>>,
    source_len: usize,
    cursor: usize,
    line: usize,
    col: usize,
}

impl View for Lexer {
    type V = LexState;

    closed spec fn view(&self) -> LexState {
        LexState { text: self.text@, pos: self.cursor as int }
    }
}

impl Lexer {
    /// The lexer's bookkeeping agrees with its text: byte offsets, source
    /// length, and the line and column of the cursor.
    #[verifier::opaque]
    pub closed spec fn wf(&self) -> bool {
        let t = self@.text;
        &&& self.chars@.len() == t.len()
        &&& self.cursor <= self.chars@.len()
        &&& self.chars@.len() < usize::MAX
        &&& forall|i: int|
            0 <= i < self.chars@.len() ==> (#[trigger] self.chars@[i]).0 == byte_len(t.take(i))
                && self.chars@[i].1 == t[i]
        &&& self.source_len == byte_len(t)
        &&& self.line == line_col(t, self.cursor as int).0
        &&& self.col == line_col(t, self.cursor as int).1
    }

    pub proof fn lemma_wf(&self)
        requires
            self.wf(),
        ensures
            0 <= self@.pos <= self@.text.len(),
            self@.text.len() < usize::MAX,
    {
        reveal(Lexer::wf);
    }

    /// A lexer at the start of `source`.
    pub fn new(source: &str) -> (l: Self)
        requires
            source@.len() < usize::MAX,
        ensures
            l.wf(),
            l@.text == source@,
            l@.pos == 0,
    {
        let n = source.as_bytes().len();
        proof {
            lemma_encode_utf8_len(source@);
        }
        let mut chars: Vec<(usize, char)> = Vec::new();
        let mut off: usize = 0;
        for c in it: source.chars()
            invariant
                it.seq() == source@,
                n == byte_len(source@),
                chars@.len() == it.index(),
                off == byte_len(source@.take(it.index() as int)),
                source@.len() < usize::MAX,
                forall|i: int|
                    0 <= i < chars@.len() ==> (#[trigger] chars@[i]).0 == byte_len(source@.take(i))
                        && chars@[i].1 == source@[i],
        {
            let ghost i = chars@.len() as int;
            proof {
                assert(source@.take(i + 1) =~= source@.take(i).push(source@[i]));
                lemma_byte_len_push(source@.take(i), source@[i]);
                lemma_byte_len_take_mono(source@, i + 1, source@.len() as int);
                assert(source@.take(source@.len() as int) =~= source@);
            }
            chars.push((off, c));
            off = off + utf8_width(c);
        }
        let l = Lexer { chars, text: Ghost(source@), source_len: n, cursor: 0, line: 1, col: 1 };
        reveal(Lexer::wf);
        assert(l@.text.take(0) =~= Seq::<char>::empty());
        l
    }

    /// The next character, without consuming it.
    pub fn peek(&self) -> (c: Option<char>)
        requires
            self.wf(),
        ensures
            c == char_at(self@.text, self@.pos),
    {
        reveal(Lexer::wf);
        if self.cursor < self.chars.len() {
            Some(self.chars[self.cursor].1)
        } else {
            None
        }
    }

    /// The character after the next one, without consuming anything.
    pub fn peek_next(&self) -> (c: Option<char>)
        requires
            self.wf(),
        ensures
            c == char_at(self@.text, self@.pos + 1),
    {
        reveal(Lexer::wf);
        if self.cursor < self.chars.len() && self.cursor + 1 < self.chars.len() {
            Some(self.chars[self.cursor + 1].1)
        } else {
            None
        }
    }

    /// Consumes and returns the next character, if there is one, keeping the
    /// line and column up to date.
    pub fn advance(&mut self) -> (c: Option<char>)
        requires
            old(self).wf(),
        ensures
            final(self).wf(),
            final(self)@.text == old(self)@.text,
            c == char_at(old(self)@.text, old(self)@.pos),
            final(self)@.pos == if old(self)@.pos < old(self)@.text.len() {
                old(self)@.pos + 1
            } else {
                old(self)@.pos
            },
    {
        reveal(Lexer::wf);
        if self.cursor < self.chars.len() {
            let c = self.chars[self.cursor].1;
            let ghost t = self@.text;
            proof {
                lemma_line_col_bounds(t, self.cursor + 1);
            }
            self.cursor += 1;
            if c == '\n' {
                self.line += 1;
                self.col = 1;
            } else {
                self.col += 1;
            }
            Some(c)
        } else {
            None
        }
    }

    /// The byte offset of the next character, or the source length at the end.
    pub fn current_pos(&self) -> (p: usize)
        requires
            self.wf(),
        ensures
            p == byte_len(self@.text.take(self@.pos)),
    {
        reveal(Lexer::wf);
        if self.cursor < self.chars.len() {
            self.chars[self.cursor].0
        } else {
            assert(self@.text.take(self@.pos) =~= self@.text);
            self.source_len
        }
    }

    /// Skips a `//` comment that starts at the cursor, through its line feed.
    fn skip_line_comment(&mut self)
        requires
            old(self).wf(),
            char_at(old(self)@.text, old(self)@.pos) == Some('/'),
            char_at(old(self)@.text, old(self)@.pos + 1) == Some('/'),
        ensures
            final(self).wf(),
            final(self)@.text == old(self)@.text,
            final(self)@.pos == line_comment_end(old(self)@.text, old(self)@.pos + 2),
    {
        let ghost t = self@.text;
        let ghost q = self@.pos;
        self.advance();
        self.advance();
        proof {
            lemma_find_char_bounds(t, q + 2, '\n');
        }
        loop
            invariant_except_break
                self.wf(),
                self@.text == t,
                q + 2 <= self@.pos <= t.len(),
                find_char(t, self@.pos, '\n') == find_char(t, q + 2, '\n'),
            ensures
                self.wf(),
                self@.text == t,
                self@.pos == line_comment_end(t, q + 2),
            decreases t.len() - self@.pos,
        {
            match self.peek() {
                Some(c) => {
                    if c == '\n' {
                        self.advance();
                        break;
                    }
                    self.advance();
                },
                None => {
                    break;
                },
            }
        }
    }

    /// Skips a block comment that starts at the cursor, with the comments
    /// nested in it; an unclosed one runs to the end of the input.
    fn skip_block_comment(&mut self)
        requires
            old(self).wf(),
            char_at(old(self)@.text, old(self)@.pos) == Some('/'),
            char_at(old(self)@.text, old(self)@.pos + 1) == Some('*'),
        ensures
            final(self).wf(),
            final(self)@.text == old(self)@.text,
            final(self)@.pos == block_comment_end(old(self)@.text, old(self)@.pos + 2, 1),
    {
        let ghost t = self@.text;
        let ghost q = self@.pos;
        self.advance();
        self.advance();
        let mut depth: usize = 1;
        proof {
            lemma_block_comment_end_bounds(t, q + 2, 1);
        }
        while depth > 0
            invariant_except_break
                self.wf(),
                self@.text == t,
                q + 2 <= self@.pos <= t.len(),
                depth <= self@.pos,
                block_comment_end(t, self@.pos, depth as nat) == block_comment_end(t, q + 2, 1),
            ensures
                self.wf(),
                self@.text == t,
                self@.pos == block_comment_end(t, q + 2, 1),
            decreases t.len() - self@.pos,
        {
            if let Some(c) = self.advance() {
                if c == '/' && self.peek() == Some('*') {
                    self.advance();
                    depth += 1;
                } else if c == '*' && self.peek() == Some('/') {
                    self.advance();
                    depth -= 1;
                }
            } else {
                break;
            }
        }
    }

    /// Skips a run of whitespace.
    fn skip_whitespace(&mut self)
        requires
            old(self).wf(),
        ensures
            final(self).wf(),
            final(self)@.text == old(self)@.text,
            final(self)@.pos == run_end(old(self)@.text, old(self)@.pos, CharClass::Whitespace),
    {
        let ghost t = self@.text;
        let ghost p0 = self@.pos;
        loop
            invariant_except_break
                self.wf(),
                self@.text == t,
                run_end(t, self@.pos, CharClass::Whitespace) == run_end(
                    t,
                    p0,
                    CharClass::Whitespace,
                ),
            ensures
                self.wf(),
                self@.text == t,
                self@.pos == run_end(t, p0, CharClass::Whitespace),
            decreases t.len() - self@.pos,
        {
            match self.peek() {
                Some(c) => {
                    if is_whitespace(c) {
                        self.advance();
                    } else {
                        break;
                    }
                },
                None => {
                    break;
                },
            }
        }
    }

    /// Skips whitespace, `//` line comments and nestable `/* */` block comments.
    pub fn skip_whitespace_and_comments(&mut self)
        requires
            old(self).wf(),
        ensures
            final(self).wf(),
            final(self)@.text == old(self)@.text,
            final(self)@.pos == skip_trivia(old(self)@.text, old(self)@.pos),
    {
        let ghost t = self@.text;
        let ghost target = skip_trivia(t, self@.pos);
        loop
            invariant_except_break
                self.wf(),
                self@.text == t,
                skip_trivia(t, self@.pos) == target,
            ensures
                self.wf(),
                self@.text == t,
                self@.pos == target,
            decreases t.len() - self@.pos,
        {
            let ghost p0 = self@.pos;
            proof {
                self.lemma_wf();
                lemma_run_end_bounds(t, p0, CharClass::Whitespace);
            }
            self.skip_whitespace();
            let ghost q = self@.pos;
            let first = self.peek();
            let second = self.peek_next();
            if first == Some('/') && second == Some('/') {
                proof {
                    lemma_find_char_bounds(t, q + 2, '\n');
                }
                self.skip_line_comment();
                assert(skip_trivia(t, p0) == skip_trivia(t, line_comment_end(t, q + 2)));
            } else if first == Some('/') && second == Some('*') {
                proof {
                    lemma_block_comment_end_bounds(t, q + 2, 1);
                }
                self.skip_block_comment();
                assert(skip_trivia(t, p0) == skip_trivia(t, block_comment_end(t, q + 2, 1)));
            } else {
                assert(skip_trivia(t, p0) == q);
                break;
            }
        }
    }
}


fn string_escape_exec(c: char) -> (r: char)
    ensures
        r == string_escape(c),
{
    if c == 'n' {
        '\n'
    } else if c == 'r' {
        '\r'
    } else if c == 't' {
        '\t'
    } else if c == '0' {
        '\0'
    } else {
        c
    }
}

fn char_escape_exec(c: char) -> (r: char)
    ensures
        r == char_escape(c),
{
    if c == 'n' {
        '\n'
    } else if c == 't' {
        '\t'
    } else if c == '0' {
        '\0'
    } else {
        c
    }
}

/// The keyword that `w` spells, or the identifier `w`.
fn keyword_kind(w: &Vec<char>) -> (k: TokenKind)
    ensures
        k@ == keyword_or_ident(w@),
{
    if word_eq(w, "let") {
        TokenKind::Let
    } else if word_eq(w, "var") {
        TokenKind::Var
    } else if word_eq(w, "fn") {
        TokenKind::Fn
    } else if word_eq(w, "struct") {
        TokenKind::Struct
    } else if word_eq(w, "packed") {
        TokenKind::Packed
    } else if word_eq(w, "extern") {
        TokenKind::Extern
    } else if word_eq(w, "interface") {
        TokenKind::Interface
    } else if word_eq(w, "extend") {
        TokenKind::Extend
    } else if word_eq(w, "pub") {
        TokenKind::Pub
    } else if word_eq(w, "export") {
        TokenKind::Export
    } else if word_eq(w, "static") {
        TokenKind::Static
    } else if word_eq(w, "inline") {
        TokenKind::Inline
    } else if word_eq(w, "noinline") {
        TokenKind::Noinline
    } else if word_eq(w, "const") {
        TokenKind::Const
    } else if word_eq(w, "naked") {
        TokenKind::Naked
    } else if word_eq(w, "match") {
        TokenKind::Match
    } else if word_eq(w, "loop") {
        TokenKind::Loop
    } else if word_eq(w, "while") {
        TokenKind::While
    } else if word_eq(w, "for") {
        TokenKind::For
    } else if word_eq(w, "in") {
        TokenKind::In
    } else if word_eq(w, "if") {
        TokenKind::If
    } else if word_eq(w, "else") {
        TokenKind::Else
    } else if word_eq(w, "break") {
        TokenKind::Break
    } else if word_eq(w, "continue") {
        TokenKind::Continue
    } else if word_eq(w, "defer") {
        TokenKind::Defer
    } else if word_eq(w, "errdefer") {
        TokenKind::Errdefer
    } else if word_eq(w, "try") {
        TokenKind::Try
    } else if word_eq(w, "catch") {
        TokenKind::Catch
    } else if word_eq(w, "null") {
        TokenKind::Null
    } else if word_eq(w, "undefined") {
        TokenKind::Undefined
    } else if word_eq(w, "unreachable") {
        TokenKind::Unreachable
    } else if word_eq(w, "type") {
        TokenKind::Type
    } else if word_eq(w, "distinct") {
        TokenKind::Distinct
    } else if word_eq(w, "test") {
        TokenKind::Test
    } else if word_eq(w, "import") {
        TokenKind::Import
    } else if word_eq(w, "enum") {
        TokenKind::Enum
    } else if word_eq(w, "union") {
        TokenKind::Union
    } else if word_eq(w, "bitand") {
        TokenKind::BitAnd
    } else if word_eq(w, "bitor") {
        TokenKind::BitOr
    } else if word_eq(w, "bitxor") {
        TokenKind::BitXor
    } else if word_eq(w, "true") {
        TokenKind::BoolLit(true)
    } else if word_eq(w, "false") {
        TokenKind::BoolLit(false)
    } else {
        TokenKind::Ident(string_of(w))
    }
}

impl Lexer {
    /// `two` when the next character is `c` (which is consumed), else `one`.
    fn pair(&mut self, c: char, two: TokenKind, one: TokenKind) -> (k: TokenKind)
        requires
            old(self).wf(),
        ensures
            final(self).wf(),
            final(self)@.text == old(self)@.text,
            (k@, final(self)@.pos) == maybe_pair(old(self)@.text, old(self)@.pos, c, two@, one@),
    {
        if self.peek() == Some(c) {
            self.advance();
            two
        } else {
            one
        }
    }

    /// Lexes a string literal whose opening quote was just consumed.
    fn lex_string(&mut self) -> (k: TokenKind)
        requires
            old(self).wf(),
        ensures
            final(self).wf(),
            final(self)@.text == old(self)@.text,
            (k@, final(self)@.pos) == string_literal(old(self)@.text, old(self)@.pos),
    {
        if self.peek() == Some('"') && self.peek_next() == Some('"') {
            self.advance();
            self.advance();
            return self.lex_multiline_string();
        }
        let ghost t = self@.text;
        let ghost p0 = self@.pos;
        let mut content = String::new();
        loop
            invariant_except_break
                self.wf(),
                self@.text == t,
                t == old(self)@.text,
                p0 == old(self)@.pos,
                string_body(t, self@.pos, content@) == string_body(t, p0, seq![]),
                !(char_at(t, p0) == Some('"') && char_at(t, p0 + 1) == Some('"')),
            ensures
                self.wf(),
                self@.text == t,
                self@.pos == t.len(),
                string_body(t, self@.pos, content@) == string_body(t, p0, seq![]),
            decreases t.len() - self@.pos,
        {
            proof {
                self.lemma_wf();
            }
            match self.advance() {
                None => {
                    break;
                },
                Some(c) => {
                    if c == '"' {
                        return TokenKind::StringLit(content);
                    } else if c == '\\' {
                        if let Some(esc) = self.advance() {
                            push_char(&mut content, string_escape_exec(esc));
                        }
                    } else if c == '\n' {
                        return TokenKind::Error(text("Unterminated single-line string literal"));
                    } else {
                        push_char(&mut content, c);
                    }
                },
            }
        }
        TokenKind::Error(text("Unclosed string literal"))
    }

    /// Lexes a multiline string literal whose opening `"""` was just consumed.
    fn lex_multiline_string(&mut self) -> (k: TokenKind)
        requires
            old(self).wf(),
        ensures
            final(self).wf(),
            final(self)@.text == old(self)@.text,
            (k@, final(self)@.pos) == multiline_string(old(self)@.text, old(self)@.pos),
    {
        let ghost t = self@.text;
        let ghost p0 = self@.pos;
        let mut raw: Vec<char> = Vec::new();
        proof {
            self.lemma_wf();
        }
        loop
            invariant_except_break
                self.wf(),
                self@.text == t,
                t == old(self)@.text,
                p0 == old(self)@.pos,
                p0 <= self@.pos <= t.len(),
                raw@ == t.subrange(p0, self@.pos),
                find_triple_quote(t, self@.pos) == find_triple_quote(t, p0),
            ensures
                self.wf(),
                self@.text == t,
                self@.pos == t.len(),
                find_triple_quote(t, p0) == t.len(),
            decreases t.len() - self@.pos,
        {
            let ghost p = self@.pos;
            match self.advance() {
                None => {
                    break;
                },
                Some(c) => {
                    if c == '"' && self.peek() == Some('"') && self.peek_next() == Some('"') {
                        self.advance();
                        self.advance();
                        assert(find_triple_quote(t, p) == p);
                        let stripped = strip_indentation_chars(&raw);
                        return TokenKind::StringLit(string_of(&stripped));
                    }
                    raw.push(c);
                    assert(t.subrange(p0, p + 1) =~= t.subrange(p0, p).push(c));
                },
            }
        }
        TokenKind::Error(text("Unclosed multiline string literal"))
    }

    /// The text of an escaped identifier `@"..."` up to its closing quote,
    /// which is consumed.
    pub fn lex_raw_string_contents(&mut self) -> (s: String)
        requires
            old(self).wf(),
        ensures
            final(self).wf(),
            final(self)@.text == old(self)@.text,
            (s@, final(self)@.pos) == raw_string_contents(old(self)@.text, old(self)@.pos),
    {
        let ghost t = self@.text;
        let ghost p0 = self@.pos;
        let mut content = String::new();
        proof {
            self.lemma_wf();
        }
        loop
            invariant_except_break
                self.wf(),
                self@.text == t,
                t == old(self)@.text,
                p0 == old(self)@.pos,
                p0 <= self@.pos <= t.len(),
                content@ == t.subrange(p0, self@.pos),
                find_char(t, self@.pos, '"') == find_char(t, p0, '"'),
            ensures
                self.wf(),
                self@.text == t,
                (content@, self@.pos) == raw_string_contents(t, p0),
            decreases t.len() - self@.pos,
        {
            let ghost p = self@.pos;
            match self.advance() {
                None => {
                    break;
                },
                Some(c) => {
                    if c == '"' {
                        break;
                    }
                    push_char(&mut content, c);
                    assert(t.subrange(p0, p + 1) =~= t.subrange(p0, p).push(c));
                },
            }
        }
        content
    }

    /// Lexes an interpolated string whose opening `$"` was just consumed.
    fn lex_interpolated_string(&mut self) -> (k: TokenKind)
        requires
            old(self).wf(),
        ensures
            final(self).wf(),
            final(self)@.text == old(self)@.text,
            (k@, final(self)@.pos) == interpolated_string(old(self)@.text, old(self)@.pos),
    {
        let ghost t = self@.text;
        let ghost p0 = self@.pos;
        let mut content = String::new();
        proof {
            self.lemma_wf();
        }
        loop
            invariant_except_break
                self.wf(),
                self@.text == t,
                t == old(self)@.text,
                p0 == old(self)@.pos,
                p0 <= self@.pos <= t.len(),
                content@ == t.subrange(p0, self@.pos),
                find_char(t, self@.pos, '"') == find_char(t, p0, '"'),
            ensures
                self.wf(),
                self@.text == t,
                self@.pos == t.len(),
                find_char(t, p0, '"') == t.len(),
            decreases t.len() - self@.pos,
        {
            let ghost p = self@.pos;
            match self.advance() {
                None => {
                    break;
                },
                Some(c) => {
                    if c == '"' {
                        return TokenKind::InterpolatedString(content);
                    }
                    push_char(&mut content, c);
                    assert(t.subrange(p0, p + 1) =~= t.subrange(p0, p).push(c));
                },
            }
        }
        TokenKind::Error(text("Unclosed interpolated string literal"))
    }

    /// Lexes a character literal whose opening quote was just consumed.
    fn lex_char(&mut self) -> (k: TokenKind)
        requires
            old(self).wf(),
        ensures
            final(self).wf(),
            final(self)@.text == old(self)@.text,
            (k@, final(self)@.pos) == char_literal(old(self)@.text, old(self)@.pos),
    {
        proof {
            self.lemma_wf();
        }
        let c = match self.advance() {
            Some(first) => {
                if first == '\\' {
                    match self.advance() {
                        Some(e) => char_escape_exec(e),
                        None => {
                            return TokenKind::Error(text("Unclosed escape in char literal"));
                        },
                    }
                } else {
                    first
                }
            },
            None => {
                return TokenKind::Error(text("Unclosed char literal"));
            },
        };
        if self.advance() != Some('\'') {
            return TokenKind::Error(text("Expected closing quote for char literal"));
        }
        TokenKind::CharLit(c)
    }

    /// Lexes an identifier or keyword whose first character was just consumed.
    fn lex_identifier(&mut self, first_char: char) -> (k: TokenKind)
        requires
            old(self).wf(),
            1 <= old(self)@.pos,
            old(self)@.text[old(self)@.pos - 1] == first_char,
        ensures
            final(self).wf(),
            final(self)@.text == old(self)@.text,
            final(self)@.pos == run_end(old(self)@.text, old(self)@.pos, CharClass::Word),
            k@ == keyword_or_ident(old(self)@.text.subrange(old(self)@.pos - 1, final(self)@.pos)),
    {
        let ghost t = self@.text;
        let ghost p0 = self@.pos;
        let mut ident: Vec<char> = Vec::new();
        ident.push(first_char);
        proof {
            self.lemma_wf();
            assert(ident@ =~= t.subrange(p0 - 1, p0));
        }
        loop
            invariant_except_break
                self.wf(),
                self@.text == t,
                t == old(self)@.text,
                p0 == old(self)@.pos,
                1 <= p0 <= self@.pos <= t.len(),
                ident@ == t.subrange(p0 - 1, self@.pos),
                run_end(t, self@.pos, CharClass::Word) == run_end(t, p0, CharClass::Word),
            ensures
                self.wf(),
                self@.text == t,
                ident@ == t.subrange(p0 - 1, self@.pos),
                self@.pos == run_end(t, p0, CharClass::Word),
            decreases t.len() - self@.pos,
        {
            let ghost p = self@.pos;
            match self.peek() {
                Some(c) => {
                    if is_word_char(c) {
                        ident.push(c);
                        self.advance();
                        assert(t.subrange(p0 - 1, p + 1) =~= t.subrange(p0 - 1, p).push(c));
                    } else {
                        break;
                    }
                },
                None => {
                    break;
                },
            }
        }
        keyword_kind(&ident)
    }
}


pub open spec fn radix_class(radix: u32) -> CharClass {
    if radix == 16 {
        CharClass::HexOrUnderscore
    } else {
        CharClass::BinOrUnderscore
    }
}

proof fn lemma_remove_underscores_push(s: Seq<char>, c: char)
    ensures
        remove_underscores(s.push(c)) == if c == '_' {
            remove_underscores(s)
        } else {
            remove_underscores(s).push(c)
        },
{
    assert(s.push(c).drop_last() =~= s);
    assert(s.push(c).last() == c);
}

impl Lexer {
    /// The line and column of the cursor.
    fn position(&self) -> (lc: (usize, usize))
        requires
            self.wf(),
        ensures
            lc.0 == line_col(self@.text, self@.pos).0,
            lc.1 == line_col(self@.text, self@.pos).1,
    {
        reveal(Lexer::wf);
        (self.line, self.col)
    }

    /// Scans the digits and underscores of a hexadecimal (`radix` 16) or
    /// binary (`radix` 2) literal, keeping the digits.
    fn scan_prefixed_digits(&mut self, radix: u32) -> (ds: Vec<char>)
        requires
            old(self).wf(),
            radix == 16 || radix == 2,
        ensures
            final(self).wf(),
            final(self)@.text == old(self)@.text,
            final(self)@.pos == run_end(old(self)@.text, old(self)@.pos, radix_class(radix)),
            ds@ == remove_underscores(old(self)@.text.subrange(old(self)@.pos, final(self)@.pos)),
            forall|i: int| 0 <= i < ds@.len() ==> is_radix_digit(#[trigger] ds@[i], radix as nat),
    {
        let ghost t = self@.text;
        let ghost p0 = self@.pos;
        let mut ds: Vec<char> = Vec::new();
        proof {
            self.lemma_wf();
            assert(t.subrange(p0, p0) =~= Seq::<char>::empty());
        }
        loop
            invariant_except_break
                self.wf(),
                self@.text == t,
                t == old(self)@.text,
                p0 == old(self)@.pos,
                radix == 16 || radix == 2,
                p0 <= self@.pos <= t.len(),
                ds@ == remove_underscores(t.subrange(p0, self@.pos)),
                forall|i: int| 0 <= i < ds@.len() ==> is_radix_digit(#[trigger] ds@[i], radix as nat),
                run_end(t, self@.pos, radix_class(radix)) == run_end(t, p0, radix_class(radix)),
            ensures
                self.wf(),
                self@.text == t,
                self@.pos == run_end(t, p0, radix_class(radix)),
                ds@ == remove_underscores(t.subrange(p0, self@.pos)),
                forall|i: int| 0 <= i < ds@.len() ==> is_radix_digit(#[trigger] ds@[i], radix as nat),
            decreases t.len() - self@.pos,
        {
            let ghost p = self@.pos;
            match self.peek() {
                Some(c) => {
                    let ok = if radix == 16 {
                        is_ascii_hexdigit(c) || c == '_'
                    } else {
                        c == '0' || c == '1' || c == '_'
                    };
                    if !ok {
                        break;
                    }
                    proof {
                        assert(t.subrange(p0, p + 1) =~= t.subrange(p0, p).push(c));
                        lemma_remove_underscores_push(t.subrange(p0, p), c);
                    }
                    if c != '_' {
                        ds.push(c);
                    }
                    self.advance();
                },
                None => {
                    break;
                },
            }
        }
        ds
    }

    /// Scans a run of letters, digits and underscores.
    fn scan_word(&mut self) -> (w: Vec<char>)
        requires
            old(self).wf(),
        ensures
            final(self).wf(),
            final(self)@.text == old(self)@.text,
            final(self)@.pos == run_end(old(self)@.text, old(self)@.pos, CharClass::Word),
            w@ == old(self)@.text.subrange(old(self)@.pos, final(self)@.pos),
    {
        let ghost t = self@.text;
        let ghost p0 = self@.pos;
        let mut w: Vec<char> = Vec::new();
        proof {
            self.lemma_wf();
            assert(t.subrange(p0, p0) =~= Seq::<char>::empty());
        }
        loop
            invariant_except_break
                self.wf(),
                self@.text == t,
                t == old(self)@.text,
                p0 == old(self)@.pos,
                p0 <= self@.pos <= t.len(),
                w@ == t.subrange(p0, self@.pos),
                run_end(t, self@.pos, CharClass::Word) == run_end(t, p0, CharClass::Word),
            ensures
                self.wf(),
                self@.text == t,
                self@.pos == run_end(t, p0, CharClass::Word),
                w@ == t.subrange(p0, self@.pos),
            decreases t.len() - self@.pos,
        {
            let ghost p = self@.pos;
            match self.peek() {
                Some(c) => {
                    if !is_word_char(c) {
                        break;
                    }
                    w.push(c);
                    self.advance();
                    assert(t.subrange(p0, p + 1) =~= t.subrange(p0, p).push(c));
                },
                None => {
                    break;
                },
            }
        }
        w
    }

    /// Scans a run of letters and digits.
    fn scan_alnum(&mut self) -> (w: Vec<char>)
        requires
            old(self).wf(),
        ensures
            final(self).wf(),
            final(self)@.text == old(self)@.text,
            final(self)@.pos == run_end(old(self)@.text, old(self)@.pos, CharClass::Alnum),
            w@ == old(self)@.text.subrange(old(self)@.pos, final(self)@.pos),
    {
        let ghost t = self@.text;
        let ghost p0 = self@.pos;
        let mut w: Vec<char> = Vec::new();
        proof {
            self.lemma_wf();
            assert(t.subrange(p0, p0) =~= Seq::<char>::empty());
        }
        loop
            invariant_except_break
                self.wf(),
                self@.text == t,
                t == old(self)@.text,
                p0 == old(self)@.pos,
                p0 <= self@.pos <= t.len(),
                w@ == t.subrange(p0, self@.pos),
                run_end(t, self@.pos, CharClass::Alnum) == run_end(t, p0, CharClass::Alnum),
            ensures
                self.wf(),
                self@.text == t,
                self@.pos == run_end(t, p0, CharClass::Alnum),
                w@ == t.subrange(p0, self@.pos),
            decreases t.len() - self@.pos,
        {
            let ghost p = self@.pos;
            match self.peek() {
                Some(c) => {
                    if !is_ascii_alphanumeric(c) {
                        break;
                    }
                    w.push(c);
                    self.advance();
                    assert(t.subrange(p0, p + 1) =~= t.subrange(p0, p).push(c));
                },
                None => {
                    break;
                },
            }
        }
        w
    }

    /// Scans the rest of a decimal literal: digits, underscores (dropped) and
    /// fraction points followed by a digit. Returns the kept characters, after
    /// `first`, and whether a point was among them.
    fn scan_decimal(&mut self, first: char) -> (r: (Vec<char>, bool))
        requires
            old(self).wf(),
            is_digit(first),
        ensures
            final(self).wf(),
            final(self)@.text == old(self)@.text,
            final(self)@.pos == decimal_end(old(self)@.text, old(self)@.pos),
            r.0@ == seq![first] + remove_underscores(
                old(self)@.text.subrange(old(self)@.pos, final(self)@.pos),
            ),
            r.1 == r.0@.contains('.'),
            forall|i: int| 0 <= i < r.0@.len() ==> is_digit(#[trigger] r.0@[i]) || r.0@[i] == '.',
    {
        let ghost t = self@.text;
        let ghost p0 = self@.pos;
        let mut num: Vec<char> = Vec::new();
        num.push(first);
        let mut is_float = false;
        proof {
            self.lemma_wf();
            assert(t.subrange(p0, p0) =~= Seq::<char>::empty());
            assert(num@ =~= seq![first] + remove_underscores(t.subrange(p0, p0)));
        }
        loop
            invariant_except_break
                self.wf(),
                self@.text == t,
                t == old(self)@.text,
                p0 == old(self)@.pos,
                is_digit(first),
                p0 <= self@.pos <= t.len(),
                num@ == seq![first] + remove_underscores(t.subrange(p0, self@.pos)),
                is_float == num@.contains('.'),
                forall|i: int| 0 <= i < num@.len() ==> is_digit(#[trigger] num@[i]) || num@[i] == '.',
                decimal_end(t, self@.pos) == decimal_end(t, p0),
            ensures
                self.wf(),
                self@.text == t,
                self@.pos == decimal_end(t, p0),
                num@ == seq![first] + remove_underscores(t.subrange(p0, self@.pos)),
                is_float == num@.contains('.'),
                forall|i: int| 0 <= i < num@.len() ==> is_digit(#[trigger] num@[i]) || num@[i] == '.',
            decreases t.len() - self@.pos,
        {
            let ghost p = self@.pos;
            let ghost before = num@;
            match self.peek() {
                Some(c) => {
                    proof {
                        assert(t.subrange(p0, p + 1) =~= t.subrange(p0, p).push(c));
                        lemma_remove_underscores_push(t.subrange(p0, p), c);
                    }
                    if is_ascii_digit(c) || c == '_' {
                        if c != '_' {
                            num.push(c);
                            assert(num@ =~= seq![first] + remove_underscores(
                                t.subrange(p0, p + 1),
                            ));
                            assert(num@.contains('.') == before.contains('.')) by {
                                if num@.contains('.') {
                                    let j = choose|j: int| 0 <= j < num@.len() && num@[j] == '.';
                                    assert(before[j] == '.');
                                }
                                if before.contains('.') {
                                    let j = choose|j: int| 0 <= j < before.len() && before[j] == '.';
                                    assert(num@[j] == '.');
                                }
                            }
                        } else {
                            assert(num@ =~= seq![first] + remove_underscores(
                                t.subrange(p0, p + 1),
                            ));
                        }
                        self.advance();
                    } else if c == '.' && self.peek_next().is_some() && is_ascii_digit(
                        self.peek_next().unwrap(),
                    ) {
                        is_float = true;
                        num.push(c);
                        assert(num@ =~= seq![first] + remove_underscores(t.subrange(p0, p + 1)));
                        assert(num@[num@.len() - 1] == '.');
                        self.advance();
                    } else {
                        break;
                    }
                },
                None => {
                    break;
                },
            }
        }
        (num, is_float)
    }

    /// Reads a `u`/`i` suffix after the digits of a hex or binary literal.
    fn scan_int_suffix(&mut self) -> (r: Option<String>)
        requires
            old(self).wf(),
        ensures
            final(self).wf(),
            final(self)@.text == old(self)@.text,
            (
                match r {
                    Some(x) => Some(x@),
                    None => None,
                },
                final(self)@.pos,
            ) == int_suffix(old(self)@.text, old(self)@.pos),
    {
        match self.peek() {
            Some(c) => {
                if c == 'u' || c == 'i' {
                    let w = self.scan_alnum();
                    Some(string_of(&w))
                } else {
                    None
                }
            },
            None => None,
        }
    }

    /// Lexes a number literal whose first digit was just consumed.
    fn lex_number(&mut self, first_digit: char) -> (k: TokenKind)
        requires
            old(self).wf(),
            1 <= old(self)@.pos,
            old(self)@.text[old(self)@.pos - 1] == first_digit,
            is_digit(first_digit),
        ensures
            final(self).wf(),
            final(self)@.text == old(self)@.text,
            (k@, final(self)@.pos) == number_literal(old(self)@.text, old(self)@.pos - 1),
    {
        let ghost t = self@.text;
        let ghost k0 = self@.pos;
        proof {
            self.lemma_wf();
        }
        if first_digit == '0' {
            let nx = self.peek();
            if nx == Some('x') || nx == Some('X') {
                self.advance();
                let ds = self.scan_prefixed_digits(16);
                let suffix = self.scan_int_suffix();
                return TokenKind::Int(parse_int_digits(&ds, 16), suffix);
            } else if nx == Some('b') || nx == Some('B') {
                self.advance();
                let ds = self.scan_prefixed_digits(2);
                let suffix = self.scan_int_suffix();
                return TokenKind::Int(parse_int_digits(&ds, 2), suffix);
            }
        }
        let (num, is_float) = self.scan_decimal(first_digit);
        let ghost e = self@.pos;
        let suffix = match self.peek() {
            Some(c) => {
                if c == 'u' || c == 'i' || c == 'f' {
                    let w = self.scan_alnum();
                    Some(string_of(&w))
                } else {
                    None
                }
            },
            None => None,
        };
        assert(match suffix {
            Some(x) => number_suffix(t, e).0 == Some(x@),
            None => number_suffix(t, e).0 is None,
        });
        assert(num@ == seq![t[k0 - 1]] + remove_underscores(t.subrange(k0, e)));
        if is_float {
            TokenKind::Float(string_of(&num))
        } else {
            assert forall|i: int| 0 <= i < num@.len() implies is_radix_digit(#[trigger] num@[i], 10) by {
                if num@[i] == '.' {
                    assert(num@.contains('.'));
                }
            }
            TokenKind::Int(parse_int_digits(&num, 10), suffix)
        }
    }
}


impl Lexer {
    /// Lexes what follows an `@` that was just consumed.
    fn lex_at_sign(&mut self) -> (k: TokenKind)
        requires
            old(self).wf(),
        ensures
            final(self).wf(),
            final(self)@.text == old(self)@.text,
            (k@, final(self)@.pos) == at_sign(old(self)@.text, old(self)@.pos),
    {
        if self.peek() == Some('"') {
            self.advance();
            let raw = self.lex_raw_string_contents();
            TokenKind::Ident(raw)
        } else {
            match self.peek() {
                Some(c) => {
                    if is_ascii_alphabetic(c) || c == '_' {
                        let name = self.scan_word();
                        TokenKind::Builtin(string_of(&name))
                    } else {
                        TokenKind::Error(text("Expected builtin name after '@'"))
                    }
                },
                None => TokenKind::Error(text("Unexpected trailing '@'")),
            }
        }
    }

    /// Lexes the punctuation and operators that start with `ch`, which was just
    /// consumed; `None` for any other character.
    fn lex_operator(&mut self, ch: char) -> (k: Option<TokenKind>)
        requires
            old(self).wf(),
            1 <= old(self)@.pos,
            old(self)@.text[old(self)@.pos - 1] == ch,
        ensures
            final(self).wf(),
            final(self)@.text == old(self)@.text,
            match k {
                Some(kind) => (kind@, final(self)@.pos) == lex_token(
                    old(self)@.text,
                    old(self)@.pos - 1,
                ),
                None => final(self)@.pos == old(self)@.pos && !(ch == '(' || ch == ')' || ch
                    == '{' || ch == '}' || ch == '[' || ch == ']' || ch == ':' || ch == ';' || ch
                    == ',' || ch == '~' || ch == '^' || ch == '?' || ch == '.' || ch == '=' || ch
                    == '!' || ch == '<' || ch == '>' || ch == '+' || ch == '-' || ch == '*' || ch
                    == '/' || ch == '%' || ch == '&' || ch == '|'),
            },
    {
        let kind = if ch == '(' {
            TokenKind::OpenParen
        } else if ch == ')' {
            TokenKind::CloseParen
        } else if ch == '{' {
            TokenKind::OpenBrace
        } else if ch == '}' {
            TokenKind::CloseBrace
        } else if ch == '[' {
            TokenKind::OpenBracket
        } else if ch == ']' {
            TokenKind::CloseBracket
        } else if ch == ':' {
            self.pair('=', TokenKind::ColonEq, TokenKind::Colon)
        } else if ch == ';' {
            TokenKind::Semicolon
        } else if ch == ',' {
            TokenKind::Comma
        } else if ch == '~' {
            TokenKind::Tilde
        } else if ch == '^' {
            TokenKind::Caret
        } else if ch == '?' {
            if self.peek() == Some('?') {
                self.advance();
                TokenKind::QuestionQuestion
            } else {
                self.pair('.', TokenKind::QuestionDot, TokenKind::Question)
            }
        } else if ch == '.' {
            if self.peek() == Some('*') {
                self.advance();
                TokenKind::DotStar
            } else if self.peek() == Some('.') {
                self.advance();
                self.pair('.', TokenKind::DotDotDot, TokenKind::DotDot)
            } else {
                TokenKind::Dot
            }
        } else if ch == '=' {
            if self.peek() == Some('>') {
                self.advance();
                TokenKind::FatArrow
            } else {
                self.pair('=', TokenKind::EqEq, TokenKind::Eq)
            }
        } else if ch == '!' {
            self.pair('=', TokenKind::NotEq, TokenKind::Bang)
        } else if ch == '<' {
            if self.peek() == Some('=') {
                self.advance();
                TokenKind::LtEq
            } else {
                self.pair('<', TokenKind::Shl, TokenKind::Lt)
            }
        } else if ch == '>' {
            if self.peek() == Some('=') {
                self.advance();
                TokenKind::GtEq
            } else {
                self.pair('>', TokenKind::Shr, TokenKind::Gt)
            }
        } else if ch == '+' {
            if self.peek() == Some('%') {
                self.advance();
                TokenKind::PlusPercent
            } else {
                self.pair('=', TokenKind::PlusEq, TokenKind::Plus)
            }
        } else if ch == '-' {
            if self.peek() == Some('%') {
                self.advance();
                TokenKind::MinusPercent
            } else {
                self.pair('=', TokenKind::MinusEq, TokenKind::Minus)
            }
        } else if ch == '*' {
            if self.peek() == Some('%') {
                self.advance();
                TokenKind::StarPercent
            } else {
                self.pair('=', TokenKind::StarEq, TokenKind::Star)
            }
        } else if ch == '/' {
            self.pair('=', TokenKind::SlashEq, TokenKind::Slash)
        } else if ch == '%' {
            TokenKind::Percent
        } else if ch == '&' {
            self.pair('&', TokenKind::AmpAmp, TokenKind::Ampersand)
        } else if ch == '|' {
            self.pair('|', TokenKind::PipePipe, TokenKind::Pipe)
        } else {
            return None;
        };
        Some(kind)
    }

    /// Lexes the token whose first character `ch` was just consumed.
    fn lex_token_at(&mut self, ch: char) -> (k: TokenKind)
        requires
            old(self).wf(),
            1 <= old(self)@.pos,
            old(self)@.text[old(self)@.pos - 1] == ch,
        ensures
            final(self).wf(),
            final(self)@.text == old(self)@.text,
            (k@, final(self)@.pos) == lex_token(old(self)@.text, old(self)@.pos - 1),
    {
        let ghost t = self@.text;
        let ghost k0 = self@.pos;
        if let Some(kind) = self.lex_operator(ch) {
            return kind;
        }
        if ch == '"' {
            self.lex_string()
        } else if ch == '$' {
            if self.peek() == Some('"') {
                self.advance();
                self.lex_interpolated_string()
            } else {
                TokenKind::Error(text("Unexpected '$' without string literal"))
            }
        } else if ch == '\'' {
            self.lex_char()
        } else if ch == '@' {
            self.lex_at_sign()
        } else if is_ascii_digit(ch) {
            self.lex_number(ch)
        } else if is_ascii_alphabetic(ch) || ch == '_' {
            self.lex_identifier(ch)
        } else {
            let mut m = text("Unexpected character '");
            push_char(&mut m, ch);
            push_char(&mut m, '\'');
            assert(m@ =~= "Unexpected character '"@ + seq![ch, '\'']);
            TokenKind::Error(m)
        }
    }

    /// Produces the next token. At the end of the input this is `Eof`, at the
    /// end offset, and stays `Eof` on every later call.
    pub fn next_token(&mut self) -> (tok: Token)
        requires
            old(self).wf(),
        ensures
            final(self).wf(),
            final(self)@.text == old(self)@.text,
            (tok@, final(self)@.pos) == next_token_spec(old(self)@.text, old(self)@.pos),
    {
        let ghost t = self@.text;
        self.skip_whitespace_and_comments();
        let ghost s = self@.pos;
        let start_pos = self.current_pos();
        let (start_line, start_col) = self.position();
        proof {
            self.lemma_wf();
        }
        let ch = match self.advance() {
            Some(c) => c,
            None => {
                return Token::new(TokenKind::Eof, Span::new(start_pos, start_pos, start_line, start_col));
            },
        };
        let kind = self.lex_token_at(ch);
        let end_pos = self.current_pos();
        Token::new(kind, Span::new(start_pos, end_pos, start_line, start_col))
    }
}

impl Lexer {
    /// Strips the common indentation of the lines of a multiline string
    /// literal's text: drops a blank first line, cuts from every other line as
    /// many characters as the least indented non-blank line after the first
    /// has leading whitespace characters (a shorter line loses its leading
    /// whitespace instead), and joins the lines with `\n`.
    pub fn strip_common_indentation(s: &str) -> (r: String)
        ensures
            r@ == strip_indentation(s@),
    {
        let mut cs: Vec<char> = Vec::new();
        for c in it: s.chars()
            invariant
                it.seq() == s@,
                cs@ == s@.take(it.index() as int),
        {
            let ghost i = cs@.len() as int;
            cs.push(c);
            assert(cs@ =~= s@.take(i + 1));
        }
        assert(cs@ =~= s@);
        let v = strip_indentation_chars(&cs);
        string_of(&v)
    }
}

} // verus!
