//! Positions in a character sequence: runs of a character class, searches,
//! and the line and column reached after a prefix.

use vstd::prelude::*;
use crate::syntax::chars::{
    is_alnum, is_hex, is_word, is_ws,
};

verus! {

/// The classes of character that the lexer scans runs of.
pub enum CharClass {
    Whitespace,
    Word,
    Alnum,
    HexOrUnderscore,
    BinOrUnderscore,
}

pub open spec fn in_class(cls: CharClass, c: char) -> bool {
    match cls {
        CharClass::Whitespace => is_ws(c),
        CharClass::Word => is_word(c),
        CharClass::Alnum => is_alnum(c),
        CharClass::HexOrUnderscore => is_hex(c) || c == '_',
        CharClass::BinOrUnderscore => c == '0' || c == '1' || c == '_',
    }
}

/// The character at index `i`, if there is one.
pub open spec fn char_at(t: Seq<char>, i: int) -> Option<char> {
    if 0 <= i < t.len() {
        Some(t[i])
    } else {
        None
    }
}

/// The end of the longest run of `cls` characters that starts at `p`.
pub open spec fn run_end(t: Seq<char>, p: int, cls: CharClass) -> int
    decreases t.len() - p,
{
    if 0 <= p < t.len() && in_class(cls, t[p]) {
        run_end(t, p + 1, cls)
    } else {
        p
    }
}

/// The first index at or after `p` that holds `c`, or `t.len()` if there is none.
pub open spec fn find_char(t: Seq<char>, p: int, c: char) -> int
    decreases t.len() - p,
{
    if 0 <= p < t.len() {
        if t[p] == c {
            p
        } else {
            find_char(t, p + 1, c)
        }
    } else {
        t.len() as int
    }
}

pub open spec fn step_line_col(c: char, lc: (nat, nat)) -> (nat, nat) {
    if c == '\n' {
        (lc.0 + 1, 1)
    } else {
        (lc.0, lc.1 + 1)
    }
}

/// The line and column (from 1) of index `p`.
pub open spec fn line_col(t: Seq<char>, p: int) -> (nat, nat)
    decreases p,
{
    if p <= 0 || p > t.len() {
        (1, 1)
    } else {
        step_line_col(t[p - 1], line_col(t, p - 1))
    }
}

/// The number of line feeds in `s`.
pub open spec fn count_newlines(s: Seq<char>) -> nat
    decreases s.len(),
{
    if s.len() == 0 {
        0
    } else {
        count_newlines(s.drop_last()) + if s.last() == '\n' {
            1nat
        } else {
            0nat
        }
    }
}

/// The number of characters of `s` after its last line feed (all of them
/// when it has none).
pub open spec fn chars_after_last_newline(s: Seq<char>) -> nat
    decreases s.len(),
{
    if s.len() == 0 {
        0
    } else if s.last() == '\n' {
        0
    } else {
        chars_after_last_newline(s.drop_last()) + 1
    }
}

pub proof fn lemma_run_end_bounds(t: Seq<char>, p: int, cls: CharClass)
    requires
        0 <= p <= t.len(),
    ensures
        p <= run_end(t, p, cls) <= t.len(),
        forall|i: int| p <= i < run_end(t, p, cls) ==> in_class(cls, #[trigger] t[i]),
        run_end(t, p, cls) < t.len() ==> !in_class(cls, t[run_end(t, p, cls)]),
    decreases t.len() - p,
{
    if p < t.len() && in_class(cls, t[p]) {
        lemma_run_end_bounds(t, p + 1, cls);
    }
}

pub proof fn lemma_find_char_bounds(t: Seq<char>, p: int, c: char)
    requires
        0 <= p <= t.len(),
    ensures
        p <= find_char(t, p, c) <= t.len(),
        forall|i: int| p <= i < find_char(t, p, c) ==> #[trigger] t[i] != c,
        find_char(t, p, c) < t.len() ==> t[find_char(t, p, c)] == c,
    decreases t.len() - p,
{
    if p < t.len() && t[p] != c {
        lemma_find_char_bounds(t, p + 1, c);
    }
}

pub proof fn lemma_line_col_bounds(t: Seq<char>, p: int)
    requires
        0 <= p <= t.len(),
    ensures
        line_col(t, p).0 >= 1,
        line_col(t, p).1 >= 1,
        line_col(t, p).0 + line_col(t, p).1 <= p + 2,
    decreases p,
{
    if p > 0 {
        lemma_line_col_bounds(t, p - 1);
    }
}

} // verus!
