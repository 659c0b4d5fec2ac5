//! The text work of the driver's `fmt` and `test` commands: the bootstrap
//! formatter (trailing whitespace trimmed, one final line feed) and the
//! discovery of `test "name" { ... }` blocks.

use vstd::prelude::*;
use crate::syntax::ast::{Item, ItemView, SourceFile};
use crate::syntax::astview::{lemma_item_test_view, lemma_source_file_view, lemma_test_decl_view, view_seq};
use crate::syntax::chars::{is_whitespace, is_ws, string_of, word_eq};
use crate::syntax::scan::{run_end, CharClass};

verus! {

/// Whitespace other than a line feed.
pub open spec fn is_blank(c: char) -> bool {
    is_ws(c) && c != '\n'
}

/// The end of the run of blanks of `t` that starts at `i`.
pub open spec fn blank_end(t: Seq<char>, i: int) -> int
    decreases t.len() - i,
{
    if 0 <= i < t.len() && is_blank(t[i]) {
        blank_end(t, i + 1)
    } else {
        i
    }
}

/// Whether the character at `i` is trailing whitespace: a blank followed by
/// nothing but blanks up to a line feed or the end of the text.
pub open spec fn is_trailing_blank(t: Seq<char>, i: int) -> bool {
    is_blank(t[i]) && (blank_end(t, i) >= t.len() || t[blank_end(t, i)] == '\n')
}

/// The characters of `t.take(n)` that are not trailing whitespace of `t`.
pub open spec fn kept(t: Seq<char>, n: int) -> Seq<char>
    decreases n,
{
    if n <= 0 {
        seq![]
    } else if is_trailing_blank(t, n - 1) {
        kept(t, n - 1)
    } else {
        kept(t, n - 1).push(t[n - 1])
    }
}

/// `s` without the line feeds at its end.
pub open spec fn drop_final_newlines(s: Seq<char>) -> Seq<char>
    decreases s.len(),
{
    if s.len() > 0 && s.last() == '\n' {
        drop_final_newlines(s.drop_last())
    } else {
        s
    }
}

/// The formatted text: trailing whitespace removed from every line, and
/// exactly one line feed at the end.
pub open spec fn formatted(t: Seq<char>) -> Seq<char> {
    drop_final_newlines(kept(t, t.len() as int)).push('\n')
}

proof fn lemma_blank_end_bounds(t: Seq<char>, i: int)
    requires
        0 <= i <= t.len(),
    ensures
        i <= blank_end(t, i) <= t.len(),
    decreases t.len() - i,
{
    if i < t.len() && is_blank(t[i]) {
        lemma_blank_end_bounds(t, i + 1);
    }
}

/// Whether `c` is whitespace other than a line feed.
fn is_blank_exec(c: char) -> (b: bool)
    ensures
        b == is_blank(c),
{
    is_whitespace(c) && c != '\n'
}

/// Formats `source`: trailing whitespace is removed from every line, and the
/// text ends with exactly one line feed.
pub fn format_source(source: &str) -> (r: String)
    ensures
        r@ == formatted(source@),
{
    let mut t: Vec<char> = Vec::new();
    for c in it: source.chars()
        invariant
            it.seq() == source@,
            t@ == source@.take(it.index() as int),
    {
        let ghost i = it.index() as int;
        t.push(c);
        assert(source@.take(i + 1) =~= source@.take(i).push(c));
    }
    assert(source@.take(source@.len() as int) =~= source@);
    let ghost s = source@;
    let mut out: Vec<char> = Vec::new();
    let mut i: usize = 0;
    while i < t.len()
        invariant
            t@ == s,
            i <= t.len(),
            out@ == kept(s, i as int),
        decreases t.len() - i,
    {
        if !is_blank_exec(t[i]) {
            out.push(t[i]);
            i += 1;
        } else {
            let mut j: usize = i;
            while j < t.len() && is_blank_exec(t[j])
                invariant
                    t@ == s,
                    i <= j <= t.len(),
                    blank_end(s, j as int) == blank_end(s, i as int),
                decreases t.len() - j,
            {
                j += 1;
            }
            let trailing = j >= t.len() || t[j] == '\n';
            let mut k: usize = i;
            while k < j
                invariant
                    t@ == s,
                    i <= k <= j <= t.len(),
                    blank_end(s, i as int) == j,
                    trailing == (j >= s.len() || s[j as int] == '\n'),
                    out@ == kept(s, k as int),
                decreases j - k,
            {
                proof {
                    lemma_blank_run(s, i as int, k as int);
                }
                if !trailing {
                    out.push(t[k]);
                }
                k += 1;
            }
            i = j;
        }
    }
    while out.len() > 0 && out[out.len() - 1] == '\n'
        invariant
            drop_final_newlines(out@) == drop_final_newlines(kept(s, s.len() as int)),
        decreases out.len(),
    {
        out.pop();
    }
    proof {
        assert(drop_final_newlines(out@) == out@);
    }
    out.push('\n');
    string_of(&out)
}

/// Inside a run of blanks, every position ends the run where its start does.
proof fn lemma_blank_run(s: Seq<char>, i: int, k: int)
    requires
        0 <= i <= k < blank_end(s, i) <= s.len(),
    ensures
        blank_end(s, k) == blank_end(s, i),
        is_blank(s[k]),
    decreases k - i,
{
    if k > i {
        lemma_blank_run(s, i + 1, k);
    }
}

/// No blank is followed by a line feed in `s`.
pub open spec fn no_blank_before_newline(s: Seq<char>) -> bool {
    forall|i: int| 0 <= i < s.len() - 1 && is_blank(#[trigger] s[i]) ==> s[i + 1] != '\n'
}

/// What the kept characters up to `n` look like: no blank before a line feed,
/// and a blank at their end is followed in `t`, after more blanks, by
/// something other than a line feed or the end.
proof fn lemma_kept_shape(t: Seq<char>, n: int)
    requires
        0 <= n <= t.len(),
    ensures
        no_blank_before_newline(kept(t, n)),
        kept(t, n).len() > 0 && is_blank(kept(t, n).last()) ==> blank_end(t, n) < t.len() && t[blank_end(
            t,
            n,
        )] != '\n',
    decreases n,
{
    if n > 0 {
        lemma_kept_shape(t, n - 1);
        lemma_blank_end_bounds(t, n - 1);
        lemma_blank_end_bounds(t, n);
        let k0 = kept(t, n - 1);
        let c = t[n - 1];
        if is_blank(c) {
            assert(blank_end(t, n - 1) == blank_end(t, n));
        } else {
            assert(blank_end(t, n - 1) == n - 1);
        }
        if !is_trailing_blank(t, n - 1) {
            let k1 = k0.push(c);
            assert(kept(t, n) == k1);
            assert forall|i: int| 0 <= i < k1.len() - 1 && is_blank(#[trigger] k1[i]) implies k1[i + 1] != '\n' by {
                if i < k0.len() - 1 {
                    assert(k1[i] == k0[i] && k1[i + 1] == k0[i + 1]);
                } else {
                    assert(i == k0.len() - 1);
                    assert(k1[i] == k0.last());
                    if c == '\n' {
                        assert(blank_end(t, n - 1) == n - 1);
                    }
                }
            }
        }
    }
}

/// Dropping the final line feeds of `s` leaves a prefix of it that does not
/// end in a line feed, and what was dropped starts with a line feed.
proof fn lemma_drop_final_newlines(s: Seq<char>)
    ensures
        drop_final_newlines(s).len() <= s.len(),
        drop_final_newlines(s) == s.take(drop_final_newlines(s).len() as int),
        drop_final_newlines(s).len() < s.len() ==> s[drop_final_newlines(s).len() as int] == '\n',
        drop_final_newlines(s).len() > 0 ==> drop_final_newlines(s).last() != '\n',
    decreases s.len(),
{
    if s.len() > 0 && s.last() == '\n' {
        lemma_drop_final_newlines(s.drop_last());
        let d = drop_final_newlines(s.drop_last());
        assert(s.drop_last().take(d.len() as int) =~= s.take(d.len() as int));
    } else {
        assert(s.take(s.len() as int) =~= s);
    }
}

/// The formatter's output ends with exactly one line feed, and no line of it
/// ends in whitespace.
pub proof fn law_formatted_shape(t: Seq<char>)
    ensures
        formatted(t).len() >= 1,
        formatted(t).last() == '\n',
        formatted(t).len() >= 2 ==> formatted(t)[formatted(t).len() - 2] != '\n',
        no_blank_before_newline(formatted(t)),
{
    let k = kept(t, t.len() as int);
    lemma_kept_shape(t, t.len() as int);
    lemma_drop_final_newlines(k);
    lemma_blank_end_bounds(t, t.len() as int);
    let d = drop_final_newlines(k);
    let f = d.push('\n');
    assert forall|i: int| 0 <= i < f.len() - 1 && is_blank(#[trigger] f[i]) implies f[i + 1] != '\n' by {
        assert(f[i] == k[i]);
        if i < d.len() - 1 {
            assert(f[i + 1] == k[i + 1]);
        } else {
            assert(i == d.len() - 1);
            if d.len() < k.len() {
                assert(k[i + 1] == '\n');
            } else {
                assert(k.last() == k[i]);
            }
        }
    }
}

/// Where `s` has no trailing whitespace before `n`, everything before `n` is kept.
proof fn lemma_kept_all(s: Seq<char>, n: int)
    requires
        0 <= n <= s.len(),
        forall|i: int| 0 <= i < n ==> !is_trailing_blank(s, i),
    ensures
        kept(s, n) == s.take(n),
    decreases n,
{
    if n > 0 {
        lemma_kept_all(s, n - 1);
        assert(s.take(n) =~= s.take(n - 1).push(s[n - 1]));
    } else {
        assert(s.take(0) =~= Seq::<char>::empty());
    }
}

/// Formatting a formatted text changes nothing.
pub proof fn law_format_idempotent(t: Seq<char>)
    ensures
        formatted(formatted(t)) == formatted(t),
{
    let f = formatted(t);
    law_formatted_shape(t);
    assert forall|i: int| 0 <= i < f.len() implies !is_trailing_blank(f, i) by {
        if is_blank(f[i]) {
            lemma_blank_end_bounds(f, i);
            let j = blank_end(f, i);
            if j > i {
                lemma_blank_run(f, i, j - 1);
            }
            if j >= f.len() {
                assert(f[f.len() - 1] == f.last());
            } else if f[j] == '\n' {
                assert(is_blank(f[j - 1]));
                assert(f[(j - 1) + 1] == '\n');
            }
        }
    }
    lemma_kept_all(f, f.len() as int);
    assert(f.take(f.len() as int) =~= f);
    let k = kept(t, t.len() as int);
    lemma_drop_final_newlines(k);
    let d = drop_final_newlines(k);
    assert(f.drop_last() =~= d);
    assert(drop_final_newlines(d) == d);
}

/// `s` without the whitespace at its end.
pub open spec fn drop_trailing_ws(s: Seq<char>) -> Seq<char>
    decreases s.len(),
{
    if s.len() > 0 && is_ws(s.last()) {
        drop_trailing_ws(s.drop_last())
    } else {
        s
    }
}

/// `s` without the whitespace at its start and its end (`str::trim`).
pub open spec fn trimmed(s: Seq<char>) -> Seq<char> {
    drop_trailing_ws(s.skip(run_end(s, 0, CharClass::Whitespace)))
}

/// What the REPL does with a line it read.
#[derive(Debug)]
pub enum ReplAction {
    /// `exit` or `quit`: leave the loop.
    Quit,
    /// A blank line: prompt again.
    Skip,
    /// Anything else: parse this text, the line trimmed.
    Parse(String),
}

/// The view of a REPL action: the text to parse as characters.
pub open spec fn repl_action_view(a: ReplAction) -> Option<Option<Seq<char>>> {
    match a {
        ReplAction::Quit => None,
        ReplAction::Skip => Some(None),
        ReplAction::Parse(t) => Some(Some(t@)),
    }
}

/// The REPL's decision on a line: `None` to quit, `Some(None)` to skip,
/// `Some(Some(text))` to parse `text`.
pub open spec fn repl_decision(line: Seq<char>) -> Option<Option<Seq<char>>> {
    let t = trimmed(line);
    if t == "exit"@ || t == "quit"@ {
        None
    } else if t.len() == 0 {
        Some(None)
    } else {
        Some(Some(t))
    }
}

/// Decides what the REPL does with the line `line` it read: the line is
/// trimmed; `exit` and `quit` quit, a blank line is skipped, and any other
/// text is parsed.
pub fn repl_step(line: &str) -> (a: ReplAction)
    ensures
        repl_action_view(a) == repl_decision(line@),
{
    let mut v: Vec<char> = Vec::new();
    for c in it: line.chars()
        invariant
            it.seq() == line@,
            v@ == line@.take(it.index() as int),
    {
        let ghost i = it.index() as int;
        v.push(c);
        assert(line@.take(i + 1) =~= line@.take(i).push(c));
    }
    assert(line@.take(line@.len() as int) =~= line@);
    let ghost s = line@;
    let mut start: usize = 0;
    while start < v.len() && is_whitespace(v[start])
        invariant
            v@ == s,
            start <= v.len(),
            run_end(s, start as int, CharClass::Whitespace) == run_end(s, 0, CharClass::Whitespace),
        decreases v.len() - start,
    {
        start += 1;
    }
    let mut t: Vec<char> = Vec::new();
    let mut k: usize = start;
    while k < v.len()
        invariant
            v@ == s,
            start <= k <= v.len(),
            t@ == s.subrange(start as int, k as int),
        decreases v.len() - k,
    {
        t.push(v[k]);
        assert(s.subrange(start as int, k + 1) =~= s.subrange(start as int, k as int).push(s[k as int]));
        k += 1;
    }
    assert(t@ =~= s.skip(start as int));
    while t.len() > 0 && is_whitespace(t[t.len() - 1])
        invariant
            drop_trailing_ws(t@) == trimmed(s),
        decreases t.len(),
    {
        t.pop();
    }
    if word_eq(&t, "exit") || word_eq(&t, "quit") {
        ReplAction::Quit
    } else if t.len() == 0 {
        ReplAction::Skip
    } else {
        ReplAction::Parse(string_of(&t))
    }
}

/// The names of the `test` blocks among `items`, in order.
pub open spec fn test_names_spec(items: Seq<ItemView>) -> Seq<Seq<char>>
    decreases items.len(),
{
    if items.len() == 0 {
        seq![]
    } else {
        match items.last() {
            ItemView::Test(t) => test_names_spec(items.drop_last()).push(t.name),
            _ => test_names_spec(items.drop_last()),
        }
    }
}

/// The names of the `test "name" { ... }` blocks of `file`, in order.
pub fn test_names(file: &SourceFile) -> (names: Vec<String>)
    ensures
        view_seq(names@) == test_names_spec(file@.items),
{
    proof {
        lemma_source_file_view(*file);
    }
    let ghost items = view_seq(file.items@);
    let mut names: Vec<String> = Vec::new();
    let mut i: usize = 0;
    while i < file.items.len()
        invariant
            items == view_seq(file.items@),
            items.len() == file.items.len(),
            i <= file.items.len(),
            view_seq(names@) == test_names_spec(items.take(i as int)),
        decreases file.items.len() - i,
    {
        assert(items.take(i + 1).drop_last() =~= items.take(i as int));
        match &file.items[i] {
            Item::Test(t) => {
                proof {
                    lemma_item_test_view(file.items@[i as int]);
                    lemma_test_decl_view(*t);
                }
                let n = t.name.clone();
                assert(view_seq(names@.push(n)) =~= view_seq(names@).push(n@));
                names.push(n);
            },
            _ => {},
        }
        i += 1;
    }
    assert(items.take(items.len() as int) =~= items);
    names
}

} // verus!
