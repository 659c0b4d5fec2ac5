//! Splitting text into lines and stripping the common indentation of a
//! multiline string literal.

use vstd::prelude::*;
use crate::syntax::chars::{
    is_ws, is_whitespace,
};
use crate::syntax::scan::{
    find_char, run_end, CharClass, lemma_find_char_bounds,
};

verus! {

/// The line that runs from `p` up to the line feed at `n`, without a carriage
/// return just before that line feed.
pub open spec fn line_before(s: Seq<char>, p: int, n: int) -> Seq<char> {
    let l = s.subrange(p, n);
    if l.len() > 0 && l.last() == '\r' {
        l.drop_last()
    } else {
        l
    }
}

/// The lines of `s` from index `p` on, as `str::lines` yields them: split at
/// each `'\n'`, a `"\r\n"` counting as one line ending, and no empty line after
/// a final line ending.
pub open spec fn lines_from(s: Seq<char>, p: int) -> Seq<Seq<char>>
    decreases s.len() - p,
{
    if p < 0 || p >= s.len() {
        seq![]
    } else {
        let n = find_char(s, p, '\n');
        if n < s.len() {
            if n + 1 > p {
                seq![line_before(s, p, n)] + lines_from(s, n + 1)
            } else {
                seq![]
            }
        } else {
            seq![s.subrange(p, s.len() as int)]
        }
    }
}

pub open spec fn split_lines(s: Seq<char>) -> Seq<Seq<char>> {
    lines_from(s, 0)
}

/// Every character of `l` is whitespace (`l.trim().is_empty()`).
pub open spec fn is_blank(l: Seq<char>) -> bool {
    forall|i: int| 0 <= i < l.len() ==> is_ws(#[trigger] l[i])
}

/// Number of whitespace characters that `l` begins with.
pub open spec fn leading_ws(l: Seq<char>) -> int {
    run_end(l, 0, CharClass::Whitespace)
}

/// The least indentation among the non-blank lines `1..i`, if there is one.
pub open spec fn min_indent_upto(ls: Seq<Seq<char>>, i: int) -> Option<int>
    decreases i,
{
    if i <= 1 || i > ls.len() {
        None
    } else {
        let prev = min_indent_upto(ls, i - 1);
        let l = ls[i - 1];
        if is_blank(l) {
            prev
        } else {
            match prev {
                None => Some(leading_ws(l)),
                Some(m) => Some(if leading_ws(l) < m { leading_ws(l) } else { m }),
            }
        }
    }
}

/// The indentation that is stripped: the least indentation of the non-blank
/// lines after the first, or 0.
pub open spec fn common_indent(ls: Seq<Seq<char>>) -> int {
    match min_indent_upto(ls, ls.len() as int) {
        Some(m) => m,
        None => 0,
    }
}

/// Whether line `idx` of `ls` is dropped from the result: only a blank first line is.
pub open spec fn line_dropped(ls: Seq<Seq<char>>, idx: int) -> bool {
    idx == 0 && is_blank(ls[idx])
}

/// What becomes of a kept line: it loses its first `m` characters when it
/// has at least `m`, else its leading whitespace.
pub open spec fn stripped_line(l: Seq<char>, m: int) -> Seq<char> {
    if l.len() >= m {
        l.skip(m)
    } else {
        l.skip(leading_ws(l))
    }
}

/// The kept and stripped lines among the first `i`.
pub open spec fn kept_lines(ls: Seq<Seq<char>>, m: int, i: int) -> Seq<Seq<char>>
    decreases i,
{
    if i <= 0 || i > ls.len() {
        seq![]
    } else if line_dropped(ls, i - 1) {
        kept_lines(ls, m, i - 1)
    } else {
        kept_lines(ls, m, i - 1).push(stripped_line(ls[i - 1], m))
    }
}

/// The lines joined with `'\n'` between them.
pub open spec fn join_lines(ls: Seq<Seq<char>>) -> Seq<char>
    decreases ls.len(),
{
    if ls.len() == 0 {
        seq![]
    } else if ls.len() == 1 {
        ls[0]
    } else {
        join_lines(ls.drop_last()) + seq!['\n'] + ls.last()
    }
}

/// The text of a multiline string literal after its common indentation is stripped.
pub open spec fn strip_indentation(s: Seq<char>) -> Seq<char> {
    let ls = split_lines(s);
    join_lines(kept_lines(ls, common_indent(ls), ls.len() as int))
}

/// Splits `s` into lines as `str::lines` does.
pub fn split_lines_exec(s: &Vec<char>) -> (ls: Vec<Vec<char>>)
    ensures
        ls@.len() == split_lines(s@).len(),
        forall|k: int| 0 <= k < ls@.len() ==> (#[trigger] ls@[k])@ == split_lines(s@)[k],
{
    let mut ls: Vec<Vec<char>> = Vec::new();
    let mut p: usize = 0;
    let ghost target = split_lines(s@);
    while p < s.len()
        invariant
            p <= s.len(),
            ls@.len() + lines_from(s@, p as int).len() == target.len(),
            forall|k: int| 0 <= k < ls@.len() ==> (#[trigger] ls@[k])@ == target[k],
            forall|k: int|
                0 <= k < lines_from(s@, p as int).len() ==> #[trigger] lines_from(s@, p as int)[k]
                    == target[ls@.len() + k],
        decreases s.len() - p,
    {
        proof {
            lemma_find_char_bounds(s@, p as int, '\n');
        }
        let mut n: usize = p;
        while n < s.len() && s[n] != '\n'
            invariant
                p <= n <= s.len(),
                find_char(s@, n as int, '\n') == find_char(s@, p as int, '\n'),
            decreases s.len() - n,
        {
            n += 1;
        }
        let ghost rest_before = lines_from(s@, p as int);
        let mut line: Vec<char> = Vec::new();
        let mut j: usize = p;
        while j < n
            invariant
                p <= j <= n <= s.len(),
                line@ == s@.subrange(p as int, j as int),
            decreases n - j,
        {
            line.push(s[j]);
            assert(s@.subrange(p as int, j + 1) =~= s@.subrange(p as int, j as int).push(s@[j as int]));
            j += 1;
        }
        if n < s.len() {
            if line.len() > 0 && line[line.len() - 1] == '\r' {
                line.pop();
            }
            assert(line@ == line_before(s@, p as int, n as int));
            let ghost old_len = ls@.len();
            ls.push(line);
            assert forall|k: int|
                0 <= k < lines_from(s@, n + 1).len() implies #[trigger] lines_from(s@, n + 1)[k]
                == target[ls@.len() + k] by {
                assert(lines_from(s@, n + 1)[k] == rest_before[k + 1]);
            }
            assert(rest_before[0] == line_before(s@, p as int, n as int));
            p = n + 1;
        } else {
            assert(rest_before == seq![s@.subrange(p as int, s@.len() as int)]);
            assert(rest_before[0] == line@);
            ls.push(line);
            p = s.len();
        }
    }
    ls
}


/// Whether every character of `l` is whitespace.
pub fn is_blank_exec(l: &Vec<char>) -> (b: bool)
    ensures
        b == is_blank(l@),
{
    let mut i: usize = 0;
    while i < l.len()
        invariant
            i <= l.len(),
            forall|k: int| 0 <= k < i ==> is_ws(#[trigger] l@[k]),
        decreases l.len() - i,
    {
        if !is_whitespace(l[i]) {
            return false;
        }
        i += 1;
    }
    true
}

/// Number of whitespace characters that `l` begins with.
pub fn leading_ws_exec(l: &Vec<char>) -> (n: usize)
    ensures
        n == leading_ws(l@),
        n <= l@.len(),
{
    let mut i: usize = 0;
    while i < l.len() && is_whitespace(l[i])
        invariant
            i <= l.len(),
            run_end(l@, i as int, CharClass::Whitespace) == run_end(l@, 0, CharClass::Whitespace),
        decreases l.len() - i,
    {
        i += 1;
    }
    i
}

/// `l[from..]`.
pub fn suffix_from(l: &Vec<char>, from: usize) -> (r: Vec<char>)
    requires
        from <= l@.len(),
    ensures
        r@ == l@.skip(from as int),
{
    let mut r: Vec<char> = Vec::new();
    let mut i: usize = from;
    while i < l.len()
        invariant
            from <= i <= l.len(),
            r@ == l@.subrange(from as int, i as int),
        decreases l.len() - i,
    {
        r.push(l[i]);
        assert(l@.subrange(from as int, i + 1) =~= l@.subrange(from as int, i as int).push(
            l@[i as int],
        ));
        i += 1;
    }
    assert(l@.subrange(from as int, l@.len() as int) =~= l@.skip(from as int));
    r
}

/// Strips one line: cuts `m` characters off when it has at least `m`, else
/// drops its leading whitespace.
pub fn strip_line(l: &Vec<char>, m: usize) -> (r: Vec<char>)
    ensures
        r@ == stripped_line(l@, m as int),
{
    if l.len() >= m {
        suffix_from(l, m)
    } else {
        let n = leading_ws_exec(l);
        suffix_from(l, n)
    }
}

proof fn lemma_join_push(ks: Seq<Seq<char>>, x: Seq<char>)
    ensures
        join_lines(ks.push(x)) == if ks.len() == 0 {
            x
        } else {
            join_lines(ks) + seq!['\n'] + x
        },
{
    assert(ks.push(x).drop_last() =~= ks);
    assert(ks.push(x).last() == x);
    if ks.len() == 0 {
        assert(ks.push(x)[0] == x);
    }
}

/// The least indentation among the non-blank lines after the first, or 0.
fn common_indent_exec(ls: &Vec<Vec<char>>, lsv: Ghost<Seq<Seq<char>>>) -> (m: usize)
    requires
        ls@.len() == lsv@.len(),
        forall|k: int| 0 <= k < ls@.len() ==> (#[trigger] ls@[k])@ == lsv@[k],
    ensures
        m == common_indent(lsv@),
{
    let mut found = false;
    let mut m: usize = 0;
    let mut i: usize = 1;
    while i < ls.len()
        invariant
            1 <= i,
            i <= ls.len() || ls.len() == 0,
            ls@.len() == lsv@.len(),
            forall|k: int| 0 <= k < ls@.len() ==> (#[trigger] ls@[k])@ == lsv@[k],
            found ==> min_indent_upto(lsv@, i as int) == Some(m as int),
            !found ==> min_indent_upto(lsv@, i as int) is None,
        decreases ls.len() - i,
    {
        assert(ls@[i as int]@ == lsv@[i as int]);
        if !is_blank_exec(&ls[i]) {
            let lead = leading_ws_exec(&ls[i]);
            if !found || lead < m {
                m = lead;
            }
            found = true;
        }
        i += 1;
    }
    if ls.len() == 0 {
        assert(min_indent_upto(lsv@, 0) is None);
    }
    if found {
        m
    } else {
        0
    }
}

/// Strips the common indentation of the lines of `s` and joins them again.
pub fn strip_indentation_chars(s: &Vec<char>) -> (r: Vec<char>)
    ensures
        r@ == strip_indentation(s@),
{
    let ls = split_lines_exec(s);
    let ghost lsv = split_lines(s@);
    let ind = common_indent_exec(&ls, Ghost(lsv));
    let mut out: Vec<char> = Vec::new();
    let mut count: usize = 0;
    let mut idx: usize = 0;
    while idx < ls.len()
        invariant
            idx <= ls.len(),
            ls@.len() == lsv.len(),
            forall|k: int| 0 <= k < ls@.len() ==> (#[trigger] ls@[k])@ == lsv[k],
            ind == common_indent(lsv),
            lsv == split_lines(s@),
            out@ == join_lines(kept_lines(lsv, ind as int, idx as int)),
            count == kept_lines(lsv, ind as int, idx as int).len(),
            count <= idx,
        decreases ls.len() - idx,
    {
        let ghost ks = kept_lines(lsv, ind as int, idx as int);
        assert(ls@[idx as int]@ == lsv[idx as int]);
        if idx == 0 && is_blank_exec(&ls[0]) {
            idx += 1;
            continue;
        }
        assert(!line_dropped(lsv, idx as int));
        let sl = strip_line(&ls[idx], ind);
        proof {
            lemma_join_push(ks, sl@);
        }
        let ghost before = out@;
        if count > 0 {
            out.push('\n');
        }
        let ghost mid = out@;
        let mut k: usize = 0;
        while k < sl.len()
            invariant
                k <= sl.len(),
                out@ == mid + sl@.take(k as int),
            decreases sl.len() - k,
        {
            out.push(sl[k]);
            assert(sl@.take(k + 1) =~= sl@.take(k as int).push(sl@[k as int]));
            k += 1;
        }
        assert(sl@.take(sl.len() as int) =~= sl@);
        if count > 0 {
            assert(mid =~= before + seq!['\n']);
        } else {
            assert(before =~= Seq::<char>::empty());
        }
        assert(out@ =~= join_lines(ks.push(sl@)));
        count += 1;
        idx += 1;
    }
    out
}

} // verus!
