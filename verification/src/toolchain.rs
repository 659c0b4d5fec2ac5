//! Which external tools the driver can use, decided from the text that each
//! tool prints for `--version`: Clang 19 or newer, GCC 14 or newer, and
//! ripgrep 15 or newer, compared by major version number. Where none fits,
//! the bundled tool is used.

use vstd::prelude::*;
use crate::syntax::chars::{is_ascii_digit, is_digit};

verus! {

/// Whether `sub` occurs in `s` starting at index `i`.
pub open spec fn occurs_at(s: Seq<char>, sub: Seq<char>, i: int) -> bool {
    0 <= i && i + sub.len() <= s.len() && s.subrange(i, i + sub.len()) == sub
}

/// The end of the run of decimal digits of `t` that starts at `i`.
pub open spec fn digits_end(t: Seq<char>, i: int) -> int
    decreases t.len() - i,
{
    if 0 <= i < t.len() && is_digit(t[i]) {
        digits_end(t, i + 1)
    } else {
        i
    }
}

/// The number that the decimal digits `d` spell.
pub open spec fn decimal_value(d: Seq<char>) -> nat
    decreases d.len(),
{
    if d.len() == 0 {
        0
    } else {
        (10 * decimal_value(d.drop_last()) + ((d.last() as int) - ('0' as int))) as nat
    }
}

/// At index `i` of `t` stands `prefix`, then a version whose major number
/// (the digits that follow) is at least `min`, followed by a `.` when `dotted`.
pub open spec fn version_at(t: Seq<char>, prefix: Seq<char>, i: int, min: nat, dotted: bool) -> bool {
    &&& occurs_at(t, prefix, i)
    &&& i + prefix.len() < digits_end(t, i + prefix.len())
    &&& decimal_value(t.subrange(i + prefix.len(), digits_end(t, i + prefix.len()))) >= min
    &&& dotted ==> digits_end(t, i + prefix.len()) < t.len() && t[digits_end(t, i + prefix.len())] == '.'
}

/// Whether `t` names, after `prefix`, a version whose major number is at least `min`.
pub open spec fn names_version(t: Seq<char>, prefix: Seq<char>, min: nat, dotted: bool) -> bool {
    exists|i: int| version_at(t, prefix, i, min, dotted)
}

/// The characters of `s`.
fn chars_of(s: &str) -> (v: Vec<char>)
    ensures
        v@ == s@,
{
    let mut v: Vec<char> = Vec::new();
    for c in it: s.chars()
        invariant
            it.seq() == s@,
            v@ == s@.take(it.index() as int),
    {
        let ghost i = it.index() as int;
        v.push(c);
        assert(s@.take(i + 1) =~= s@.take(i).push(c));
    }
    assert(s@.take(s@.len() as int) =~= s@);
    v
}

/// Whether `sub` occurs in `s` at index `i`.
fn occurs_at_exec(s: &Vec<char>, sub: &Vec<char>, i: usize) -> (b: bool)
    requires
        i + sub.len() <= s.len(),
    ensures
        b == occurs_at(s@, sub@, i as int),
{
    let mut j: usize = 0;
    while j < sub.len()
        invariant
            i + sub.len() <= s.len(),
            j <= sub.len(),
            forall|k: int| 0 <= k < j ==> s@[i + k] == sub@[k],
        decreases sub.len() - j,
    {
        if s[i + j] != sub[j] {
            assert(s@.subrange(i as int, i + sub.len())[j as int] != sub@[j as int]);
            return false;
        }
        j += 1;
    }
    assert(s@.subrange(i as int, i + sub.len()) =~= sub@);
    true
}

/// `x`, but no more than `min`.
pub open spec fn capped(x: nat, min: nat) -> nat {
    if x >= min {
        min
    } else {
        x
    }
}

proof fn lemma_digits_end_bounds(t: Seq<char>, i: int)
    requires
        0 <= i <= t.len(),
    ensures
        i <= digits_end(t, i) <= t.len(),
    decreases t.len() - i,
{
    if i < t.len() && is_digit(t[i]) {
        lemma_digits_end_bounds(t, i + 1);
    }
}

/// Whether `version_at(t, prefix, i, min, dotted)` holds.
fn version_at_exec(t: &Vec<char>, prefix: &Vec<char>, i: usize, min: u64, dotted: bool) -> (b: bool)
    requires
        i + prefix.len() <= t.len(),
        min <= 1000,
    ensures
        b == version_at(t@, prefix@, i as int, min as nat, dotted),
{
    if !occurs_at_exec(t, prefix, i) {
        return false;
    }
    let s = i + prefix.len();
    let mut e: usize = s;
    let mut v: u64 = 0;
    assert(t@.subrange(s as int, s as int) =~= Seq::<char>::empty());
    while e < t.len() && is_ascii_digit(t[e])
        invariant
            s <= e <= t.len(),
            min <= 1000,
            digits_end(t@, e as int) == digits_end(t@, s as int),
            v == capped(decimal_value(t@.subrange(s as int, e as int)), min as nat),
        decreases t.len() - e,
    {
        let d = (t[e] as u32 - '0' as u32) as u64;
        proof {
            let sub = t@.subrange(s as int, e + 1);
            assert(sub.drop_last() =~= t@.subrange(s as int, e as int));
            assert(sub.last() == t@[e as int]);
        }
        if v >= min {
            v = min;
        } else {
            let nv = v * 10 + d;
            v = if nv >= min {
                min
            } else {
                nv
            };
        }
        e += 1;
    }
    proof {
        lemma_digits_end_bounds(t@, s as int);
    }
    let long_enough = s < e && v >= min;
    if !dotted {
        long_enough
    } else {
        long_enough && e < t.len() && t[e] == '.'
    }
}

/// Whether `version` names, after `prefix`, a version whose major number is
/// at least `min`, followed by a `.` when `dotted`.
pub fn names_version_exec(version: &str, prefix: &str, min: u64, dotted: bool) -> (b: bool)
    requires
        min <= 1000,
    ensures
        b == names_version(version@, prefix@, min as nat, dotted),
{
    let sv = chars_of(version);
    let pv = chars_of(prefix);
    if pv.len() > sv.len() {
        return false;
    }
    let last = sv.len() - pv.len();
    let mut i: usize = 0;
    loop
        invariant_except_break
            sv@ == version@,
            pv@ == prefix@,
            min <= 1000,
            last == sv.len() - pv.len(),
            i <= last,
            forall|k: int| 0 <= k < i ==> !version_at(version@, prefix@, k, min as nat, dotted),
        ensures
            forall|k: int| 0 <= k <= last ==> !version_at(version@, prefix@, k, min as nat, dotted),
        decreases last - i,
    {
        if version_at_exec(&sv, &pv, i, min, dotted) {
            return true;
        }
        if i == last {
            break;
        }
        i += 1;
    }
    proof {
        assert forall|k: int| !version_at(version@, prefix@, k, min as nat, dotted) by {
            if 0 <= k && k + prefix@.len() <= version@.len() {
                assert(k <= last);
            }
        }
    }
    false
}

/// The C compiler that the driver invokes.
#[derive(Debug, Clone, Copy, PartialEq, Eq, Structural)]
pub enum CCompiler {
    Clang,
    Gcc,
    Bundled,
}

/// Whether Clang's version text names a major version of 19 or more
/// (`clang version 19.1.0`).
pub open spec fn clang_supported(version: Seq<char>) -> bool {
    names_version(version, "clang version "@, 19, false)
}

/// Whether GCC's version text names a release whose major version is 14 or
/// more (` 14.2.0`).
pub open spec fn gcc_supported(version: Seq<char>) -> bool {
    names_version(version, " "@, 14, true)
}

/// Whether ripgrep's version text names a major version of 15 or more
/// (`ripgrep 15.0.0`).
pub open spec fn ripgrep_supported(version: Seq<char>) -> bool {
    names_version(version, "ripgrep "@, 15, false)
}

/// Whether Clang's `--version` text names version 19 or newer.
pub fn clang_is_supported(version: &str) -> (b: bool)
    ensures
        b == clang_supported(version@),
{
    names_version_exec(version, "clang version ", 19, false)
}

/// Whether GCC's `--version` text names release 14 or newer.
pub fn gcc_is_supported(version: &str) -> (b: bool)
    ensures
        b == gcc_supported(version@),
{
    names_version_exec(version, " ", 14, true)
}

/// Whether ripgrep's `--version` text names version 15 or newer.
pub fn ripgrep_is_supported(version: &str) -> (b: bool)
    ensures
        b == ripgrep_supported(version@),
{
    names_version_exec(version, "ripgrep ", 15, false)
}

/// The compiler to use, from the `--version` texts of Clang and GCC (`None`
/// where the tool could not be run): a supported Clang first, then a
/// supported GCC, else the bundled compiler.
pub fn choose_c_compiler(clang_version: Option<&str>, gcc_version: Option<&str>) -> (c: CCompiler)
    ensures
        c == (if clang_version is Some && clang_supported(clang_version->0@) {
            CCompiler::Clang
        } else if gcc_version is Some && gcc_supported(gcc_version->0@) {
            CCompiler::Gcc
        } else {
            CCompiler::Bundled
        }),
{
    let clang_ok = match clang_version {
        Some(v) => clang_is_supported(v),
        None => false,
    };
    let gcc_ok = match gcc_version {
        Some(v) => gcc_is_supported(v),
        None => false,
    };
    if clang_ok {
        CCompiler::Clang
    } else if gcc_ok {
        CCompiler::Gcc
    } else {
        CCompiler::Bundled
    }
}

} // verus!
