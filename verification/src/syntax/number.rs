//! Values of integer literals.

use vstd::prelude::*;

verus! {

/// The value of a digit character in bases up to 16.
pub open spec fn digit_value(c: char) -> nat {
    if '0' <= c <= '9' {
        ((c as int) - ('0' as int)) as nat
    } else if 'a' <= c <= 'f' {
        ((c as int) - ('a' as int) + 10) as nat
    } else if 'A' <= c <= 'F' {
        ((c as int) - ('A' as int) + 10) as nat
    } else {
        0
    }
}

/// Whether `c` is a digit of base `radix` (2, 10 or 16).
pub open spec fn is_radix_digit(c: char, radix: nat) -> bool {
    if radix == 16 {
        ('0' <= c <= '9') || ('a' <= c <= 'f') || ('A' <= c <= 'F')
    } else if radix == 10 {
        '0' <= c <= '9'
    } else {
        c == '0' || c == '1'
    }
}

/// The number written by the digits `ds` in base `radix`.
pub open spec fn digits_value(ds: Seq<char>, radix: nat) -> nat
    decreases ds.len(),
{
    if ds.len() == 0 {
        0
    } else {
        digits_value(ds.drop_last(), radix) * radix + digit_value(ds.last())
    }
}

/// What `i128::from_str_radix(ds, radix).unwrap_or(0)` gives for a string of
/// digits: the number they write, or 0 when there are none or it exceeds `i128::MAX`.
pub open spec fn int_literal_value(ds: Seq<char>, radix: nat) -> i128 {
    if ds.len() == 0 || digits_value(ds, radix) > i128::MAX {
        0
    } else {
        digits_value(ds, radix) as i128
    }
}

fn digit_of(c: char) -> (d: u32)
    ensures
        d == digit_value(c),
        d < 16,
{
    let v = c as u32;
    if '0' <= c && c <= '9' {
        v - ('0' as u32)
    } else if 'a' <= c && c <= 'f' {
        v - ('a' as u32) + 10
    } else if 'A' <= c && c <= 'F' {
        v - ('A' as u32) + 10
    } else {
        0
    }
}

/// Reads the digits `ds` in base `radix`, as `i128::from_str_radix` does for
/// a string of digits, with 0 for an empty string or an out-of-range value.
pub fn parse_int_digits(ds: &Vec<char>, radix: u32) -> (v: i128)
    requires
        radix == 2 || radix == 10 || radix == 16,
        forall|i: int| 0 <= i < ds@.len() ==> is_radix_digit(#[trigger] ds@[i], radix as nat),
    ensures
        v == int_literal_value(ds@, radix as nat),
{
    if ds.len() == 0 {
        return 0;
    }
    let r: i128 = radix as i128;
    let mut acc: i128 = 0;
    let mut over = false;
    let mut i: usize = 0;
    while i < ds.len()
        invariant
            i <= ds.len(),
            r == radix,
            radix == 2 || radix == 10 || radix == 16,
            over ==> digits_value(ds@.take(i as int), radix as nat) > i128::MAX,
            !over ==> acc == digits_value(ds@.take(i as int), radix as nat),
            0 <= acc,
        decreases ds.len() - i,
    {
        let d = digit_of(ds[i]);
        let ghost prev = digits_value(ds@.take(i as int), radix as nat);
        assert(ds@.take(i + 1).drop_last() =~= ds@.take(i as int));
        assert(ds@.take(i + 1).last() == ds@[i as int]);
        assert(digits_value(ds@.take(i + 1), radix as nat) == prev * radix + d);
        if !over {
            let dd: i128 = d as i128;
            let lim: i128 = (i128::MAX - dd) / r;
            if acc > lim {
                assert(acc * r + dd > i128::MAX) by (nonlinear_arith)
                    requires
                        lim == (i128::MAX - dd) as int / r as int,
                        acc > lim,
                        r >= 2,
                        0 <= dd < 16,
                ;
                over = true;
            } else {
                assert(acc * r + dd <= i128::MAX) by (nonlinear_arith)
                    requires
                        lim == (i128::MAX - dd) as int / r as int,
                        acc <= lim,
                        r >= 2,
                        0 <= dd < 16,
                        0 <= acc,
                ;
                assert(0 <= acc * r) by (nonlinear_arith)
                    requires
                        r >= 2,
                        0 <= acc,
                ;
                acc = acc * r + dd;
            }
        } else {
            assert(prev * radix + d >= prev) by (nonlinear_arith)
                requires
                    radix >= 2,
                    prev >= 0,
                    d >= 0,
            ;
        }
        i += 1;
    }
    assert(ds@.take(ds.len() as int) =~= ds@);
    if over {
        0
    } else {
        acc
    }
}

} // verus!
