//! Verified decimal rendering of integers and of cent amounts.
//!
//! Response strings quote record ids and monetary amounts; the functions here
//! render them, and their specifications say exactly which characters come
//! out.

use vstd::prelude::*;
use crate::text::chars_to_string;

verus! {

/// The digit character for `d`, a value below ten.
pub open spec fn digit_char(d: int) -> char {
    if d == 0 {
        '0'
    } else if d == 1 {
        '1'
    } else if d == 2 {
        '2'
    } else if d == 3 {
        '3'
    } else if d == 4 {
        '4'
    } else if d == 5 {
        '5'
    } else if d == 6 {
        '6'
    } else if d == 7 {
        '7'
    } else if d == 8 {
        '8'
    } else {
        '9'
    }
}

/// The decimal rendering of `n`, most significant digit first, without
/// leading zeros (a single `'0'` for zero).
pub open spec fn dec_rep(n: nat) -> Seq<char>
    decreases n,
{
    if n < 10 {
        seq![digit_char(n as int)]
    } else {
        dec_rep(n / 10) + seq![digit_char((n % 10) as int)]
    }
}

/// The decimal rendering of a signed value: a leading `'-'` for a negative
/// one.
pub open spec fn int_rep(n: int) -> Seq<char> {
    if n >= 0 {
        dec_rep(n as nat)
    } else {
        seq!['-'] + dec_rep((-n) as nat)
    }
}

/// The rendering of a cent amount with two forced fractional digits, as a
/// value rounded to two decimal places is displayed.
pub open spec fn money_rep(cents: nat) -> Seq<char> {
    dec_rep(cents / 100) + seq!['.', digit_char((cents % 100 / 10) as int), digit_char(
        (cents % 10) as int,
    )]
}

/// The digit character for `d` at run time.
fn digit_char_of(d: u64) -> (c: char)
    requires
        d < 10,
    ensures
        c == digit_char(d as int),
{
    match d {
        0 => '0',
        1 => '1',
        2 => '2',
        3 => '3',
        4 => '4',
        5 => '5',
        6 => '6',
        7 => '7',
        8 => '8',
        _ => '9',
    }
}

/// The decimal digits of `n`, as characters.
fn u64_dec_chars(n: u64) -> (v: Vec<char>)
    ensures
        v@ == dec_rep(n as nat),
    decreases n,
{
    if n < 10 {
        let mut v: Vec<char> = Vec::new();
        v.push(digit_char_of(n));
        assert(v@ =~= seq![digit_char(n as int)]);
        v
    } else {
        let mut v = u64_dec_chars(n / 10);
        v.push(digit_char_of(n % 10));
        assert(v@ =~= dec_rep(n as nat / 10) + seq![digit_char((n as nat % 10) as int)]);
        v
    }
}

/// Render `n` in decimal.
pub fn u64_to_string(n: u64) -> (s: String)
    ensures
        s@ == dec_rep(n as nat),
{
    let v = u64_dec_chars(n);
    chars_to_string(&v)
}

/// Render `n` in decimal, with a leading minus sign when it is negative.
pub fn i64_to_string(n: i64) -> (s: String)
    ensures
        s@ == int_rep(n as int),
{
    if n >= 0 {
        u64_to_string(n as u64)
    } else {
        let magnitude: u64 = if n == i64::MIN {
            9223372036854775808u64
        } else {
            (-n) as u64
        };
        assert(magnitude as nat == (-(n as int)) as nat);
        let digits = u64_to_string(magnitude);
        let mut s = String::from_str("-");
        s.append(digits.as_str());
        proof {
            reveal_strlit("-");
            assert(s@ =~= int_rep(n as int));
        }
        s
    }
}

/// Render a cent amount as whole units, a point, and two fractional digits.
pub fn cents_to_string(cents: u64) -> (s: String)
    ensures
        s@ == money_rep(cents as nat),
{
    let mut v = u64_dec_chars(cents / 100);
    v.push('.');
    v.push(digit_char_of(cents % 100 / 10));
    v.push(digit_char_of(cents % 10));
    assert(v@ =~= money_rep(cents as nat));
    chars_to_string(&v)
}

} // verus!
