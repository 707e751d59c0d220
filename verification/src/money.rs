//! The monetary-value validator.
//!
//! Prices and balances reach the system as decimal renderings. A value is
//! accepted when it is positive and fits the shape `X.YY`: one to four
//! integer digits, a point, and up to two fractional digits, with the point
//! and the fractional digits optional (a whole number such as `"12"` passes).
//! An accepted value is kept as a whole number of cents.

use vstd::prelude::*;
use crate::text::str_chars;

verus! {

/// Whether `c` is a decimal digit.
pub open spec fn is_digit(c: char) -> bool {
    48 <= c as u32 && c as u32 <= 57
}

/// The value of the digit character `c`.
pub open spec fn digit_val(c: char) -> int {
    c as u32 - 48
}

/// Whether every character of `s` is a decimal digit.
pub open spec fn is_digits(s: Seq<char>) -> bool {
    forall|i: int| 0 <= i < s.len() ==> is_digit(#[trigger] s[i])
}

/// The value of the digit string `s`, most significant digit first.
pub open spec fn digits_val(s: Seq<char>) -> int
    decreases s.len(),
{
    if s.len() == 0 {
        0
    } else {
        digits_val(s.drop_last()) * 10 + digit_val(s.last())
    }
}

/// Ten to the `n`.
pub open spec fn pow10(n: nat) -> nat
    decreases n,
{
    if n == 0 {
        1
    } else {
        10 * pow10((n - 1) as nat)
    }
}

/// A digit string's value is below ten to its length.
pub proof fn lemma_digits_val_bound(s: Seq<char>)
    requires
        is_digits(s),
    ensures
        0 <= digits_val(s) < pow10(s.len()),
    decreases s.len(),
{
    if s.len() > 0 {
        lemma_digits_val_bound(s.drop_last());
    }
}

/// The index of the first `'.'` in `s`, or `s.len()` if there is none.
pub open spec fn first_dot(s: Seq<char>) -> int
    decreases s.len(),
{
    if s.len() == 0 {
        0
    } else if s[0] == '.' {
        0
    } else {
        1 + first_dot(s.skip(1))
    }
}

/// What characterizes [`first_dot`]: no `'.'` before it, and a `'.'` at it
/// unless there is none at all.
pub proof fn lemma_first_dot(s: Seq<char>)
    ensures
        0 <= first_dot(s) <= s.len(),
        first_dot(s) < s.len() ==> s[first_dot(s)] == '.',
        forall|j: int| 0 <= j < first_dot(s) ==> s[j] != '.',
    decreases s.len(),
{
    if s.len() > 0 && s[0] != '.' {
        lemma_first_dot(s.skip(1));
        assert(forall|j: int| 0 <= j < first_dot(s.skip(1)) ==> s.skip(1)[j] != '.');
        assert forall|j: int| 0 <= j < first_dot(s) implies s[j] != '.' by {
            if j > 0 {
                assert(s.skip(1)[j - 1] == s[j]);
            }
        }
    }
}

/// Any position with no `'.'` before it and a `'.'` at it (or the length,
/// when there is no `'.'` at all) is [`first_dot`].
pub proof fn lemma_first_dot_unique(s: Seq<char>, k: int)
    requires
        0 <= k <= s.len(),
        k < s.len() ==> s[k] == '.',
        forall|j: int| 0 <= j < k ==> s[j] != '.',
    ensures
        k == first_dot(s),
    decreases s.len(),
{
    if s.len() > 0 && s[0] != '.' {
        assert(k > 0);
        lemma_first_dot_unique(s.skip(1), k - 1);
    }
}

/// Whether `s` has the accepted monetary shape: one to four integer digits,
/// then optionally a point and up to two fractional digits.
pub open spec fn money_shape(s: Seq<char>) -> bool {
    let k = first_dot(s);
    if k == s.len() {
        1 <= s.len() <= 4 && is_digits(s)
    } else {
        1 <= k <= 4 && s.len() - k - 1 <= 2 && is_digits(s.subrange(0, k)) && is_digits(
            s.subrange(k + 1, s.len() as int),
        )
    }
}

/// The cent value of the fractional digit string `f` (at most two digits):
/// one digit counts tens of cents, two digits count cents.
pub open spec fn frac_cents(f: Seq<char>) -> int {
    if f.len() == 0 {
        0
    } else if f.len() == 1 {
        digit_val(f[0]) * 10
    } else {
        digit_val(f[0]) * 10 + digit_val(f[1])
    }
}

/// The cent value of a string of the accepted monetary shape.
pub open spec fn money_cents(s: Seq<char>) -> int {
    let k = first_dot(s);
    if k == s.len() {
        digits_val(s) * 100
    } else {
        digits_val(s.subrange(0, k)) * 100 + frac_cents(s.subrange(k + 1, s.len() as int))
    }
}

/// Whether `c` is the digit zero or the point, by code point.
pub open spec fn is_zero_or_dot(c: char) -> bool {
    c as u32 == 48 || c as u32 == 46
}

/// Whether the rendering `s` stands for a value that is zero or below: a
/// leading minus sign, or nothing but zeros (and a point) in it.
pub open spec fn nonpositive(s: Seq<char>) -> bool {
    (s.len() > 0 && s[0] == '-') || (s.len() > 0 && forall|i: int|
        0 <= i < s.len() ==> is_zero_or_dot(#[trigger] s[i]))
}

/// The rejection message for a zero or negative monetary value.
pub open spec fn msg_nonpositive(label: Seq<char>) -> Seq<char> {
    "Please give a positive value (>0) for "@ + label
}

/// The rejection message for a value outside the accepted monetary shape.
pub open spec fn msg_bad_money(label: Seq<char>) -> Seq<char> {
    "Please input a valid "@ + label + " of form X.YY: 0 <= X <= 9999, 0 <= Y <= 9"@
}

/// What the monetary-value validator decides for the rendering `s` under the
/// field label `label`: a zero or negative value is rejected first, then a
/// value outside the accepted shape; what remains passes, as its cent value.
pub open spec fn validate_money_spec(s: Seq<char>, label: Seq<char>) -> Result<int, Seq<char>> {
    if nonpositive(s) {
        Err(msg_nonpositive(label))
    } else if !money_shape(s) {
        Err(msg_bad_money(label))
    } else {
        Ok(money_cents(s))
    }
}

/// Any rendering of a zero or negative value is rejected by the
/// monetary-value validator, whatever the field label.
pub proof fn lemma_money_validator_rejects_nonpositive(s: Seq<char>, label: Seq<char>)
    requires
        nonpositive(s),
    ensures
        validate_money_spec(s, label) is Err,
{
}

/// An accepted monetary value is positive and below a million cents.
pub proof fn lemma_money_cents_bound(s: Seq<char>)
    requires
        money_shape(s),
    ensures
        0 <= money_cents(s) < 1000000,
{
    let k = first_dot(s);
    lemma_first_dot(s);
    assert(pow10(0) == 1);
    assert(pow10(1) == 10);
    assert(pow10(2) == 100);
    assert(pow10(3) == 1000);
    assert(pow10(4) == 10000);
    if k == s.len() {
        lemma_digits_val_bound(s);
    } else {
        lemma_digits_val_bound(s.subrange(0, k));
        let f = s.subrange(k + 1, s.len() as int);
        if f.len() > 0 {
            assert(is_digit(f[0]));
        }
        if f.len() > 1 {
            assert(is_digit(f[1]));
        }
    }
}

/// A digit string of value zero is all zeros.
proof fn lemma_zero_digits(s: Seq<char>)
    requires
        is_digits(s),
        digits_val(s) == 0,
    ensures
        forall|i: int| 0 <= i < s.len() ==> (#[trigger] s[i]) as u32 == 48,
    decreases s.len(),
{
    if s.len() > 0 {
        let head = s.drop_last();
        lemma_digits_val_bound(head);
        assert(digits_val(head) == 0 && digit_val(s.last()) == 0);
        assert(s.last() as u32 == 48);
        lemma_zero_digits(head);
        assert forall|i: int| 0 <= i < s.len() implies (#[trigger] s[i]) as u32 == 48 by {
            if i < s.len() - 1 {
                assert(head[i] == s[i]);
            }
        }
    }
}

/// A value that passes the shape check and is not rejected as nonpositive is
/// at least one cent.
pub proof fn lemma_money_positive(s: Seq<char>)
    requires
        money_shape(s),
        !nonpositive(s),
    ensures
        1 <= money_cents(s),
{
    let k = first_dot(s);
    lemma_first_dot(s);
    assert('.' as u32 == 46);
    if k == s.len() {
        lemma_digits_val_bound(s);
        if digits_val(s) == 0 {
            lemma_zero_digits(s);
            assert(forall|i: int| 0 <= i < s.len() ==> is_zero_or_dot(#[trigger] s[i]));
            assert(nonpositive(s));
        }
    } else {
        let w = s.subrange(0, k);
        let f = s.subrange(k + 1, s.len() as int);
        lemma_digits_val_bound(w);
        if f.len() > 0 {
            assert(is_digit(f[0]));
        }
        if f.len() > 1 {
            assert(is_digit(f[1]));
        }
        if money_cents(s) == 0 {
            assert(digits_val(w) == 0 && frac_cents(f) == 0);
            lemma_zero_digits(w);
            assert(f.len() >= 1 ==> digit_val(f[0]) == 0 && f[0] as u32 == 48);
            assert(f.len() >= 2 ==> digit_val(f[1]) == 0 && f[1] as u32 == 48);
            assert forall|i: int| 0 <= i < s.len() implies is_zero_or_dot(#[trigger] s[i]) by {
                if i < k {
                    assert(w[i] == s[i]);
                } else if i > k {
                    assert(f[i - k - 1] == s[i]);
                } else {
                    assert(s[k] == '.');
                }
            }
            assert(nonpositive(s));
        }
    }
}

/// The result of the monetary validator, with the cent value widened and the
/// message read as a character sequence.
pub open spec fn money_res_view(r: Result<u64, String>) -> Result<int, Seq<char>> {
    match r {
        Ok(c) => Ok(c as int),
        Err(e) => Err(e@),
    }
}

/// The monetary-value validator: reject a zero or negative value, then a
/// value outside the shape `X.YY` (one to four integer digits, up to two
/// fractional digits, point and fraction optional); accept everything else
/// and return its value in cents. `label` names the field in the rejection
/// messages.
pub fn validate_money(value: &str, label: &str) -> (r: Result<u64, String>)
    ensures
        money_res_view(r) == validate_money_spec(value@, label@),
{
    let v = str_chars(value);
    let n = v.len();

    // A minus sign, or no character other than '0' and '.', means the value
    // is not positive.
    let neg = n > 0 && v[0] == '-';
    let mut all_zero = n > 0;
    let mut i: usize = 0;
    while i < n
        invariant
            i <= n,
            n == v@.len(),
            all_zero == (n > 0 && forall|j: int| 0 <= j < i ==> is_zero_or_dot(#[trigger] v@[j])),
        decreases n - i,
    {
        let u = v[i] as u32;
        if !(u == 48 || u == 46) {
            all_zero = false;
        }
        i += 1;
    }
    if neg || all_zero {
        let mut m = String::from_str("Please give a positive value (>0) for ");
        m.append(label);
        return Err(m);
    }

    // Find the first point.
    let mut k: usize = 0;
    while k < n && v[k] != '.'
        invariant
            k <= n,
            n == v@.len(),
            forall|j: int| 0 <= j < k ==> v@[j] != '.',
        decreases n - k,
    {
        k += 1;
    }
    proof {
        lemma_first_dot_unique(v@, k as int);
    }

    // Check the shape around it.
    let int_len = k;
    let frac_len = if k < n {
        n - k - 1
    } else {
        0
    };
    let mut digits_ok = true;
    let mut i: usize = 0;
    while i < n
        invariant
            i <= n,
            n == v@.len(),
            k <= n,
            k < n ==> v@[k as int] == '.',
            digits_ok == (forall|j: int| 0 <= j < i && j != k ==> is_digit(#[trigger] v@[j])),
        decreases n - i,
    {
        let c = v[i];
        let u = c as u32;
        if i != k && !(48 <= u && u <= 57) {
            digits_ok = false;
        }
        i += 1;
    }
    let shape = 1 <= int_len && int_len <= 4 && frac_len <= 2 && digits_ok;
    proof {
        let s = v@;
        let kk = k as int;
        let nn = n as int;
        if kk == nn {
            assert(s.subrange(0, kk) =~= s);
            if digits_ok {
                assert(is_digits(s));
            } else {
                let j = choose|j: int| 0 <= j < nn && j != kk && !is_digit(s[j]);
                assert(!is_digit(s[j]));
            }
            assert(money_shape(s) == shape);
        } else {
            let intpart = s.subrange(0, kk);
            let fracpart = s.subrange(kk + 1, nn);
            if digits_ok {
                assert forall|j: int| 0 <= j < intpart.len() implies is_digit(
                    #[trigger] intpart[j],
                ) by {
                    assert(intpart[j] == s[j]);
                }
                assert forall|j: int| 0 <= j < fracpart.len() implies is_digit(
                    #[trigger] fracpart[j],
                ) by {
                    assert(fracpart[j] == s[kk + 1 + j]);
                }
                assert(money_shape(s) == shape);
            } else {
                let j = choose|j: int| 0 <= j < nn && j != kk && !is_digit(s[j]);
                if j < kk {
                    assert(intpart[j] == s[j]);
                    assert(!is_digits(intpart));
                } else {
                    assert(fracpart[j - kk - 1] == s[j]);
                    assert(!is_digits(fracpart));
                }
                assert(!money_shape(s));
            }
        }
    }
    if !shape {
        let mut m = String::from_str("Please input a valid ");
        m.append(label);
        m.append(" of form X.YY: 0 <= X <= 9999, 0 <= Y <= 9");
        return Err(m);
    }

    // The integer digits.
    proof {
        if k as int == n as int {
            assert(v@.subrange(0, k as int) =~= v@);
        }
        assert(is_digits(v@.subrange(0, k as int)));
    }
    let mut whole: u64 = 0;
    let mut i: usize = 0;
    while i < int_len
        invariant
            i <= int_len,
            int_len == k,
            k <= n,
            n == v@.len(),
            is_digits(v@.subrange(0, k as int)),
            int_len <= 4,
            whole == digits_val(v@.subrange(0, i as int)),
            0 <= whole < 10000,
        decreases int_len - i,
    {
        let c = v[i];
        proof {
            assert(v@.subrange(0, k as int)[i as int] == v@[i as int]);
            assert(is_digit(v@[i as int]));
        }
        let d = (c as u32 - 48) as u64;
        proof {
            let pre = v@.subrange(0, i as int);
            let cur = v@.subrange(0, i as int + 1);
            assert(cur.drop_last() =~= pre);
            assert(cur.last() == v@[i as int]);
            assert forall|j: int| 0 <= j < cur.len() implies is_digit(#[trigger] cur[j]) by {
                assert(cur[j] == v@.subrange(0, k as int)[j]);
            }
            lemma_digits_val_bound(cur);
            assert(pow10(0) == 1);
            assert(pow10(1) == 10);
            assert(pow10(2) == 100);
            assert(pow10(3) == 1000);
            assert(pow10(4) == 10000);
            assert(digits_val(cur) < 10000);
        }
        whole = whole * 10 + d;
        i += 1;
    }
    assert(v@.subrange(0, int_len as int) =~= v@.subrange(0, k as int));

    // The fractional digits.
    let mut cents: u64 = whole * 100;
    proof {
        if k as int == n {
            assert(v@.subrange(0, k as int) =~= v@);
        }
    }
    if k < n {
        let ghost f = v@.subrange(k as int + 1, n as int);
        if k + 1 < n {
            let c = v[k + 1];
            proof {
                assert(f[0] == v@[k as int + 1]);
                assert(is_digit(f[0]));
            }
            cents = cents + (c as u32 - 48) as u64 * 10;
        }
        if k + 2 < n {
            let c = v[k + 2];
            proof {
                assert(f[1] == v@[k as int + 2]);
                assert(is_digit(f[1]));
            }
            cents = cents + (c as u32 - 48) as u64;
        }
        assert(cents == money_cents(v@));
    }
    Ok(cents)
}

} // verus!
