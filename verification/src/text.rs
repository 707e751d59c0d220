//! Whitespace normalization and the text-field validator.
//!
//! Text fields (titles, authors, names, addresses) are first normalized —
//! surrounding whitespace trimmed and every internal whitespace run collapsed
//! to a single space — and then checked to contain only letters, digits and
//! whitespace.

use vstd::prelude::*;

verus! {

/// Whether `c` is a whitespace character: the Unicode `White_Space` set.
pub open spec fn is_space(c: char) -> bool {
    let u = c as u32;
    (9 <= u && u <= 13) || u == 32 || u == 0x85 || u == 0xA0 || u == 0x1680 || (0x2000 <= u
        && u <= 0x200A) || u == 0x2028 || u == 0x2029 || u == 0x202F || u == 0x205F || u == 0x3000
}

/// Runtime test for [`is_space`].
pub fn is_space_char(c: char) -> (r: bool)
    ensures
        r == is_space(c),
{
    let u = c as u32;
    (9 <= u && u <= 13) || u == 32 || u == 0x85 || u == 0xA0 || u == 0x1680 || (0x2000 <= u
        && u <= 0x200A) || u == 0x2028 || u == 0x2029 || u == 0x202F || u == 0x205F || u == 0x3000
}

/// Whether `c` counts as alphanumeric for the text-field validator.
pub uninterp spec fn alnum(c: char) -> bool;

/// Relies on `char::is_alphanumeric`: whether the character has one of the
/// Unicode properties `Alphabetic`, `Nd`, `Nl` or `No`; a fixed function of
/// the character alone, which we only name.
#[verifier::external_body]
pub fn alnum_char(c: char) -> (r: bool)
    ensures
        r == alnum(c),
{
    c.is_alphanumeric()
}

/// The characters of `s`, as a vector.
pub fn str_chars(s: &str) -> (v: Vec<char>)
    ensures
        v@ == s@,
{
    let n = s.unicode_len();
    let mut v: Vec<char> = Vec::new();
    let mut i: usize = 0;
    while i < n
        invariant
            i <= n,
            n == s@.len(),
            v@ == s@.subrange(0, i as int),
        decreases n - i,
    {
        v.push(s.get_char(i));
        i += 1;
        assert(v@ =~= s@.subrange(0, i as int));
    }
    assert(v@ =~= s@);
    v
}

/// Relies on `String`'s `FromIterator` over characters: collecting the
/// characters of a vector yields the string whose characters they are.
#[verifier::external_body]
pub fn chars_to_string(v: &Vec<char>) -> (s: String)
    ensures
        s@ == v@,
{
    v.iter().collect()
}

/// `s` with its leading whitespace removed.
pub open spec fn ltrim(s: Seq<char>) -> Seq<char>
    decreases s.len(),
{
    if s.len() > 0 && is_space(s[0]) {
        ltrim(s.skip(1))
    } else {
        s
    }
}

/// Normalization of a sequence without leading whitespace: every character is
/// kept, except that each internal whitespace run becomes one `' '` and a
/// trailing whitespace run disappears.
pub open spec fn norm_from(s: Seq<char>) -> Seq<char>
    decreases s.len(),
{
    if s.len() == 0 {
        Seq::empty()
    } else if !is_space(s[0]) {
        seq![s[0]] + norm_from(s.skip(1))
    } else if s.len() >= 2 && !is_space(s[1]) {
        seq![' '] + norm_from(s.skip(1))
    } else {
        norm_from(s.skip(1))
    }
}

/// The whitespace normalization of `s`: surrounding whitespace trimmed, each
/// internal whitespace run collapsed to a single space.
pub open spec fn normalize(s: Seq<char>) -> Seq<char> {
    norm_from(ltrim(s))
}

/// A trimmed sequence is empty or starts with a non-whitespace character.
pub proof fn lemma_ltrim_head(s: Seq<char>)
    ensures
        ltrim(s).len() > 0 ==> !is_space(ltrim(s)[0]),
    decreases s.len(),
{
    if s.len() > 0 && is_space(s[0]) {
        lemma_ltrim_head(s.skip(1));
    }
}

/// What [`norm_from`] produces: every whitespace character in the result is a
/// plain space, no two spaces are adjacent, the result never ends in a space,
/// and a non-whitespace head is kept as the head.
pub proof fn lemma_norm_from_shape(s: Seq<char>)
    ensures
        forall|i: int|
            0 <= i < norm_from(s).len() && is_space(#[trigger] norm_from(s)[i]) ==> norm_from(s)[i]
                == ' ',
        forall|i: int|
            0 <= i < norm_from(s).len() - 1 ==> !(is_space(#[trigger] norm_from(s)[i]) && is_space(
                norm_from(s)[i + 1],
            )),
        norm_from(s).len() > 0 ==> !is_space(norm_from(s)[norm_from(s).len() - 1]),
        s.len() > 0 && !is_space(s[0]) ==> norm_from(s).len() > 0 && norm_from(s)[0] == s[0],
        norm_from(s).len() > 0 && is_space(norm_from(s)[0]) ==> s.len() > 0 && is_space(s[0]),
    decreases s.len(),
{
    if s.len() == 0 {
    } else {
        lemma_norm_from_shape(s.skip(1));
    }
}

/// [`norm_from`] leaves a sequence alone when there is nothing to do: every
/// whitespace character already a single plain space between two words, and no
/// trailing space.
pub proof fn lemma_norm_from_identity(s: Seq<char>)
    requires
        forall|i: int| 0 <= i < s.len() && is_space(#[trigger] s[i]) ==> s[i] == ' ',
        forall|i: int| 0 <= i < s.len() - 1 ==> !(is_space(#[trigger] s[i]) && is_space(s[i + 1])),
        s.len() > 0 ==> !is_space(s[s.len() - 1]),
    ensures
        norm_from(s) == s,
    decreases s.len(),
{
    if s.len() == 0 {
    } else {
        lemma_norm_from_identity(s.skip(1));
        if !is_space(s[0]) {
            assert(norm_from(s) =~= s);
        } else {
            assert(s.len() >= 2 && !is_space(s[1]));
            assert(norm_from(s) =~= s);
        }
    }
}

/// The normalizer is idempotent: normalizing a second time changes nothing.
pub proof fn lemma_normalize_idempotent(s: Seq<char>)
    ensures
        normalize(normalize(s)) == normalize(s),
{
    let t = ltrim(s);
    let r = norm_from(t);
    lemma_ltrim_head(s);
    lemma_norm_from_shape(t);
    if r.len() > 0 {
        assert(!is_space(r[0]));
    }
    assert(ltrim(r) == r);
    lemma_norm_from_identity(r);
}

/// The normalizer never produces leading or trailing whitespace, doubled
/// internal whitespace, or any whitespace character other than a plain space.
pub proof fn lemma_normalize_shape(s: Seq<char>)
    ensures
        normalize(s).len() > 0 ==> !is_space(normalize(s)[0]),
        normalize(s).len() > 0 ==> !is_space(normalize(s)[normalize(s).len() - 1]),
        forall|i: int|
            0 <= i < normalize(s).len() && is_space(#[trigger] normalize(s)[i]) ==> normalize(s)[i]
                == ' ',
        forall|i: int|
            0 <= i < normalize(s).len() - 1 ==> !(is_space(#[trigger] normalize(s)[i]) && is_space(
                normalize(s)[i + 1],
            )),
{
    let t = ltrim(s);
    lemma_ltrim_head(s);
    lemma_norm_from_shape(t);
}

/// Trim leading and trailing whitespace, and collapse every internal run of
/// whitespace characters to a single space.
pub fn fix_whitespace(input: String) -> (r: String)
    ensures
        r@ == normalize(input@),
{
    let v = str_chars(input.as_str());
    let n = v.len();

    // Skip the leading whitespace.
    let mut start: usize = 0;
    assert(v@.skip(0) =~= v@);
    while start < n && is_space_char(v[start])
        invariant
            start <= n,
            n == v@.len(),
            ltrim(input@) == ltrim(v@.skip(start as int)),
        decreases n - start,
    {
        assert(v@.skip(start as int).skip(1) =~= v@.skip(start as int + 1));
        start += 1;
    }
    assert(v@.skip(start as int).len() > 0 ==> !is_space(v@.skip(start as int)[0]));
    assert(ltrim(v@.skip(start as int)) == v@.skip(start as int));

    let ghost t = v@.skip(start as int);
    let mut out: Vec<char> = Vec::new();
    let mut i: usize = start;
    while i < n
        invariant
            start <= i <= n,
            n == v@.len(),
            t == v@.skip(start as int),
            norm_from(t) == out@ + norm_from(v@.skip(i as int)),
        decreases n - i,
    {
        let c = v[i];
        assert(v@.skip(i as int)[0] == v@[i as int]);
        assert(v@.skip(i as int).skip(1) =~= v@.skip(i as int + 1));
        if !is_space_char(c) {
            out.push(c);
        } else if i + 1 < n && !is_space_char(v[i + 1]) {
            assert(v@.skip(i as int)[1] == v@[i as int + 1]);
            out.push(' ');
        } else {
            assert(v@.skip(i as int).len() >= 2 ==> is_space(v@.skip(i as int)[1]));
        }
        i += 1;
    }
    assert(v@.skip(n as int) =~= Seq::<char>::empty());
    assert(out@ =~= norm_from(t));
    chars_to_string(&out)
}

/// Whether every character of `s` is whitespace (vacuously true of the empty
/// sequence).
pub open spec fn all_space(s: Seq<char>) -> bool {
    forall|i: int| 0 <= i < s.len() ==> is_space(#[trigger] s[i])
}

/// Whether `s` is acceptable as the content of a text field: every character
/// a letter, a digit or whitespace.
pub open spec fn text_field_ok(s: Seq<char>) -> bool {
    forall|i: int| 0 <= i < s.len() ==> alnum(#[trigger] s[i]) || is_space(s[i])
}

/// The rejection message for an empty or whitespace-only text field.
pub open spec fn msg_empty_input(field: Seq<char>) -> Seq<char> {
    "Please input a valid "@ + field + ":\n\t Please do not input only empty space."@
}

/// The rejection message for a text field with a character that is neither
/// alphanumeric nor whitespace.
pub open spec fn msg_bad_chars(field: Seq<char>) -> Seq<char> {
    "Please input a valid "@ + field + ":\n\t Please use only alphabet and numeric values."@
}

/// What the text-field validator decides for content `s` under the field name
/// `field`: empty or whitespace-only content is rejected first, then content
/// with a character that is neither alphanumeric nor whitespace; everything
/// else passes.
pub open spec fn validate_text_spec(s: Seq<char>, field: Seq<char>) -> Result<(), Seq<char>> {
    if s.len() == 0 || all_space(s) {
        Err(msg_empty_input(field))
    } else if !text_field_ok(s) {
        Err(msg_bad_chars(field))
    } else {
        Ok(())
    }
}

/// The result of a validator, with its message read as a character sequence.
pub open spec fn res_view(r: Result<(), String>) -> Result<(), Seq<char>> {
    match r {
        Ok(_) => Ok(()),
        Err(e) => Err(e@),
    }
}

/// The text-field validator: reject `input` if it is empty or whitespace-only,
/// or if any character is neither alphanumeric nor whitespace; accept it
/// otherwise. `field` names the field in the rejection message.
pub fn validate_alphanumeric_input(input: &str, field: &str) -> (r: Result<(), String>)
    ensures
        res_view(r) == validate_text_spec(input@, field@),
{
    let v = str_chars(input);
    let n = v.len();
    let mut all_ws = true;
    let mut ok = true;
    let mut i: usize = 0;
    while i < n
        invariant
            i <= n,
            n == v@.len(),
            v@ == input@,
            all_ws == (forall|j: int| 0 <= j < i ==> is_space(#[trigger] v@[j])),
            ok == (forall|j: int| 0 <= j < i ==> alnum(#[trigger] v@[j]) || is_space(v@[j])),
        decreases n - i,
    {
        let c = v[i];
        let sp = is_space_char(c);
        let al = alnum_char(c);
        if !sp {
            all_ws = false;
        }
        if !sp && !al {
            ok = false;
        }
        i += 1;
    }
    if n == 0 || all_ws {
        let mut m = String::from_str("Please input a valid ");
        m.append(field);
        m.append(":\n\t Please do not input only empty space.");
        Err(m)
    } else if !ok {
        let mut m = String::from_str("Please input a valid ");
        m.append(field);
        m.append(":\n\t Please use only alphabet and numeric values.");
        Err(m)
    } else {
        Ok(())
    }
}

/// Any string with a character that is neither whitespace nor alphanumeric
/// is rejected by the text-field validator, whatever the field name.
pub proof fn lemma_text_validator_rejects_bad_chars(s: Seq<char>, field: Seq<char>, i: int)
    requires
        0 <= i < s.len(),
        !is_space(s[i]),
        !alnum(s[i]),
    ensures
        validate_text_spec(s, field) is Err,
{
    assert(!all_space(s));
    assert(!text_field_ok(s));
}

/// Any empty or all-whitespace string is rejected by the text-field
/// validator, whatever the field name.
pub proof fn lemma_text_validator_rejects_blank(s: Seq<char>, field: Seq<char>)
    requires
        s.len() == 0 || all_space(s),
    ensures
        validate_text_spec(s, field) is Err,
{
}

/// What validating two fields one after the other decides: the first
/// rejection wins.
pub open spec fn validate_pair_spec(
    a: Seq<char>,
    fa: Seq<char>,
    b: Seq<char>,
    fb: Seq<char>,
) -> Result<(), Seq<char>> {
    if validate_text_spec(a, fa) is Err {
        validate_text_spec(a, fa)
    } else {
        validate_text_spec(b, fb)
    }
}

/// Validate a book's title and author, in that order.
pub fn validate_title_and_author(title: &str, author: &str) -> (r: Result<(), String>)
    ensures
        res_view(r) == validate_pair_spec(title@, "title"@, author@, "author"@),
{
    match validate_alphanumeric_input(title, "title") {
        Ok(_) => {},
        Err(e) => {
            return Err(e);
        },
    }
    validate_alphanumeric_input(author, "author")
}

/// Validate a customer's name and shipping address, in that order.
pub fn validate_name_and_address(name: &str, address: &str) -> (r: Result<(), String>)
    ensures
        res_view(r) == validate_pair_spec(name@, "name"@, address@, "address"@),
{
    match validate_alphanumeric_input(name, "name") {
        Ok(_) => {},
        Err(e) => {
            return Err(e);
        },
    }
    validate_alphanumeric_input(address, "address")
}

} // verus!
