//! Numbers written as text: the grammar `f64::from_str` accepts, and the
//! `AS` number prefixes that sources put before AS numbers.

use vstd::prelude::*;
use crate::text::{
    ascii_lower, chars_of, digit_prefix, digit_run, is_space, is_text, parse_u32_chars, parse_u32_spec, slice_chars,
    to_lower, trim, trim_chars,
};

verus! {

/// `s` without one leading `+` or `-`.
pub open spec fn unsigned(s: Seq<char>) -> Seq<char> {
    if s.len() > 0 && (s[0] == '+' || s[0] == '-') { s.drop_first() } else { s }
}

/// One or more digits, after an optional sign.
pub open spec fn signed_digits(s: Seq<char>) -> bool {
    let d = unsigned(s);
    d.len() > 0 && digit_prefix(d) == d.len()
}

/// An optional exponent: nothing, or `e` and signed digits.
pub open spec fn exp_text(s: Seq<char>) -> bool {
    s.len() == 0 || (s[0] == 'e' && signed_digits(s.skip(1)))
}

/// Digits with an optional fraction (at least one digit in all), then an
/// optional exponent.
pub open spec fn number_text(s: Seq<char>) -> bool {
    let i = digit_prefix(s);
    let r = s.skip(i as int);
    if r.len() > 0 && r[0] == '.' {
        let f = digit_prefix(r.skip(1));
        (i > 0 || f > 0) && exp_text(r.skip(1 + f as int))
    } else {
        i > 0 && exp_text(r)
    }
}

/// Whether `str::parse::<f64>` accepts the text: an optional sign, then
/// `inf`, `infinity`, `nan` or a decimal number, letters in any ASCII case.
pub open spec fn float_text(s: Seq<char>) -> bool {
    let l = ascii_lower(unsigned(s));
    l == "inf"@ || l == "infinity"@ || l == "nan"@ || number_text(l)
}

fn unsigned_from(v: &[char], from: usize) -> (k: usize)
    requires
        from <= v@.len(),
    ensures
        v@.skip(k as int) == unsigned(v@.skip(from as int)),
        from <= k <= v@.len(),
{
    let ghost t = v@.skip(from as int);
    if from < v.len() && (v[from] == '+' || v[from] == '-') {
        assert(t[0] == v@[from as int]);
        assert(v@.skip(from + 1) =~= t.drop_first());
        from + 1
    } else {
        from
    }
}

fn signed_digits_at(v: &[char], from: usize) -> (b: bool)
    requires
        from <= v@.len(),
    ensures
        b == signed_digits(v@.skip(from as int)),
{
    let k = unsigned_from(v, from);
    let n = digit_run(v, k);
    k < v.len() && n == v.len() - k
}

fn exp_at(v: &[char], from: usize) -> (b: bool)
    requires
        from <= v@.len(),
    ensures
        b == exp_text(v@.skip(from as int)),
{
    let ghost t = v@.skip(from as int);
    if from == v.len() {
        return true;
    }
    assert(t[0] == v@[from as int]);
    assert(v@.skip(from + 1) =~= t.skip(1));
    v[from] == 'e' && signed_digits_at(v, from + 1)
}

fn number_at(v: &[char]) -> (b: bool)
    ensures
        b == number_text(v@),
{
    let i = digit_run(v, 0);
    assert(v@.skip(0) =~= v@);
    let ghost r = v@.skip(i as int);
    if i < v.len() && v[i] == '.' {
        assert(r[0] == v@[i as int]);
        assert(v@.skip(i + 1) =~= r.skip(1));
        let f = digit_run(v, i + 1);
        assert(v@.skip(i + 1 + f) =~= r.skip(1 + f as int));
        (i > 0 || f > 0) && exp_at(v, i + 1 + f)
    } else {
        i > 0 && exp_at(v, i)
    }
}

/// Whether `str::parse::<f64>` accepts the chars (see `float_text`).
pub fn is_float_chars(v: &[char]) -> (b: bool)
    ensures
        b == float_text(v@),
{
    let k = unsigned_from(v, 0);
    assert(v@.skip(0) =~= v@);
    let rest = slice_chars(v, k, v.len());
    assert(rest@ =~= v@.skip(k as int));
    let l = to_lower(rest.as_slice());
    let l = l.as_slice();
    is_text(l, "inf") || is_text(l, "infinity") || is_text(l, "nan") || number_at(l)
}

/// A text's decimal value where `f64` parsing accepts it.
pub open spec fn float_of(s: Seq<char>) -> Option<Seq<char>> {
    if float_text(s) { Some(s) } else { None }
}

/// `s` without every leading `AS` (as `str::trim_start_matches("AS")`).
pub open spec fn strip_as(s: Seq<char>) -> Seq<char>
    decreases s.len(),
{
    if s.len() >= 2 && s[0] == 'A' && s[1] == 'S' { strip_as(s.skip(2)) } else { s }
}

/// AS number of a text like `AS13335`: the number after the `AS` prefixes.
pub open spec fn as_number(s: Seq<char>) -> Option<u32> {
    parse_u32_spec(strip_as(s))
}

/// `"AS13335"` → `Some(13335)`.
pub fn asn_num(s: &str) -> (r: Option<u32>)
    ensures
        r == as_number(s@),
{
    let v = chars_of(s);
    let mut k: usize = 0;
    assert(v@.skip(0) =~= v@);
    while k < v.len() && v.len() - k >= 2 && v[k] == 'A' && v[k + 1] == 'S'
        invariant
            k <= v@.len(),
            strip_as(v@) == strip_as(v@.skip(k as int)),
        decreases v.len() - k,
    {
        let ghost t = v@.skip(k as int);
        assert(t[0] == v@[k as int] && t[1] == v@[k + 1]);
        assert(t.skip(2) =~= v@.skip(k + 2));
        k += 2;
    }
    let ghost t = v@.skip(k as int);
    proof {
        if t.len() >= 2 {
            assert(t[0] == v@[k as int] && t[1] == v@[k + 1]);
        }
    }
    let rest = slice_chars(v.as_slice(), k, v.len());
    assert(rest@ =~= t);
    parse_u32_chars(rest.as_slice())
}

/// Length of the leading run of non-whitespace chars.
pub open spec fn word_len(s: Seq<char>) -> nat
    decreases s.len(),
{
    if s.len() > 0 && !is_space(s[0]) { 1 + word_len(s.drop_first()) } else { 0 }
}

/// The first whitespace-separated word of a text, if any.
pub open spec fn first_word(s: Seq<char>) -> Option<Seq<char>> {
    let t = trim(s);
    if t.len() == 0 { None } else { Some(t.take(word_len(t) as int)) }
}

/// Leading number of a text like `"0.0131 (Elevated)"`: its first word,
/// where `f64` parsing accepts it.
pub open spec fn lead_number(s: Seq<char>) -> Option<Seq<char>> {
    match first_word(s) {
        Some(w) => float_of(w),
        None => None,
    }
}

proof fn lemma_word_len(s: Seq<char>, k: int)
    requires
        0 <= k <= s.len(),
        forall|j: int| 0 <= j < k ==> !is_space(#[trigger] s[j]),
        k == s.len() || is_space(s[k]),
    ensures
        word_len(s) == k,
    decreases k,
{
    if k > 0 {
        assert forall|j: int| 0 <= j < k - 1 implies !is_space(#[trigger] s.drop_first()[j]) by {
            assert(s.drop_first()[j] == s[j + 1]);
        }
        if k < s.len() {
            assert(s.drop_first()[k - 1] == s[k]);
        }
        lemma_word_len(s.drop_first(), k - 1);
    }
}

/// The leading number of a text (see `lead_number`).
pub fn lead_f64(s: &str) -> (r: Option<String>)
    ensures
        (match r { Some(x) => Some(x@), None => None }) == lead_number(s@),
{
    let v = chars_of(s);
    let t = trim_chars(v.as_slice());
    if t.len() == 0 {
        return None;
    }
    let mut k: usize = 0;
    while k < t.len() && !crate::text::is_space_char(t[k])
        invariant
            k <= t@.len(),
            forall|j: int| 0 <= j < k ==> !is_space(#[trigger] t@[j]),
        decreases t.len() - k,
    {
        k += 1;
    }
    proof {
        lemma_word_len(t@, k as int);
    }
    let w = slice_chars(t.as_slice(), 0, k);
    assert(w@ =~= t@.take(k as int));
    if is_float_chars(w.as_slice()) {
        Some(crate::text::string_of(w.as_slice()))
    } else {
        None
    }
}

/// The decimal text where `f64` parsing accepts it.
pub fn float_text_of(s: &str) -> (r: Option<String>)
    ensures
        (match r { Some(x) => Some(x@), None => None }) == float_of(s@),
{
    let v = chars_of(s);
    if is_float_chars(v.as_slice()) { Some(crate::text::owned(s)) } else { None }
}

} // verus!
