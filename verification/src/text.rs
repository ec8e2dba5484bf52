//! Character-level text helpers: substring search, ASCII case mapping,
//! whitespace trimming and small decimal parsers, all stated over `Seq<char>`.

use vstd::prelude::*;
use vstd::string::*;

verus! {

// ───────────────────────── specifications ─────────────────────────

/// `n` occurs in `h` starting at position `i`.
pub open spec fn occurs_at(h: Seq<char>, n: Seq<char>, i: int) -> bool {
    0 <= i && i + n.len() <= h.len() && h.subrange(i, i + n.len()) == n
}

/// First position at or after `from` where `n` occurs in `h`.
pub open spec fn find_from(h: Seq<char>, n: Seq<char>, from: int) -> Option<int>
    decreases h.len() + 1 - from,
{
    if from < 0 || from + n.len() > h.len() {
        None
    } else if occurs_at(h, n, from) {
        Some(from)
    } else {
        find_from(h, n, from + 1)
    }
}

/// First position where `n` occurs in `h`.
pub open spec fn find_seq(h: Seq<char>, n: Seq<char>) -> Option<int> {
    find_from(h, n, 0)
}

/// `h` contains `n` as a contiguous piece.
pub open spec fn has_seq(h: Seq<char>, n: Seq<char>) -> bool {
    find_seq(h, n) is Some
}

pub open spec fn is_ascii_alpha(c: char) -> bool {
    ('a' <= c && c <= 'z') || ('A' <= c && c <= 'Z')
}

pub open spec fn is_ascii_digit(c: char) -> bool {
    '0' <= c && c <= '9'
}

pub open spec fn upper_char(c: char) -> char {
    if 'a' <= c && c <= 'z' { ((c as u32) - 32) as char } else { c }
}

pub open spec fn lower_char(c: char) -> char {
    if 'A' <= c && c <= 'Z' { ((c as u32) + 32) as char } else { c }
}

/// ASCII upper-casing: `a`..`z` become `A`..`Z`, every other char stays.
pub open spec fn ascii_upper(s: Seq<char>) -> Seq<char> {
    s.map_values(|c: char| upper_char(c))
}

/// ASCII lower-casing: `A`..`Z` become `a`..`z`, every other char stays.
pub open spec fn ascii_lower(s: Seq<char>) -> Seq<char> {
    s.map_values(|c: char| lower_char(c))
}

/// Two texts are equal when ASCII letters are compared without case.
pub open spec fn eq_ignore_case(a: Seq<char>, b: Seq<char>) -> bool {
    ascii_lower(a) == ascii_lower(b)
}

/// The Unicode `White_Space` property, as `char::is_whitespace` documents it.
pub open spec fn is_space(c: char) -> bool {
    ('\u{9}' <= c && c <= '\u{d}') || c == ' ' || c == '\u{85}' || c == '\u{a0}'
        || c == '\u{1680}' || ('\u{2000}' <= c && c <= '\u{200a}') || c == '\u{2028}'
        || c == '\u{2029}' || c == '\u{202f}' || c == '\u{205f}' || c == '\u{3000}'
}

/// Number of leading whitespace chars.
pub open spec fn lead_spaces(s: Seq<char>) -> nat
    decreases s.len(),
{
    if s.len() > 0 && is_space(s[0]) { 1 + lead_spaces(s.drop_first()) } else { 0 }
}

/// Number of trailing whitespace chars.
pub open spec fn trail_spaces(s: Seq<char>) -> nat
    decreases s.len(),
{
    if s.len() > 0 && is_space(s.last()) { 1 + trail_spaces(s.drop_last()) } else { 0 }
}

/// `s` without leading whitespace.
pub open spec fn trim_start(s: Seq<char>) -> Seq<char> {
    s.skip(lead_spaces(s) as int)
}

/// `s` without leading and trailing whitespace (as `str::trim`).
pub open spec fn trim(s: Seq<char>) -> Seq<char> {
    let t = trim_start(s);
    t.take(t.len() - trail_spaces(t))
}

/// Longest prefix of `s` whose chars all satisfy the ASCII-letter test.
pub open spec fn alpha_prefix(s: Seq<char>) -> nat
    decreases s.len(),
{
    if s.len() > 0 && is_ascii_alpha(s[0]) { 1 + alpha_prefix(s.drop_first()) } else { 0 }
}

/// Longest prefix of `s` made of ASCII digits.
pub open spec fn digit_prefix(s: Seq<char>) -> nat
    decreases s.len(),
{
    if s.len() > 0 && is_ascii_digit(s[0]) { 1 + digit_prefix(s.drop_first()) } else { 0 }
}

/// Number of leading chars that are not ASCII digits.
pub open spec fn non_digit_prefix(s: Seq<char>) -> nat
    decreases s.len(),
{
    if s.len() > 0 && !is_ascii_digit(s[0]) { 1 + non_digit_prefix(s.drop_first()) } else { 0 }
}

pub open spec fn all_digits(s: Seq<char>) -> bool {
    forall|i: int| 0 <= i < s.len() ==> is_ascii_digit(#[trigger] s[i])
}

/// Value of a run of decimal digits.
pub open spec fn digits_value(s: Seq<char>) -> nat
    decreases s.len(),
{
    if s.len() == 0 { 0 } else {
        digits_value(s.drop_last()) * 10 + ((s.last() as u32) - ('0' as u32)) as nat
    }
}

/// What `str::parse::<u32>` gives: an optional `+`, then one or more digits,
/// with a value that fits in 32 bits.
pub open spec fn parse_u32_spec(s: Seq<char>) -> Option<u32> {
    let d = if s.len() > 0 && s[0] == '+' { s.drop_first() } else { s };
    if d.len() > 0 && all_digits(d) && digits_value(d) <= u32::MAX {
        Some(digits_value(d) as u32)
    } else {
        None
    }
}

/// What `str::parse::<i64>` gives on a text made only of digits.
pub open spec fn parse_digits_i64(s: Seq<char>) -> Option<i64> {
    if s.len() > 0 && all_digits(s) && digits_value(s) <= i64::MAX {
        Some(digits_value(s) as i64)
    } else {
        None
    }
}

// ───────────────────────── lemmas ─────────────────────────

proof fn lemma_find_from_found(h: Seq<char>, n: Seq<char>, from: int, i: int)
    requires
        0 <= from <= i,
        occurs_at(h, n, i),
        forall|j: int| from <= j < i ==> !occurs_at(h, n, j),
    ensures
        find_from(h, n, from) == Some(i),
    decreases i - from,
{
    if from < i {
        lemma_find_from_found(h, n, from + 1, i);
    }
}

proof fn lemma_find_from_none(h: Seq<char>, n: Seq<char>, from: int)
    requires
        0 <= from,
        forall|j: int| from <= j && j + n.len() <= h.len() ==> !occurs_at(h, n, j),
    ensures
        find_from(h, n, from) is None,
    decreases h.len() + 1 - from,
{
    if from + n.len() <= h.len() {
        lemma_find_from_none(h, n, from + 1);
    }
}

/// A found position is a real occurrence, and nothing occurs before it.
pub proof fn lemma_find_seq_sound(h: Seq<char>, n: Seq<char>)
    ensures
        find_seq(h, n) matches Some(i) ==> occurs_at(h, n, i)
            && forall|j: int| 0 <= j < i ==> !occurs_at(h, n, j),
        find_seq(h, n) is None ==> forall|j: int| !occurs_at(h, n, j),
{
    lemma_find_from_sound(h, n, 0);
}

proof fn lemma_find_from_sound(h: Seq<char>, n: Seq<char>, from: int)
    requires
        0 <= from,
    ensures
        find_from(h, n, from) matches Some(i) ==> from <= i && occurs_at(h, n, i)
            && forall|j: int| from <= j < i ==> !occurs_at(h, n, j),
        find_from(h, n, from) is None ==> forall|j: int| from <= j ==> !occurs_at(h, n, j),
    decreases h.len() + 1 - from,
{
    if from + n.len() <= h.len() && !occurs_at(h, n, from) {
        lemma_find_from_sound(h, n, from + 1);
    }
}

proof fn lemma_lead_spaces_bound(s: Seq<char>)
    ensures
        lead_spaces(s) <= s.len(),
        forall|i: int| 0 <= i < lead_spaces(s) ==> is_space(#[trigger] s[i]),
        lead_spaces(s) < s.len() ==> !is_space(s[lead_spaces(s) as int]),
    decreases s.len(),
{
    if s.len() > 0 && is_space(s[0]) {
        lemma_lead_spaces_bound(s.drop_first());
        assert forall|i: int| 0 <= i < lead_spaces(s) implies is_space(#[trigger] s[i]) by {
            if i > 0 {
                assert(s[i] == s.drop_first()[i - 1]);
            }
        }
    }
}

proof fn lemma_trail_spaces_bound(s: Seq<char>)
    ensures
        trail_spaces(s) <= s.len(),
        forall|i: int| s.len() - trail_spaces(s) <= i < s.len() ==> is_space(#[trigger] s[i]),
        trail_spaces(s) < s.len() ==> !is_space(s[s.len() - trail_spaces(s) - 1]),
    decreases s.len(),
{
    if s.len() > 0 && is_space(s.last()) {
        lemma_trail_spaces_bound(s.drop_last());
        assert forall|i: int| s.len() - trail_spaces(s) <= i < s.len() implies is_space(#[trigger] s[i]) by {
            if i < s.len() - 1 {
                assert(s[i] == s.drop_last()[i]);
            }
        }
    }
}

proof fn lemma_prefix_run_alpha(s: Seq<char>)
    ensures
        alpha_prefix(s) <= s.len(),
        forall|i: int| 0 <= i < alpha_prefix(s) ==> is_ascii_alpha(#[trigger] s[i]),
        alpha_prefix(s) < s.len() ==> !is_ascii_alpha(s[alpha_prefix(s) as int]),
    decreases s.len(),
{
    if s.len() > 0 && is_ascii_alpha(s[0]) {
        lemma_prefix_run_alpha(s.drop_first());
        assert forall|i: int| 0 <= i < alpha_prefix(s) implies is_ascii_alpha(#[trigger] s[i]) by {
            if i > 0 {
                assert(s[i] == s.drop_first()[i - 1]);
            }
        }
    }
}

pub proof fn lemma_prefix_run_digit(s: Seq<char>)
    ensures
        digit_prefix(s) <= s.len(),
        forall|i: int| 0 <= i < digit_prefix(s) ==> is_ascii_digit(#[trigger] s[i]),
        digit_prefix(s) < s.len() ==> !is_ascii_digit(s[digit_prefix(s) as int]),
    decreases s.len(),
{
    if s.len() > 0 && is_ascii_digit(s[0]) {
        lemma_prefix_run_digit(s.drop_first());
        assert forall|i: int| 0 <= i < digit_prefix(s) implies is_ascii_digit(#[trigger] s[i]) by {
            if i > 0 {
                assert(s[i] == s.drop_first()[i - 1]);
            }
        }
    }
}

proof fn lemma_prefix_run_non_digit(s: Seq<char>)
    ensures
        non_digit_prefix(s) <= s.len(),
        forall|i: int| 0 <= i < non_digit_prefix(s) ==> !is_ascii_digit(#[trigger] s[i]),
        non_digit_prefix(s) < s.len() ==> is_ascii_digit(s[non_digit_prefix(s) as int]),
    decreases s.len(),
{
    if s.len() > 0 && !is_ascii_digit(s[0]) {
        lemma_prefix_run_non_digit(s.drop_first());
        assert forall|i: int| 0 <= i < non_digit_prefix(s) implies !is_ascii_digit(#[trigger] s[i]) by {
            if i > 0 {
                assert(s[i] == s.drop_first()[i - 1]);
            }
        }
    }
}

/// A prefix run is determined by where the first char failing the test sits.
proof fn lemma_run_len_alpha(s: Seq<char>, k: int)
    requires
        0 <= k <= s.len(),
        forall|i: int| 0 <= i < k ==> is_ascii_alpha(#[trigger] s[i]),
        k < s.len() ==> !is_ascii_alpha(s[k]),
    ensures
        alpha_prefix(s) == k,
    decreases k,
{
    if k > 0 {
        assert forall|i: int| 0 <= i < k - 1 implies is_ascii_alpha(#[trigger] s.drop_first()[i]) by {
            assert(s.drop_first()[i] == s[i + 1]);
        }
        if k - 1 < s.len() - 1 {
            assert(s.drop_first()[k - 1] == s[k]);
        }
        lemma_run_len_alpha(s.drop_first(), k - 1);
    }
}

proof fn lemma_run_len_digit(s: Seq<char>, k: int)
    requires
        0 <= k <= s.len(),
        forall|i: int| 0 <= i < k ==> is_ascii_digit(#[trigger] s[i]),
        k < s.len() ==> !is_ascii_digit(s[k]),
    ensures
        digit_prefix(s) == k,
    decreases k,
{
    if k > 0 {
        assert forall|i: int| 0 <= i < k - 1 implies is_ascii_digit(#[trigger] s.drop_first()[i]) by {
            assert(s.drop_first()[i] == s[i + 1]);
        }
        if k - 1 < s.len() - 1 {
            assert(s.drop_first()[k - 1] == s[k]);
        }
        lemma_run_len_digit(s.drop_first(), k - 1);
    }
}

proof fn lemma_run_len_non_digit(s: Seq<char>, k: int)
    requires
        0 <= k <= s.len(),
        forall|i: int| 0 <= i < k ==> !is_ascii_digit(#[trigger] s[i]),
        k < s.len() ==> is_ascii_digit(s[k]),
    ensures
        non_digit_prefix(s) == k,
    decreases k,
{
    if k > 0 {
        assert forall|i: int| 0 <= i < k - 1 implies !is_ascii_digit(#[trigger] s.drop_first()[i]) by {
            assert(s.drop_first()[i] == s[i + 1]);
        }
        if k - 1 < s.len() - 1 {
            assert(s.drop_first()[k - 1] == s[k]);
        }
        lemma_run_len_non_digit(s.drop_first(), k - 1);
    }
}

proof fn lemma_lead_len(s: Seq<char>, k: int)
    requires
        0 <= k <= s.len(),
        forall|i: int| 0 <= i < k ==> is_space(#[trigger] s[i]),
        k < s.len() ==> !is_space(s[k]),
    ensures
        lead_spaces(s) == k,
    decreases k,
{
    if k > 0 {
        assert forall|i: int| 0 <= i < k - 1 implies is_space(#[trigger] s.drop_first()[i]) by {
            assert(s.drop_first()[i] == s[i + 1]);
        }
        if k - 1 < s.len() - 1 {
            assert(s.drop_first()[k - 1] == s[k]);
        }
        lemma_lead_len(s.drop_first(), k - 1);
    }
}

proof fn lemma_trail_len(s: Seq<char>, k: int)
    requires
        0 <= k <= s.len(),
        forall|i: int| s.len() - k <= i < s.len() ==> is_space(#[trigger] s[i]),
        k < s.len() ==> !is_space(s[s.len() - k - 1]),
    ensures
        trail_spaces(s) == k,
    decreases k,
{
    if k > 0 {
        let t = s.drop_last();
        assert forall|i: int| t.len() - (k - 1) <= i < t.len() implies is_space(#[trigger] t[i]) by {
            assert(t[i] == s[i]);
        }
        if k - 1 < t.len() {
            assert(t[t.len() - (k - 1) - 1] == s[s.len() - k - 1]);
        }
        assert(is_space(s.last())) by {
            assert(s.last() == s[s.len() - 1]);
        }
        lemma_trail_len(t, k - 1);
    }
}

// ───────────────────────── executable helpers ─────────────────────────

/// The chars of `s`, in order.
pub fn chars_of(s: &str) -> (v: Vec<char>)
    ensures
        v@ == s@,
{
    let mut v: Vec<char> = Vec::new();
    for c in it: s.chars()
        invariant
            v@ == it.seq().take(it.index() as int),
    {
        v.push(c);
    }
    v
}

/// `String::from_iter` over the given chars.
#[verifier::external_body]
pub(crate) fn string_of(cs: &[char]) -> (s: String)
    ensures
        s@ == cs@,
{
    String::from_iter(cs.iter())
}

/// An owned copy of a text.
pub fn owned(s: &str) -> (r: String)
    ensures
        r@ == s@,
{
    s.to_owned()
}

/// The chars of `v` from `from` up to (not including) `to`.
pub fn slice_chars(v: &[char], from: usize, to: usize) -> (r: Vec<char>)
    requires
        from <= to <= v@.len(),
    ensures
        r@ == v@.subrange(from as int, to as int),
{
    let mut r: Vec<char> = Vec::new();
    let mut i = from;
    while i < to
        invariant
            from <= i <= to <= v@.len(),
            r@ == v@.subrange(from as int, i as int),
        decreases to - i,
    {
        r.push(v[i]);
        i += 1;
        assert(r@ =~= v@.subrange(from as int, i as int));
    }
    r
}

/// Whether `n` occurs in `h` at position `i`.
pub fn matches_at(h: &[char], n: &[char], i: usize) -> (b: bool)
    ensures
        b == occurs_at(h@, n@, i as int),
{
    if i > h.len() || n.len() > h.len() - i {
        return false;
    }
    let mut k: usize = 0;
    while k < n.len()
        invariant
            i + n.len() <= h.len(),
            i + n@.len() <= h@.len(),
            k <= n@.len(),
            forall|j: int| 0 <= j < k ==> h@[i + j] == n@[j],
        decreases n.len() - k,
    {
        assert(i + k < h@.len());
        if h[i + k] != n[k] {
            assert(h@.subrange(i as int, i + n@.len())[k as int] != n@[k as int]);
            return false;
        }
        k += 1;
    }
    assert(h@.subrange(i as int, i + n@.len()) =~= n@);
    true
}

/// First position of `n` in `h` (in chars).
pub fn find_chars(h: &[char], n: &[char]) -> (r: Option<usize>)
    ensures
        r matches Some(i) ==> find_seq(h@, n@) == Some(i as int),
        r is None ==> find_seq(h@, n@) is None,
{
    if n.len() > h.len() {
        proof { lemma_find_from_none(h@, n@, 0); }
        return None;
    }
    let last = h.len() - n.len();
    let mut i: usize = 0;
    loop
        invariant
            last == h@.len() - n@.len(),
            i <= last,
            forall|j: int| 0 <= j < i ==> !occurs_at(h@, n@, j),
        ensures
            forall|j: int| 0 <= j <= last ==> !occurs_at(h@, n@, j),
        decreases last - i,
    {
        if matches_at(h, n, i) {
            proof { lemma_find_from_found(h@, n@, 0, i as int); }
            return Some(i);
        }
        if i == last {
            assert(forall|j: int| 0 <= j <= i ==> !occurs_at(h@, n@, j));
            break;
        }
        i += 1;
    }
    proof { lemma_find_from_none(h@, n@, 0); }
    None
}

/// Whether `h` contains the text `lit`.
pub fn has_text(h: &[char], lit: &str) -> (b: bool)
    ensures
        b == has_seq(h@, lit@),
{
    let n = chars_of(lit);
    find_chars(h, n.as_slice()).is_some()
}

/// Position of the text `lit` in `h`.
pub fn find_text(h: &[char], lit: &str) -> (r: Option<usize>)
    ensures
        r matches Some(i) ==> find_seq(h@, lit@) == Some(i as int),
        r is None ==> find_seq(h@, lit@) is None,
{
    let n = chars_of(lit);
    find_chars(h, n.as_slice())
}

pub fn upper_of(c: char) -> (r: char)
    ensures
        r == upper_char(c),
{
    if 'a' <= c && c <= 'z' {
        let b: u8 = c as u8;
        (b - 32) as char
    } else {
        c
    }
}

pub fn lower_of(c: char) -> (r: char)
    ensures
        r == lower_char(c),
{
    if 'A' <= c && c <= 'Z' {
        let b: u8 = c as u8;
        (b + 32) as char
    } else {
        c
    }
}

/// ASCII upper-case copy.
pub fn to_upper(v: &[char]) -> (r: Vec<char>)
    ensures
        r@ == ascii_upper(v@),
{
    let mut r: Vec<char> = Vec::new();
    let mut i: usize = 0;
    while i < v.len()
        invariant
            i <= v@.len(),
            r@ == ascii_upper(v@.take(i as int)),
        decreases v.len() - i,
    {
        r.push(upper_of(v[i]));
        i += 1;
        assert(r@ =~= ascii_upper(v@.take(i as int)));
    }
    assert(v@.take(v@.len() as int) =~= v@);
    r
}

/// ASCII lower-case copy.
pub fn to_lower(v: &[char]) -> (r: Vec<char>)
    ensures
        r@ == ascii_lower(v@),
{
    let mut r: Vec<char> = Vec::new();
    let mut i: usize = 0;
    while i < v.len()
        invariant
            i <= v@.len(),
            r@ == ascii_lower(v@.take(i as int)),
        decreases v.len() - i,
    {
        r.push(lower_of(v[i]));
        i += 1;
        assert(r@ =~= ascii_lower(v@.take(i as int)));
    }
    assert(v@.take(v@.len() as int) =~= v@);
    r
}

/// Equality of two char sequences.
pub fn same_chars(a: &[char], b: &[char]) -> (r: bool)
    ensures
        r == (a@ == b@),
{
    if a.len() != b.len() {
        return false;
    }
    let mut i: usize = 0;
    while i < a.len()
        invariant
            a@.len() == b@.len(),
            i <= a@.len(),
            forall|j: int| 0 <= j < i ==> a@[j] == b@[j],
        decreases a.len() - i,
    {
        if a[i] != b[i] {
            return false;
        }
        i += 1;
    }
    assert(a@ =~= b@);
    true
}

/// Whether the chars of `a` spell the text `lit`.
pub fn is_text(a: &[char], lit: &str) -> (r: bool)
    ensures
        r == (a@ == lit@),
{
    let b = chars_of(lit);
    same_chars(a, b.as_slice())
}

/// Case-insensitive (ASCII) comparison of two texts.
pub fn eq_ignore_ascii_case(a: &[char], b: &[char]) -> (r: bool)
    ensures
        r == eq_ignore_case(a@, b@),
{
    let la = to_lower(a);
    let lb = to_lower(b);
    same_chars(la.as_slice(), lb.as_slice())
}

pub fn is_space_char(c: char) -> (b: bool)
    ensures
        b == is_space(c),
{
    ('\u{9}' <= c && c <= '\u{d}') || c == ' ' || c == '\u{85}' || c == '\u{a0}'
        || c == '\u{1680}' || ('\u{2000}' <= c && c <= '\u{200a}') || c == '\u{2028}'
        || c == '\u{2029}' || c == '\u{202f}' || c == '\u{205f}' || c == '\u{3000}'
}

/// `v` without leading and trailing whitespace.
pub fn trim_chars(v: &[char]) -> (r: Vec<char>)
    ensures
        r@ == trim(v@),
{
    let mut s: usize = 0;
    while s < v.len() && is_space_char(v[s])
        invariant
            s <= v@.len(),
            forall|i: int| 0 <= i < s ==> is_space(#[trigger] v@[i]),
        decreases v.len() - s,
    {
        s += 1;
    }
    proof { lemma_lead_len(v@, s as int); }
    let mut e: usize = v.len();
    while e > s && is_space_char(v[e - 1])
        invariant
            s <= e <= v@.len(),
            forall|i: int| e <= i < v@.len() ==> is_space(#[trigger] v@[i]),
        decreases e,
    {
        e -= 1;
    }
    proof {
        let t = v@.skip(s as int);
        assert forall|i: int| t.len() - (v@.len() - e) <= i < t.len() implies is_space(#[trigger] t[i]) by {
            assert(t[i] == v@[i + s]);
        }
        if v@.len() - e < t.len() {
            assert(t[t.len() - (v@.len() - e) - 1] == v@[e - 1]);
        }
        lemma_trail_len(t, v@.len() - e);
        assert(v@.subrange(s as int, e as int) =~= t.take(t.len() - (v@.len() - e)));
    }
    slice_chars(v, s, e)
}

/// Length of the run of ASCII letters starting at `from`.
pub fn alpha_run(v: &[char], from: usize) -> (n: usize)
    requires
        from <= v@.len(),
    ensures
        n == alpha_prefix(v@.skip(from as int)),
        from + n <= v@.len(),
{
    let mut k = from;
    while k < v.len() && (('a' <= v[k] && v[k] <= 'z') || ('A' <= v[k] && v[k] <= 'Z'))
        invariant
            from <= k <= v@.len(),
            forall|i: int| from <= i < k ==> is_ascii_alpha(#[trigger] v@[i]),
        decreases v.len() - k,
    {
        k += 1;
    }
    proof {
        let t = v@.skip(from as int);
        assert forall|i: int| 0 <= i < k - from implies is_ascii_alpha(#[trigger] t[i]) by {
            assert(t[i] == v@[i + from]);
        }
        if k < v@.len() {
            assert(t[k - from] == v@[k as int]);
        }
        lemma_run_len_alpha(t, k - from);
    }
    k - from
}

/// Length of the run of ASCII digits starting at `from`.
pub fn digit_run(v: &[char], from: usize) -> (n: usize)
    requires
        from <= v@.len(),
    ensures
        n == digit_prefix(v@.skip(from as int)),
        from + n <= v@.len(),
{
    let mut k = from;
    while k < v.len() && '0' <= v[k] && v[k] <= '9'
        invariant
            from <= k <= v@.len(),
            forall|i: int| from <= i < k ==> is_ascii_digit(#[trigger] v@[i]),
        decreases v.len() - k,
    {
        k += 1;
    }
    proof {
        let t = v@.skip(from as int);
        assert forall|i: int| 0 <= i < k - from implies is_ascii_digit(#[trigger] t[i]) by {
            assert(t[i] == v@[i + from]);
        }
        if k < v@.len() {
            assert(t[k - from] == v@[k as int]);
        }
        lemma_run_len_digit(t, k - from);
    }
    k - from
}

/// Length of the run of non-digit chars starting at `from`.
pub fn non_digit_run(v: &[char], from: usize) -> (n: usize)
    requires
        from <= v@.len(),
    ensures
        n == non_digit_prefix(v@.skip(from as int)),
        from + n <= v@.len(),
{
    let mut k = from;
    while k < v.len() && !('0' <= v[k] && v[k] <= '9')
        invariant
            from <= k <= v@.len(),
            forall|i: int| from <= i < k ==> !is_ascii_digit(#[trigger] v@[i]),
        decreases v.len() - k,
    {
        k += 1;
    }
    proof {
        let t = v@.skip(from as int);
        assert forall|i: int| 0 <= i < k - from implies !is_ascii_digit(#[trigger] t[i]) by {
            assert(t[i] == v@[i + from]);
        }
        if k < v@.len() {
            assert(t[k - from] == v@[k as int]);
        }
        lemma_run_len_non_digit(t, k - from);
    }
    k - from
}

proof fn lemma_digits_value_step(s: Seq<char>, i: int)
    requires
        0 <= i < s.len(),
    ensures
        digits_value(s.take(i + 1)) == digits_value(s.take(i)) * 10 + ((s[i] as u32) - ('0' as u32)) as nat,
{
    assert(s.take(i + 1).drop_last() =~= s.take(i));
}

proof fn lemma_digits_value_mono(s: Seq<char>, i: int, j: int)
    requires
        0 <= i <= j <= s.len(),
        all_digits(s),
    ensures
        digits_value(s.take(i)) <= digits_value(s.take(j)),
    decreases j - i,
{
    if i < j {
        lemma_digits_value_mono(s, i, j - 1);
        lemma_digits_value_step(s, j - 1);
        assert(is_ascii_digit(s[j - 1]));
    }
}

/// Decimal value of the digit run `v[from..to]`, or `None` past `limit`.
pub fn digits_upto(v: &[char], from: usize, to: usize, limit: u64) -> (r: Option<u64>)
    requires
        from <= to <= v@.len(),
        limit >= 9,
        all_digits(v@.subrange(from as int, to as int)),
    ensures
        r matches Some(x) ==> x == digits_value(v@.subrange(from as int, to as int))
            && x <= limit,
        r is None ==> digits_value(v@.subrange(from as int, to as int)) > limit,
{
    let ghost d = v@.subrange(from as int, to as int);
    let mut acc: u64 = 0;
    let mut i = from;
    while i < to
        invariant
            from <= i <= to <= v@.len(),
            d == v@.subrange(from as int, to as int),
            all_digits(d),
            acc == digits_value(d.take(i - from)),
            acc <= limit,
            limit >= 9,
        decreases to - i,
    {
        let c = v[i];
        assert(d[i - from] == c);
        assert(is_ascii_digit(d[i - from]));
        assert('0' as u32 <= c as u32 <= '9' as u32);
        let dv: u64 = ((c as u32) - ('0' as u32)) as u64;
        assert(dv <= 9);
        proof { lemma_digits_value_step(d, i - from); }
        if acc > (limit - dv) / 10 {
            proof {
                assert(acc * 10 + dv > limit) by (nonlinear_arith)
                    requires acc > (limit - dv) / 10, dv <= 9, dv <= limit;
                lemma_digits_value_mono(d, i - from + 1, d.len() as int);
                assert(d.take(d.len() as int) =~= d);
            }
            return None;
        }
        assert(acc * 10 + dv <= limit) by (nonlinear_arith)
            requires acc <= (limit - dv) / 10, dv <= limit;
        acc = acc * 10 + dv;
        i += 1;
    }
    assert(d.take(to - from) =~= d);
    Some(acc)
}

/// `str::parse::<u32>` on the chars of `v`.
pub fn parse_u32_chars(v: &[char]) -> (r: Option<u32>)
    ensures
        r == parse_u32_spec(v@),
{
    let start: usize = if v.len() > 0 && v[0] == '+' { 1 } else { 0 };
    let ghost d = if v@.len() > 0 && v@[0] == '+' { v@.drop_first() } else { v@ };
    assert(d =~= v@.subrange(start as int, v@.len() as int));
    if start == v.len() {
        return None;
    }
    let n = digit_run(v, start);
    if start + n != v.len() {
        proof {
            lemma_prefix_run_digit(d);
            assert(d[n as int] == v@[start + n]);
        }
        return None;
    }
    proof {
        lemma_prefix_run_digit(d);
    }
    match digits_upto(v, start, v.len(), 4294967295u64) {
        Some(x) => Some(x as u32),
        None => None,
    }
}


/// The decimal digit char for `d < 10`.
pub open spec fn digit_char(d: nat) -> char {
    ((('0' as u32) + d) as u32) as char
}

/// Decimal notation of `n`, as `Display` prints an unsigned integer.
pub open spec fn dec_text(n: nat) -> Seq<char>
    decreases n,
{
    if n < 10 {
        seq![digit_char(n)]
    } else {
        dec_text(n / 10).push(digit_char(n % 10))
    }
}

fn push_dec(n: u64, out: &mut Vec<char>)
    ensures
        final(out)@ == old(out)@ + dec_text(n as nat),
    decreases n,
{
    if n >= 10 {
        push_dec(n / 10, out);
    }
    let d: u8 = (n % 10) as u8;
    let c = (d + 48u8) as char;
    assert(c == digit_char((n % 10) as nat));
    out.push(c);
    proof {
        if n >= 10 {
            assert(dec_text(n as nat) == dec_text((n / 10) as nat).push(digit_char((n % 10) as nat)));
        }
    }
    assert(out@ =~= old(out)@ + dec_text(n as nat));
}

/// Decimal notation of an unsigned integer.
pub fn uint_text(n: u64) -> (s: String)
    ensures
        s@ == dec_text(n as nat),
{
    let mut v: Vec<char> = Vec::new();
    push_dec(n, &mut v);
    assert(v@ =~= dec_text(n as nat));
    string_of(v.as_slice())
}

/// Decimal notation of a signed integer (a `-` before negative values).
pub open spec fn int_text(n: int) -> Seq<char> {
    if n < 0 { seq!['-'] + dec_text((-n) as nat) } else { dec_text(n as nat) }
}

pub fn sint_text(n: i64) -> (s: String)
    ensures
        s@ == int_text(n as int),
{
    let mut v: Vec<char> = Vec::new();
    if n < 0 {
        v.push('-');
        let m: u64 = if n == i64::MIN { 9223372036854775808u64 } else { (-n) as u64 };
        push_dec(m, &mut v);
    } else {
        push_dec(n as u64, &mut v);
    }
    assert(v@ =~= int_text(n as int));
    string_of(v.as_slice())
}

/// Appends `s` to `out`.
pub fn push_text(out: &mut String, s: &str)
    ensures
        final(out)@ == old(out)@ + s@,
{
    out.append(s);
}

/// The pieces of a text between occurrences of `sep` (as `str::split(sep)`
/// gives them).
pub open spec fn split_on(s: Seq<char>, sep: char) -> Seq<Seq<char>>
    decreases s.len(),
{
    if s.len() == 0 {
        seq![Seq::empty()]
    } else {
        let p = split_on(s.drop_last(), sep);
        if s.last() == sep {
            p.push(Seq::empty())
        } else {
            p.update(p.len() - 1, p.last().push(s.last()))
        }
    }
}

/// The pieces of a text between commas.
pub open spec fn split_commas(s: Seq<char>) -> Seq<Seq<char>> {
    split_on(s, ',')
}

pub proof fn lemma_split_nonempty(s: Seq<char>, sep: char)
    ensures
        split_on(s, sep).len() >= 1,
    decreases s.len(),
{
    if s.len() > 0 {
        lemma_split_nonempty(s.drop_last(), sep);
    }
}

/// Splitting two texts joined by the separator gives the pieces of the
/// first followed by the pieces of the second.
pub proof fn lemma_split_join(s: Seq<char>, t: Seq<char>, sep: char)
    ensures
        split_on(s.push(sep) + t, sep) == split_on(s, sep) + split_on(t, sep),
    decreases t.len(),
{
    let w = s.push(sep) + t;
    if t.len() == 0 {
        assert(w =~= s.push(sep));
        assert(w.drop_last() =~= s);
        assert(split_on(t, sep) == seq![Seq::<char>::empty()]);
        assert(split_on(s, sep).push(Seq::<char>::empty()) =~= split_on(s, sep) + seq![Seq::<char>::empty()]);
    } else {
        let u = t.drop_last();
        lemma_split_join(s, u, sep);
        lemma_split_nonempty(u, sep);
        assert(w.drop_last() =~= s.push(sep) + u);
        assert(w.last() == t.last());
        let x = split_on(s, sep);
        let y = split_on(u, sep);
        if t.last() == sep {
            assert((x + y).push(Seq::<char>::empty()) =~= x + y.push(Seq::<char>::empty()));
        } else {
            assert((x + y).update((x + y).len() - 1, (x + y).last().push(t.last()))
                =~= x + y.update(y.len() - 1, y.last().push(t.last())));
        }
    }
}

/// No char of `s` is the separator.
pub open spec fn sep_free(s: Seq<char>, sep: char) -> bool {
    forall|i: int| 0 <= i < s.len() ==> s[i] != sep
}

/// Every char of `s` is whitespace.
pub open spec fn all_space(s: Seq<char>) -> bool {
    forall|i: int| 0 <= i < s.len() ==> is_space(#[trigger] s[i])
}

/// A separator-free tail lengthens the last piece only.
pub proof fn lemma_split_suffix(x: Seq<char>, q: Seq<char>, sep: char)
    requires
        sep_free(q, sep),
    ensures
        split_on(x + q, sep) == split_on(x, sep).update(split_on(x, sep).len() - 1, split_on(x, sep).last() + q),
        split_on(x, sep).len() >= 1,
    decreases q.len(),
{
    lemma_split_nonempty(x, sep);
    let p = split_on(x, sep);
    if q.len() == 0 {
        assert(x + q =~= x);
        assert(p.last() + q =~= p.last());
        assert(p.update(p.len() - 1, p.last()) =~= p);
    } else {
        let q0 = q.drop_last();
        lemma_split_suffix(x, q0, sep);
        assert((x + q).drop_last() =~= x + q0);
        assert((x + q).last() == q.last());
        assert(q.last() != sep);
        let u = p.update(p.len() - 1, p.last() + q0);
        assert(u.last() == p.last() + q0);
        assert((p.last() + q0).push(q.last()) =~= p.last() + q);
        assert(u.update(u.len() - 1, u.last().push(q.last())) =~= p.update(p.len() - 1, p.last() + q));
    }
}

/// A separator-free head lengthens the first piece only.
proof fn lemma_split_prefix(pre: Seq<char>, x: Seq<char>, sep: char)
    requires
        sep_free(pre, sep),
    ensures
        split_on(pre + x, sep) == split_on(x, sep).update(0, pre + split_on(x, sep)[0]),
    decreases x.len(),
{
    lemma_split_nonempty(x, sep);
    if x.len() == 0 {
        lemma_split_suffix(Seq::empty(), pre, sep);
        assert(Seq::<char>::empty() + pre =~= pre);
        assert(pre + x =~= pre);
        assert(split_on(Seq::<char>::empty(), sep) == seq![Seq::<char>::empty()]);
        assert(seq![Seq::<char>::empty()].update(0, pre + Seq::<char>::empty()) =~= seq![pre]);
    } else {
        let x0 = x.drop_last();
        lemma_split_prefix(pre, x0, sep);
        lemma_split_nonempty(x0, sep);
        assert((pre + x).drop_last() =~= pre + x0);
        assert((pre + x).last() == x.last());
        let y = split_on(x0, sep);
        let z = y.update(0, pre + y[0]);
        if x.last() == sep {
            assert(z.push(Seq::<char>::empty()) =~= y.push(Seq::<char>::empty()).update(0, pre + y.push(Seq::<char>::empty())[0]));
        } else {
            if y.len() == 1 {
                assert((pre + y[0]).push(x.last()) =~= pre + y[0].push(x.last()));
            }
            assert(z.update(z.len() - 1, z.last().push(x.last()))
                =~= y.update(y.len() - 1, y.last().push(x.last())).update(0, pre + y.update(y.len() - 1, y.last().push(x.last()))[0]));
        }
    }
}

proof fn lemma_lead_prefix(p: Seq<char>, y: Seq<char>)
    requires
        all_space(p),
    ensures
        lead_spaces(p + y) == p.len() + lead_spaces(y),
    decreases p.len(),
{
    if p.len() == 0 {
        assert(p + y =~= y);
    } else {
        assert((p + y).drop_first() =~= p.drop_first() + y);
        assert((p + y)[0] == p[0]);
        lemma_lead_prefix(p.drop_first(), y);
    }
}

proof fn lemma_trail_suffix(z: Seq<char>, q: Seq<char>)
    requires
        all_space(q),
    ensures
        trail_spaces(z + q) == q.len() + trail_spaces(z),
    decreases q.len(),
{
    if q.len() == 0 {
        assert(z + q =~= z);
    } else {
        assert((z + q).drop_last() =~= z + q.drop_last());
        assert((z + q).last() == q.last());
        lemma_trail_suffix(z, q.drop_last());
    }
}

proof fn lemma_lead_bounds(s: Seq<char>)
    ensures
        lead_spaces(s) <= s.len(),
        all_space(s.take(lead_spaces(s) as int)),
        lead_spaces(s) < s.len() ==> !is_space(s[lead_spaces(s) as int]),
    decreases s.len(),
{
    if s.len() > 0 && is_space(s[0]) {
        lemma_lead_bounds(s.drop_first());
        let k: int = lead_spaces(s.drop_first()) as int;
        assert forall|i: int| 0 <= i < s.take(k + 1).len() implies is_space(#[trigger] s.take(k + 1)[i]) by {
            if i > 0 {
                assert(s.take(k + 1)[i] == s.drop_first().take(k)[i - 1]);
            }
        }
        if k + 1 < s.len() {
            assert(s[k + 1] == s.drop_first()[k]);
        }
    }
}

proof fn lemma_trail_bounds(s: Seq<char>)
    ensures
        trail_spaces(s) <= s.len(),
        all_space(s.skip(s.len() - trail_spaces(s))),
        trail_spaces(s) < s.len() ==> !is_space(s[s.len() - trail_spaces(s) - 1]),
    decreases s.len(),
{
    if s.len() > 0 && is_space(s.last()) {
        lemma_trail_bounds(s.drop_last());
        let k: int = trail_spaces(s.drop_last()) as int;
        let d = s.drop_last();
        assert forall|i: int| 0 <= i < s.skip(s.len() - (k + 1)).len() implies is_space(#[trigger] s.skip(s.len() - (k + 1))[i]) by {
            if i < k {
                assert(s.skip(s.len() - (k + 1))[i] == d.skip(d.len() - k)[i]);
            }
        }
        if k + 1 < s.len() {
            assert(s[s.len() - (k + 1) - 1] == d[d.len() - k - 1]);
        }
    } else {
        assert(s.skip(s.len() as int).len() == 0);
    }
}

/// Leading whitespace does not change the trimmed text.
proof fn lemma_trim_prefix(p: Seq<char>, y: Seq<char>)
    requires
        all_space(p),
    ensures
        trim(p + y) == trim(y),
{
    lemma_lead_prefix(p, y);
    lemma_lead_bounds(y);
    assert(trim_start(p + y) =~= trim_start(y));
}

proof fn lemma_lead_extend(y: Seq<char>, q: Seq<char>)
    requires
        lead_spaces(y) < y.len(),
    ensures
        lead_spaces(y + q) == lead_spaces(y),
    decreases y.len(),
{
    assert((y + q)[0] == y[0]);
    if is_space(y[0]) {
        assert((y + q).drop_first() =~= y.drop_first() + q);
        lemma_lead_extend(y.drop_first(), q);
    }
}

/// Trailing whitespace does not change the trimmed text.
proof fn lemma_trim_suffix(y: Seq<char>, q: Seq<char>)
    requires
        all_space(q),
    ensures
        trim(y + q) == trim(y),
{
    lemma_lead_bounds(y);
    if lead_spaces(y) == y.len() {
        assert(y.take(lead_spaces(y) as int) =~= y);
        lemma_lead_prefix(y, q);
        lemma_lead_prefix(q, Seq::empty());
        assert(q + Seq::<char>::empty() =~= q);
        assert(trim_start(y + q).len() == 0);
        assert(trim_start(y).len() == 0);
        assert(trim(y + q) =~= trim(y));
    } else {
        lemma_lead_extend(y, q);
        let z = trim_start(y);
        assert(trim_start(y + q) =~= z + q);
        lemma_trail_suffix(z, q);
        lemma_trail_bounds(z);
        assert((z + q).take(z.len() + q.len() - trail_spaces(z + q)) =~= z.take(z.len() - trail_spaces(z)));
    }
}

/// A text is its leading whitespace, its trimmed text and its trailing
/// whitespace.
pub proof fn lemma_trim_parts(s: Seq<char>)
    ensures
        all_space(s.take(lead_spaces(s) as int)),
        all_space(trim_start(s).skip(trim_start(s).len() - trail_spaces(trim_start(s)))),
        s =~= s.take(lead_spaces(s) as int) + trim(s) + trim_start(s).skip(trim_start(s).len() - trail_spaces(trim_start(s))),
{
    lemma_lead_bounds(s);
    let t = trim_start(s);
    lemma_trail_bounds(t);
}

/// The pieces of a text and of its trimmed text agree once each piece is
/// trimmed.
pub proof fn lemma_split_trim(s: Seq<char>, sep: char)
    requires
        !is_space(sep),
    ensures
        split_on(trim(s), sep).len() == split_on(s, sep).len(),
        forall|i: int| 0 <= i < split_on(s, sep).len() ==> trim(#[trigger] split_on(s, sep)[i]) == trim(split_on(trim(s), sep)[i]),
{
    lemma_trim_parts(s);
    let pre = s.take(lead_spaces(s) as int);
    let t = trim_start(s);
    let q = t.skip(t.len() - trail_spaces(t));
    let core = trim(s);
    assert(sep_free(pre, sep));
    assert(sep_free(q, sep));
    lemma_split_suffix(core, q, sep);
    lemma_split_prefix(pre, core + q, sep);
    assert(s =~= pre + (core + q));
    let c = split_on(core, sep);
    let cq = split_on(core + q, sep);
    assert forall|i: int| 0 <= i < split_on(s, sep).len() implies trim(#[trigger] split_on(s, sep)[i]) == trim(split_on(core, sep)[i]) by {
        if i == 0 {
            lemma_trim_prefix(pre, cq[0]);
            if c.len() == 1 {
                lemma_trim_suffix(c[0], q);
            }
        } else if i == c.len() - 1 {
            lemma_trim_suffix(c[i], q);
        }
    }
}

/// The pieces of `s` between occurrences of `sep`.
pub fn split_on_exec(s: &[char], sep: char) -> (r: Vec<Vec<char>>)
    ensures
        r@.map_values(|p: Vec<char>| p@) == split_on(s@, sep),
{
    let mut parts: Vec<Vec<char>> = Vec::new();
    let mut cur: Vec<char> = Vec::new();
    let mut i: usize = 0;
    while i < s.len()
        invariant
            i <= s@.len(),
            parts@.map_values(|p: Vec<char>| p@).push(cur@) == split_on(s@.take(i as int), sep),
        decreases s.len() - i,
    {
        assert(s@.take(i + 1).drop_last() =~= s@.take(i as int));
        let ghost prev = parts@.map_values(|p: Vec<char>| p@).push(cur@);
        if s[i] == sep {
            let done = cur;
            let ghost old_parts = parts@;
            parts.push(done);
            cur = Vec::new();
            assert(parts@.map_values(|p: Vec<char>| p@) =~= old_parts.map_values(|p: Vec<char>| p@).push(done@));
            assert(parts@.map_values(|p: Vec<char>| p@).push(cur@) =~= prev.push(Seq::empty()));
        } else {
            let ghost old_cur = cur@;
            cur.push(s[i]);
            assert(parts@.map_values(|p: Vec<char>| p@).push(cur@) =~= prev.update(prev.len() - 1, old_cur.push(s@[i as int])));
        }
        i += 1;
    }
    assert(s@.take(s@.len() as int) =~= s@);
    let ghost old_parts = parts@;
    let last = cur;
    parts.push(last);
    assert(parts@.map_values(|p: Vec<char>| p@) =~= old_parts.map_values(|p: Vec<char>| p@).push(last@));
    parts
}

/// The comma-separated pieces of `s`.
pub fn split_exec(s: &[char]) -> (r: Vec<Vec<char>>)
    ensures
        r@.map_values(|p: Vec<char>| p@) == split_commas(s@),
{
    split_on_exec(s, ',')
}

} // verus!
