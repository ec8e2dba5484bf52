//! Helpers shared by the unlock probes: region-code mapping, cookie lookup,
//! and plain substring extraction.

use vstd::prelude::*;
use crate::text::{
    chars_of, find_chars, find_seq, find_text, is_text, slice_chars, string_of, trim,
    trim_chars,
};

verus! {

/// What `str::to_uppercase` returns (Unicode upper-case mapping).
pub uninterp spec fn unicode_upper(s: Seq<char>) -> Seq<char>;

/// What `str::to_lowercase` returns (Unicode lower-case mapping).
pub uninterp spec fn unicode_lower(s: Seq<char>) -> Seq<char>;

/// Every char is ASCII.
pub open spec fn all_ascii(s: Seq<char>) -> bool {
    forall|i: int| 0 <= i < s.len() ==> (s[i] as u32) < 128
}

/// `str::to_uppercase`: the result is the Unicode upper-case mapping of the
/// text; on ASCII text that maps `a`..`z` to `A`..`Z` and keeps the rest.
#[verifier::external_body]
pub(crate) fn upper_text(s: &str) -> (r: String)
    ensures
        r@ == unicode_upper(s@),
        all_ascii(s@) ==> r@ == crate::text::ascii_upper(s@),
{
    s.to_uppercase()
}

/// `str::to_lowercase`: the result is the Unicode lower-case mapping of the
/// text; on ASCII text that maps `A`..`Z` to `a`..`z` and keeps the rest.
#[verifier::external_body]
pub(crate) fn lower_text(s: &str) -> (r: String)
    ensures
        r@ == unicode_lower(s@),
        all_ascii(s@) ==> r@ == crate::text::ascii_lower(s@),
{
    s.to_lowercase()
}

/// ISO 3166-1 alpha-3 codes that the probes meet, with their alpha-2 forms.
pub open spec fn alpha3_table() -> Seq<(Seq<char>, Seq<char>)> {
    seq![
        ("USA"@, "US"@), ("JPN"@, "JP"@), ("GBR"@, "GB"@), ("DEU"@, "DE"@), ("FRA"@, "FR"@),
        ("HKG"@, "HK"@), ("TWN"@, "TW"@), ("KOR"@, "KR"@), ("SGP"@, "SG"@), ("CHN"@, "CN"@),
        ("CAN"@, "CA"@), ("AUS"@, "AU"@), ("NLD"@, "NL"@), ("IND"@, "IN"@), ("BRA"@, "BR"@),
        ("RUS"@, "RU"@), ("ITA"@, "IT"@), ("ESP"@, "ES"@), ("THA"@, "TH"@), ("MYS"@, "MY"@),
        ("IDN"@, "ID"@), ("PHL"@, "PH"@), ("VNM"@, "VN"@), ("TUR"@, "TR"@), ("MEX"@, "MX"@)
    ]
}

/// The alpha-2 form of an upper-cased code: the first table entry from
/// position `from` on whose alpha-3 code it is, or the code itself.
pub open spec fn alpha2_from(c: Seq<char>, from: int) -> Seq<char>
    decreases alpha3_table().len() - from,
{
    if from < 0 || from >= alpha3_table().len() {
        c
    } else if alpha3_table()[from].0 == c {
        alpha3_table()[from].1
    } else {
        alpha2_from(c, from + 1)
    }
}

pub open spec fn alpha2_of(c: Seq<char>) -> Seq<char> {
    alpha2_from(c, 0)
}

proof fn lemma_alpha2_skip(c: Seq<char>, from: int, i: int)
    requires
        0 <= from <= i <= alpha3_table().len(),
        forall|k: int| from <= k < i ==> (#[trigger] alpha3_table()[k]).0 != c,
    ensures
        alpha2_from(c, from) == alpha2_from(c, i),
    decreases i - from,
{
    if from < i {
        lemma_alpha2_skip(c, from + 1, i);
    }
}

fn alpha3_pairs() -> (t: Vec<(&'static str, &'static str)>)
    ensures
        t@.len() == alpha3_table().len(),
        forall|i: int| 0 <= i < t@.len() ==> (#[trigger] t@[i]).0@ == alpha3_table()[i].0
            && t@[i].1@ == alpha3_table()[i].1,
{
    let t = vec![
        ("USA", "US"), ("JPN", "JP"), ("GBR", "GB"), ("DEU", "DE"), ("FRA", "FR"),
        ("HKG", "HK"), ("TWN", "TW"), ("KOR", "KR"), ("SGP", "SG"), ("CHN", "CN"),
        ("CAN", "CA"), ("AUS", "AU"), ("NLD", "NL"), ("IND", "IN"), ("BRA", "BR"),
        ("RUS", "RU"), ("ITA", "IT"), ("ESP", "ES"), ("THA", "TH"), ("MYS", "MY"),
        ("IDN", "ID"), ("PHL", "PH"), ("VNM", "VN"), ("TUR", "TR"), ("MEX", "MX"),
    ];
    assert(t@.len() == alpha3_table().len());
    t
}

/// Maps an already upper-cased alpha-3 code to alpha-2; unknown codes pass through.
pub fn alpha2_from_upper(c: &str) -> (r: String)
    ensures
        r@ == alpha2_of(c@),
{
    let t = alpha3_pairs();
    let cs = chars_of(c);
    let mut i: usize = 0;
    while i < t.len()
        invariant
            i <= t@.len(),
            t@.len() == alpha3_table().len(),
            cs@ == c@,
            forall|k: int| 0 <= k < t@.len() ==> (#[trigger] t@[k]).0@ == alpha3_table()[k].0
                && t@[k].1@ == alpha3_table()[k].1,
            forall|k: int| 0 <= k < i ==> (#[trigger] alpha3_table()[k]).0 != c@,
        decreases t.len() - i,
    {
        if is_text(cs.as_slice(), t[i].0) {
            proof { lemma_alpha2_skip(c@, 0, i as int); }
            return crate::text::owned(t[i].1);
        }
        i += 1;
    }
    proof { lemma_alpha2_skip(c@, 0, t@.len() as int); }
    crate::text::owned(c)
}

/// ISO 3166-1 alpha-3 → alpha-2 for the common unlock regions; any other code
/// comes back upper-cased.
pub fn three_to_two(code: &str) -> (r: String)
    ensures
        r@ == alpha2_of(unicode_upper(code@)),
{
    let c = upper_text(code);
    alpha2_from_upper(c.as_str())
}

/// Value of cookie `key` in a `Set-Cookie` text: after the first `key=`, up to
/// the next `;` or the end, trimmed; `None` when absent or empty.
pub open spec fn cookie_spec(set_cookie: Seq<char>, key: Seq<char>) -> Option<Seq<char>> {
    let needle = key.push('=');
    match find_seq(set_cookie, needle) {
        Some(i) => {
            let rest = set_cookie.skip(i + needle.len());
            let end = match find_seq(rest, seq![';']) {
                Some(e) => e,
                None => rest.len() as int,
            };
            let val = trim(rest.take(end));
            if val.len() == 0 { None } else { Some(val) }
        }
        None => None,
    }
}

pub fn extract_cookie(set_cookie: &str, key: &str) -> (r: Option<String>)
    ensures
        match r {
            Some(v) => cookie_spec(set_cookie@, key@) == Some(v@),
            None => cookie_spec(set_cookie@, key@) is None,
        },
{
    let h = chars_of(set_cookie);
    let mut needle = chars_of(key);
    needle.push('=');
    match find_chars(h.as_slice(), needle.as_slice()) {
        None => None,
        Some(i) => {
            proof { crate::text::lemma_find_seq_sound(h@, needle@); }
            let hl = h.len();
            assert(i + needle@.len() <= hl);
            let start = i + needle.len();
            let rest = slice_chars(h.as_slice(), start, h.len());
            assert(rest@ =~= set_cookie@.skip(start as int));
            let end = match find_text(rest.as_slice(), ";") {
                Some(e) => e,
                None => rest.len(),
            };
            proof {
                reveal_strlit(";");
                assert(";"@ =~= seq![';']);
                crate::text::lemma_find_seq_sound(rest@, seq![';']);
            }
            let piece = slice_chars(rest.as_slice(), 0, end);
            assert(piece@ =~= rest@.take(end as int));
            let val = trim_chars(piece.as_slice());
            if val.len() == 0 {
                None
            } else {
                Some(string_of(val.as_slice()))
            }
        }
    }
}

/// The text between the first `prefix` and the next `suffix` after it.
pub open spec fn between_spec(body: Seq<char>, prefix: Seq<char>, suffix: Seq<char>) -> Option<Seq<char>> {
    match find_seq(body, prefix) {
        Some(s) => {
            let rest = body.skip(s + prefix.len());
            match find_seq(rest, suffix) {
                Some(e) => Some(rest.take(e)),
                None => None,
            }
        }
        None => None,
    }
}

pub fn between<'a>(body: &'a str, prefix: &str, suffix: &str) -> (r: Option<&'a str>)
    ensures
        match r {
            Some(v) => between_spec(body@, prefix@, suffix@) == Some(v@),
            None => between_spec(body@, prefix@, suffix@) is None,
        },
{
    let h = chars_of(body);
    let p = chars_of(prefix);
    match find_chars(h.as_slice(), p.as_slice()) {
        None => None,
        Some(s) => {
            proof { crate::text::lemma_find_seq_sound(h@, p@); }
            let hl = h.len();
            assert(s + p@.len() <= hl);
            let start = s + p.len();
            let rest = slice_chars(h.as_slice(), start, h.len());
            assert(rest@ =~= body@.skip(start as int));
            let q = chars_of(suffix);
            match find_chars(rest.as_slice(), q.as_slice()) {
                None => None,
                Some(e) => {
                    proof { crate::text::lemma_find_seq_sound(rest@, q@); }
                    let piece = body.substring_char(start, start + e);
                    assert(piece@ =~= rest@.take(e as int));
                    Some(piece)
                }
            }
        }
    }
}

} // verus!
