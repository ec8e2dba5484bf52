//! Egress detection decisions: the address most endpoints agree on, and the
//! country code in the geo answer. The requests are made outside this
//! library.

use vstd::prelude::*;
use crate::json::{Json, field, get_field, parse_json, parsed_json};
use crate::model::opt_text;
use crate::text::same_chars;

verus! {

/// How often `x` occurs in `s`.
pub open spec fn occurrences(s: Seq<Seq<char>>, x: Seq<char>) -> nat
    decreases s.len(),
{
    if s.len() == 0 { 0 } else { occurrences(s.drop_last(), x) + (if s.last() == x { 1nat } else { 0nat }) }
}

/// The texts of a list of strings.
pub open spec fn texts(s: Seq<String>) -> Seq<Seq<char>> {
    s.map_values(|x: String| x@)
}

proof fn lemma_occ_bound(s: Seq<Seq<char>>, x: Seq<char>)
    ensures
        occurrences(s, x) <= s.len(),
    decreases s.len(),
{
    if s.len() > 0 {
        lemma_occ_bound(s.drop_last(), x);
    }
}

proof fn lemma_occ_pos(s: Seq<Seq<char>>, i: int)
    requires
        0 <= i < s.len(),
    ensures
        occurrences(s, s[i]) >= 1,
    decreases s.len(),
{
    if i < s.len() - 1 {
        lemma_occ_pos(s.drop_last(), i);
    }
}

fn count_of(ips: &[String], x: &String) -> (n: usize)
    ensures
        n == occurrences(texts(ips@), x@),
{
    let ghost s = texts(ips@);
    let xc = crate::text::chars_of(x.as_str());
    let mut n: usize = 0;
    let mut i: usize = 0;
    while i < ips.len()
        invariant
            i <= ips@.len(),
            s == texts(ips@),
            xc@ == x@,
            n == occurrences(s.take(i as int), x@),
        decreases ips.len() - i,
    {
        assert(s.take(i + 1).drop_last() =~= s.take(i as int));
        proof {
            lemma_occ_bound(s.take(i as int), x@);
        }
        let c = crate::text::chars_of(ips[i].as_str());
        if same_chars(c.as_slice(), xc.as_slice()) {
            n += 1;
        }
        i += 1;
    }
    assert(s.take(ips@.len() as int) =~= s);
    n
}

/// The most common address text: none for no answers; else one that occurs
/// in the answers and at least as often as any other (the first such).
pub fn majority(ips: &[String]) -> (r: Option<String>)
    ensures
        ips@.len() == 0 <==> r is None,
        r matches Some(m) ==> texts(ips@).contains(m@)
            && forall|i: int| 0 <= i < ips@.len() ==> occurrences(texts(ips@), #[trigger] ips@[i]@) <= occurrences(texts(ips@), m@),
{
    if ips.len() == 0 {
        return None;
    }
    let ghost s = texts(ips@);
    let mut best: usize = 0;
    let mut best_n = count_of(ips, &ips[0]);
    let mut i: usize = 1;
    while i < ips.len()
        invariant
            1 <= i <= ips@.len(),
            best < i,
            s == texts(ips@),
            best_n == occurrences(s, ips@[best as int]@),
            forall|j: int| 0 <= j < i ==> occurrences(s, #[trigger] ips@[j]@) <= best_n,
        decreases ips.len() - i,
    {
        let n = count_of(ips, &ips[i]);
        if n > best_n {
            best = i;
            best_n = n;
        }
        i += 1;
    }
    assert(s[best as int] == ips@[best as int]@);
    Some(ips[best].clone())
}

/// The `country_code` text of the geo answer, where it is a text.
pub open spec fn country_code(doc: Json) -> Option<Seq<char>> {
    match field(doc, "country_code"@) {
        Some(Json::Str(s)) => Some(s@),
        _ => None,
    }
}

/// The country code in a geo answer body (none where the body is not JSON).
pub fn country_code_of(body: &str) -> (r: Option<String>)
    ensures
        opt_text(r) == match parsed_json(body@) {
            Ok(doc) => country_code(doc),
            Err(_) => None,
        },
{
    let doc = match parse_json(body) {
        Ok(d) => d,
        Err(_) => return None,
    };
    match get_field(&doc, "country_code") {
        Some(Json::Str(s)) => Some(s.clone()),
        _ => None,
    }
}

} // verus!
