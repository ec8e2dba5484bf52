//! Streaming-service unlock probes: for each service the verdict drawn from
//! an HTTP status, the body and (for some) the final URL.

use vstd::prelude::*;
use vstd::string::*;
use crate::probe::{ProbeResult, ProbeStatus};
use crate::probe::unlock_util::{between, between_spec, lower_text, unicode_lower};
use crate::text::{
    alpha_prefix, alpha_run, ascii_upper, chars_of, find_seq, find_text, has_seq, has_text,
    owned, push_text, slice_chars, string_of, to_upper,
};

verus! {

/// The country code after `key`: the run of ASCII letters that follows the
/// first occurrence of `key`, upper-cased, when it is 2 or 3 letters long.
pub open spec fn cc_after(body: Seq<char>, key: Seq<char>) -> Option<Seq<char>> {
    match find_seq(body, key) {
        Some(i) => {
            let tail = body.skip(i + key.len());
            let n = alpha_prefix(tail);
            if 2 <= n <= 3 { Some(ascii_upper(tail.take(n as int))) } else { None }
        }
        None => None,
    }
}

/// The first key, in order, after which a country code is found.
pub open spec fn cc_spec(body: Seq<char>, keys: Seq<Seq<char>>) -> Option<Seq<char>>
    decreases keys.len(),
{
    if keys.len() == 0 {
        None
    } else {
        match cc_after(body, keys[0]) {
            Some(c) => Some(c),
            None => cc_spec(body, keys.drop_first()),
        }
    }
}

pub open spec fn keys_view(keys: Seq<&str>) -> Seq<Seq<char>> {
    keys.map_values(|k: &str| k@)
}

fn cc_after_chars(h: &[char], key: &str) -> (r: Option<String>)
    ensures
        match r {
            Some(c) => cc_after(h@, key@) == Some(c@),
            None => cc_after(h@, key@) is None,
        },
{
    match find_text(h, key) {
        None => None,
        Some(i) => {
            proof { crate::text::lemma_find_seq_sound(h@, key@); }
            let hl = h.len();
            let kl = key.unicode_len();
            assert(i + key@.len() <= hl);
            let start = i + kl;
            let n = alpha_run(h, start);
            if 2 <= n && n <= 3 {
                let run = slice_chars(h, start, start + n);
                assert(run@ =~= h@.skip(start as int).take(n as int));
                let up = to_upper(run.as_slice());
                Some(string_of(up.as_slice()))
            } else {
                None
            }
        }
    }
}

/// Searches `body` for a 2-3 letter country code after each key in turn.
pub fn extract_cc(body: &str, keys: &[&str]) -> (r: Option<String>)
    ensures
        match r {
            Some(c) => cc_spec(body@, keys_view(keys@)) == Some(c@),
            None => cc_spec(body@, keys_view(keys@)) is None,
        },
{
    let h = chars_of(body);
    let mut i: usize = 0;
    assert(keys_view(keys@).skip(0) =~= keys_view(keys@));
    while i < keys.len()
        invariant
            i <= keys@.len(),
            h@ == body@,
            cc_spec(body@, keys_view(keys@)) == cc_spec(body@, keys_view(keys@).skip(i as int)),
        decreases keys.len() - i,
    {
        let ghost rest = keys_view(keys@).skip(i as int);
        assert(rest[0] == keys@[i as int]@);
        assert(rest.drop_first() =~= keys_view(keys@).skip(i + 1));
        match cc_after_chars(h.as_slice(), keys[i]) {
            Some(c) => return Some(c),
            None => {}
        }
        i += 1;
    }
    assert(keys_view(keys@).skip(i as int).len() == 0);
    None
}

/// Status 403 or 451: the service refuses the probe's IP.
pub open spec fn refused(status: u16) -> bool {
    status == 403 || status == 451
}

// ── Netflix: a non-original title page; 200 = full catalogue, 404 = originals only ──

pub open spec fn netflix_keys() -> Seq<Seq<char>> {
    seq!["\"requestCountry\":\""@, "\"countryCode\":\""@]
}

pub fn classify_netflix(status: u16, body: &str) -> (r: ProbeResult)
    ensures
        status == 200 ==> r.is_plain("Netflix"@, ProbeStatus::Unlocked, cc_spec(body@, netflix_keys())),
        status == 404 ==> r.is_plain("Netflix"@, ProbeStatus::Restricted, None),
        refused(status) ==> r.is_plain("Netflix"@, ProbeStatus::Blocked, None),
        status != 200 && status != 404 && !refused(status) ==> r.is_plain("Netflix"@, ProbeStatus::Unknown, None),
{
    match status {
        200 => {
            let keys: [&str; 2] = ["\"requestCountry\":\"", "\"countryCode\":\""];
            assert(keys_view(keys@) =~= netflix_keys());
            let region = extract_cc(body, &keys);
            ProbeResult::new("Netflix", ProbeStatus::Unlocked, region)
        }
        404 => ProbeResult::new("Netflix", ProbeStatus::Restricted, None),
        403 | 451 => ProbeResult::new("Netflix", ProbeStatus::Blocked, None),
        _ => ProbeResult::unknown("Netflix"),
    }
}

// ── YouTube Premium: the /premium page ──

pub open spec fn youtube_blocked(body: Seq<char>) -> bool {
    has_seq(body, "Premium is not available"@) || has_seq(body, "不可用"@)
}

pub fn classify_youtube(body: &str) -> (r: ProbeResult)
    ensures
        youtube_blocked(body@) ==> r.is_plain("YouTube Premium"@, ProbeStatus::Blocked, None),
        !youtube_blocked(body@) ==> r.is_plain("YouTube Premium"@, ProbeStatus::Unlocked,
            cc_spec(body@, seq!["\"countryCode\":\""@])),
{
    let h = chars_of(body);
    if has_text(h.as_slice(), "Premium is not available") || has_text(h.as_slice(), "不可用") {
        return ProbeResult::new("YouTube Premium", ProbeStatus::Blocked, None);
    }
    let keys: [&str; 1] = ["\"countryCode\":\""];
    assert(keys_view(keys@) =~= seq!["\"countryCode\":\""@]);
    let region = extract_cc(body, &keys);
    ProbeResult::new("YouTube Premium", ProbeStatus::Unlocked, region)
}

// ── Disney+: home page; the final URL or the body tells a blocked region ──

pub open spec fn disney_blocked_text(body: Seq<char>, final_url: Seq<char>) -> bool {
    has_seq(final_url, "not-available"@) || has_seq(body, "Disney+ is not available"@)
        || has_seq(body, "not available in your region"@)
}

pub open spec fn disney_keys() -> Seq<Seq<char>> {
    seq!["\"countryCode\":\""@, "\"country\":\""@, "\"geoCountry\":\""@]
}

pub fn classify_disney(status: u16, body: &str, final_url: &str) -> (r: ProbeResult)
    ensures
        refused(status) || disney_blocked_text(body@, final_url@)
            ==> r.is_plain("Disney+"@, ProbeStatus::Blocked, None),
        !refused(status) && !disney_blocked_text(body@, final_url@) && status == 200
            ==> r.is_plain("Disney+"@, ProbeStatus::Unlocked, cc_spec(body@, disney_keys())),
        !refused(status) && !disney_blocked_text(body@, final_url@) && status != 200
            ==> r.is_plain("Disney+"@, ProbeStatus::Unknown, None),
{
    if status == 403 || status == 451 {
        return ProbeResult::new("Disney+", ProbeStatus::Blocked, None);
    }
    let h = chars_of(body);
    let u = chars_of(final_url);
    if has_text(u.as_slice(), "not-available") || has_text(h.as_slice(), "Disney+ is not available")
        || has_text(h.as_slice(), "not available in your region") {
        return ProbeResult::new("Disney+", ProbeStatus::Blocked, None);
    }
    if status == 200 {
        let keys: [&str; 3] = ["\"countryCode\":\"", "\"country\":\"", "\"geoCountry\":\""];
        assert(keys_view(keys@) =~= disney_keys());
        let region = extract_cc(body, &keys);
        ProbeResult::new("Disney+", ProbeStatus::Unlocked, region)
    } else {
        ProbeResult::unknown("Disney+")
    }
}

// ── HBO Max ──

pub open spec fn hbo_blocked_text(body: Seq<char>) -> bool {
    has_seq(body, "not available in your region"@) || has_seq(body, "not available in your country"@)
}

pub open spec fn hbo_keys() -> Seq<Seq<char>> {
    seq!["\"countryCode\":\""@, "\"country\":\""@]
}

/// A body that says HBO Max is not available in the region or the country
/// blocks it: the text occurring anywhere in the body is enough.
pub proof fn lemma_hbo_unavailable_blocks(body: Seq<char>, i: int)
    requires
        0 <= i,
        (i + 28 <= body.len() && body.subrange(i, i + 28) == "not available in your region"@)
            || (i + 29 <= body.len() && body.subrange(i, i + 29) == "not available in your country"@),
    ensures
        hbo_blocked_text(body),
{
    reveal_strlit("not available in your region");
    reveal_strlit("not available in your country");
    crate::text::lemma_find_seq_sound(body, "not available in your region"@);
    crate::text::lemma_find_seq_sound(body, "not available in your country"@);
    if i + 28 <= body.len() && body.subrange(i, i + 28) == "not available in your region"@ {
        assert(crate::text::occurs_at(body, "not available in your region"@, i));
    } else {
        assert(crate::text::occurs_at(body, "not available in your country"@, i));
    }
}

pub fn classify_hbo(status: u16, body: &str) -> (r: ProbeResult)
    ensures
        (exists|i: int| 0 <= i && i + 28 <= body@.len() && #[trigger] body@.subrange(i, i + 28) == "not available in your region"@)
            ==> r.status == ProbeStatus::Blocked,
        (exists|i: int| 0 <= i && i + 29 <= body@.len() && #[trigger] body@.subrange(i, i + 29) == "not available in your country"@)
            ==> r.status == ProbeStatus::Blocked,
        refused(status) || hbo_blocked_text(body@) ==> r.is_plain("HBO Max"@, ProbeStatus::Blocked, None),
        !refused(status) && !hbo_blocked_text(body@) && status == 200
            ==> r.is_plain("HBO Max"@, ProbeStatus::Unlocked, cc_spec(body@, hbo_keys())),
        !refused(status) && !hbo_blocked_text(body@) && status != 200
            ==> r.is_plain("HBO Max"@, ProbeStatus::Unknown, None),
{
    proof {
        if exists|i: int| 0 <= i && i + 28 <= body@.len() && #[trigger] body@.subrange(i, i + 28) == "not available in your region"@ {
            let i = choose|i: int| 0 <= i && i + 28 <= body@.len() && #[trigger] body@.subrange(i, i + 28) == "not available in your region"@;
            lemma_hbo_unavailable_blocks(body@, i);
        }
        if exists|i: int| 0 <= i && i + 29 <= body@.len() && #[trigger] body@.subrange(i, i + 29) == "not available in your country"@ {
            let i = choose|i: int| 0 <= i && i + 29 <= body@.len() && #[trigger] body@.subrange(i, i + 29) == "not available in your country"@;
            lemma_hbo_unavailable_blocks(body@, i);
        }
    }
    if status == 403 || status == 451 {
        return ProbeResult::new("HBO Max", ProbeStatus::Blocked, None);
    }
    let h = chars_of(body);
    if has_text(h.as_slice(), "not available in your region") || has_text(h.as_slice(), "not available in your country") {
        return ProbeResult::new("HBO Max", ProbeStatus::Blocked, None);
    }
    if status == 200 {
        let keys: [&str; 2] = ["\"countryCode\":\"", "\"country\":\""];
        assert(keys_view(keys@) =~= hbo_keys());
        let region = extract_cc(body, &keys);
        ProbeResult::new("HBO Max", ProbeStatus::Unlocked, region)
    } else {
        ProbeResult::unknown("HBO Max")
    }
}

// ── Hulu and Peacock (US only): 200 without a blocking phrase = unlocked in the US ──

pub open spec fn us_only_blocked_text(body: Seq<char>) -> bool {
    has_seq(body, "not available"@) || has_seq(body, "not supported in your region"@)
}

fn classify_us_only(name: &str, status: u16, body: &str) -> (r: ProbeResult)
    ensures
        refused(status) || us_only_blocked_text(body@) ==> r.is_plain(name@, ProbeStatus::Blocked, None),
        !refused(status) && !us_only_blocked_text(body@) && status == 200
            ==> r.is_plain(name@, ProbeStatus::Unlocked, Some("US"@)),
        !refused(status) && !us_only_blocked_text(body@) && status != 200
            ==> r.is_plain(name@, ProbeStatus::Unknown, None),
{
    if status == 403 || status == 451 {
        return ProbeResult::new(name, ProbeStatus::Blocked, None);
    }
    let h = chars_of(body);
    if has_text(h.as_slice(), "not available") || has_text(h.as_slice(), "not supported in your region") {
        return ProbeResult::new(name, ProbeStatus::Blocked, None);
    }
    if status == 200 {
        ProbeResult::new(name, ProbeStatus::Unlocked, Some(owned("US")))
    } else {
        ProbeResult::unknown(name)
    }
}

pub fn classify_hulu(status: u16, body: &str) -> (r: ProbeResult)
    ensures
        refused(status) || us_only_blocked_text(body@) ==> r.is_plain("Hulu"@, ProbeStatus::Blocked, None),
        !refused(status) && !us_only_blocked_text(body@) && status == 200
            ==> r.is_plain("Hulu"@, ProbeStatus::Unlocked, Some("US"@)),
        !refused(status) && !us_only_blocked_text(body@) && status != 200
            ==> r.is_plain("Hulu"@, ProbeStatus::Unknown, None),
{
    classify_us_only("Hulu", status, body)
}

pub fn classify_peacock(status: u16, body: &str) -> (r: ProbeResult)
    ensures
        refused(status) || us_only_blocked_text(body@) ==> r.is_plain("Peacock"@, ProbeStatus::Blocked, None),
        !refused(status) && !us_only_blocked_text(body@) && status == 200
            ==> r.is_plain("Peacock"@, ProbeStatus::Unlocked, Some("US"@)),
        !refused(status) && !us_only_blocked_text(body@) && status != 200
            ==> r.is_plain("Peacock"@, ProbeStatus::Unknown, None),
{
    classify_us_only("Peacock", status, body)
}

// ── Prime Video ──

pub open spec fn prime_keys() -> Seq<Seq<char>> {
    seq!["\"country\":\""@, "\"countryCode\":\""@, "\"marketplaceId\":\"A"@]
}

pub fn classify_prime(status: u16, body: &str) -> (r: ProbeResult)
    ensures
        refused(status) ==> r.is_plain("Prime Video"@, ProbeStatus::Blocked, None),
        status == 200 ==> r.is_plain("Prime Video"@, ProbeStatus::Unlocked, cc_spec(body@, prime_keys())),
        !refused(status) && status != 200 ==> r.is_plain("Prime Video"@, ProbeStatus::Unknown, None),
{
    if status == 403 || status == 451 {
        return ProbeResult::new("Prime Video", ProbeStatus::Blocked, None);
    }
    if status == 200 {
        let keys: [&str; 3] = ["\"country\":\"", "\"countryCode\":\"", "\"marketplaceId\":\"A"];
        assert(keys_view(keys@) =~= prime_keys());
        let region = extract_cc(body, &keys);
        ProbeResult::new("Prime Video", ProbeStatus::Unlocked, region)
    } else {
        ProbeResult::unknown("Prime Video")
    }
}

// ── Bilibili mainland: the zone API reports the caller's country ──

pub open spec fn bili_cn_text(body: Seq<char>) -> bool {
    has_seq(body, "\"country_code\":\"CN\""@) || has_seq(body, "\"country_code\": \"CN\""@)
}

pub fn classify_bilibili_cn(body: &str) -> (r: ProbeResult)
    ensures
        bili_cn_text(body@) ==> r.is_plain("Bilibili CN"@, ProbeStatus::Unlocked, Some("CN"@)),
        !bili_cn_text(body@) && has_seq(body@, "\"code\":0"@) ==> r.is_plain("Bilibili CN"@,
            ProbeStatus::Blocked, cc_spec(body@, seq!["\"country_code\":\""@])),
        !bili_cn_text(body@) && !has_seq(body@, "\"code\":0"@)
            ==> r.is_plain("Bilibili CN"@, ProbeStatus::Unknown, None),
{
    let h = chars_of(body);
    if has_text(h.as_slice(), "\"country_code\":\"CN\"") || has_text(h.as_slice(), "\"country_code\": \"CN\"") {
        ProbeResult::new("Bilibili CN", ProbeStatus::Unlocked, Some(owned("CN")))
    } else if has_text(h.as_slice(), "\"code\":0") {
        let keys: [&str; 1] = ["\"country_code\":\""];
        assert(keys_view(keys@) =~= seq!["\"country_code\":\""@]);
        let region = extract_cc(body, &keys);
        ProbeResult::new("Bilibili CN", ProbeStatus::Blocked, region)
    } else {
        ProbeResult::unknown("Bilibili CN")
    }
}

// ── Bilibili HK/MO/TW: an exclusive episode; mainland IPs get -10403 ──

pub open spec fn bili_hktw_blocked(body: Seq<char>) -> bool {
    has_seq(body, "\"code\":-10403"@) || has_seq(body, "大陆地区"@) || has_seq(body, "restricted"@)
}

pub fn classify_bilibili_hktw(body: &str) -> (r: ProbeResult)
    ensures
        bili_hktw_blocked(body@) ==> r.is_plain("Bilibili HK/TW"@, ProbeStatus::Blocked, None),
        !bili_hktw_blocked(body@) && has_seq(body@, "\"code\":0"@)
            ==> r.is_plain("Bilibili HK/TW"@, ProbeStatus::Unlocked, None),
        !bili_hktw_blocked(body@) && !has_seq(body@, "\"code\":0"@)
            ==> r.is_plain("Bilibili HK/TW"@, ProbeStatus::Unknown, None),
{
    let h = chars_of(body);
    if has_text(h.as_slice(), "\"code\":-10403") || has_text(h.as_slice(), "大陆地区")
        || has_text(h.as_slice(), "restricted") {
        ProbeResult::new("Bilibili HK/TW", ProbeStatus::Blocked, None)
    } else if has_text(h.as_slice(), "\"code\":0") {
        ProbeResult::new("Bilibili HK/TW", ProbeStatus::Unlocked, None)
    } else {
        ProbeResult::unknown("Bilibili HK/TW")
    }
}

// ── AbemaTV: the IP-check API; Japan only ──

pub fn classify_abema(body: &str) -> (r: ProbeResult)
    ensures
        has_seq(body@, "\"country\":\"JP\""@) ==> r.is_plain("AbemaTV"@, ProbeStatus::Unlocked, Some("JP"@)),
        !has_seq(body@, "\"country\":\"JP\""@) ==> r.is_plain("AbemaTV"@, ProbeStatus::Blocked,
            cc_spec(body@, seq!["\"country\":\""@])),
{
    let h = chars_of(body);
    if has_text(h.as_slice(), "\"country\":\"JP\"") {
        ProbeResult::new("AbemaTV", ProbeStatus::Unlocked, Some(owned("JP")))
    } else {
        let keys: [&str; 1] = ["\"country\":\""];
        assert(keys_view(keys@) =~= seq!["\"country\":\""@]);
        let region = extract_cc(body, &keys);
        ProbeResult::new("AbemaTV", ProbeStatus::Blocked, region)
    }
}

// ── DAZN: the start-up endpoint says whether the region is allowed ──

pub open spec fn dazn_allowed_keys() -> Seq<Seq<char>> {
    seq!["\"Country\":\""@, "\"CountryCode\":\""@, "\"country\":\""@]
}

pub open spec fn dazn_denied_keys() -> Seq<Seq<char>> {
    seq!["\"Country\":\""@, "\"CountryCode\":\""@]
}

pub open spec fn dazn_denied_text(body: Seq<char>) -> bool {
    has_seq(body, "\"isAllowed\":false"@) || has_seq(body, "not available"@)
}

pub fn classify_dazn(body: &str) -> (r: ProbeResult)
    ensures
        has_seq(body@, "\"isAllowed\":true"@)
            ==> r.is_plain("DAZN"@, ProbeStatus::Unlocked, cc_spec(body@, dazn_allowed_keys())),
        !has_seq(body@, "\"isAllowed\":true"@) && dazn_denied_text(body@)
            ==> r.is_plain("DAZN"@, ProbeStatus::Blocked, cc_spec(body@, dazn_denied_keys())),
        !has_seq(body@, "\"isAllowed\":true"@) && !dazn_denied_text(body@)
            ==> r.is_plain("DAZN"@, ProbeStatus::Unknown, None),
{
    let h = chars_of(body);
    if has_text(h.as_slice(), "\"isAllowed\":true") {
        let keys: [&str; 3] = ["\"Country\":\"", "\"CountryCode\":\"", "\"country\":\""];
        assert(keys_view(keys@) =~= dazn_allowed_keys());
        let region = extract_cc(body, &keys);
        ProbeResult::new("DAZN", ProbeStatus::Unlocked, region)
    } else if has_text(h.as_slice(), "\"isAllowed\":false") || has_text(h.as_slice(), "not available") {
        let keys: [&str; 2] = ["\"Country\":\"", "\"CountryCode\":\""];
        assert(keys_view(keys@) =~= dazn_denied_keys());
        let region = extract_cc(body, &keys);
        ProbeResult::new("DAZN", ProbeStatus::Blocked, region)
    } else {
        ProbeResult::unknown("DAZN")
    }
}

// ── BBC iPlayer: the media selector answers with media only inside the UK ──

pub open spec fn bbc_ok(status: u16, body: Seq<char>) -> bool {
    status == 200 && has_seq(body, "\"media\""@) && !has_seq(body, "selectionunavailable"@)
}

pub fn classify_bbc(status: u16, body: &str) -> (r: ProbeResult)
    ensures
        bbc_ok(status, body@) ==> r.is_plain("BBC iPlayer"@, ProbeStatus::Unlocked, Some("GB"@)),
        !bbc_ok(status, body@) ==> r.is_plain("BBC iPlayer"@, ProbeStatus::Blocked, None),
{
    let h = chars_of(body);
    if status == 200 && has_text(h.as_slice(), "\"media\"") && !has_text(h.as_slice(), "selectionunavailable") {
        ProbeResult::new("BBC iPlayer", ProbeStatus::Unlocked, Some(owned("GB")))
    } else {
        ProbeResult::new("BBC iPlayer", ProbeStatus::Blocked, None)
    }
}

// ── Crunchyroll and Funimation: 200 without the service's blocking phrase ──

fn classify_page(name: &str, phrase: &str, status: u16, body: &str) -> (r: ProbeResult)
    ensures
        refused(status) || has_seq(body@, "not available in your region"@) || has_seq(body@, phrase@)
            ==> r.is_plain(name@, ProbeStatus::Blocked, None),
        !(refused(status) || has_seq(body@, "not available in your region"@) || has_seq(body@, phrase@))
            && status == 200 ==> r.is_plain(name@, ProbeStatus::Unlocked, None),
        !(refused(status) || has_seq(body@, "not available in your region"@) || has_seq(body@, phrase@))
            && status != 200 ==> r.is_plain(name@, ProbeStatus::Unknown, None),
{
    if status == 403 || status == 451 {
        return ProbeResult::new(name, ProbeStatus::Blocked, None);
    }
    let h = chars_of(body);
    if has_text(h.as_slice(), "not available in your region") || has_text(h.as_slice(), phrase) {
        return ProbeResult::new(name, ProbeStatus::Blocked, None);
    }
    if status == 200 {
        ProbeResult::new(name, ProbeStatus::Unlocked, None)
    } else {
        ProbeResult::unknown(name)
    }
}

pub open spec fn crunchyroll_blocked(status: u16, body: Seq<char>) -> bool {
    refused(status) || has_seq(body, "not available in your region"@) || has_seq(body, "Crunchyroll is not available"@)
}

pub fn classify_crunchyroll(status: u16, body: &str) -> (r: ProbeResult)
    ensures
        crunchyroll_blocked(status, body@) ==> r.is_plain("Crunchyroll"@, ProbeStatus::Blocked, None),
        !crunchyroll_blocked(status, body@) && status == 200
            ==> r.is_plain("Crunchyroll"@, ProbeStatus::Unlocked, None),
        !crunchyroll_blocked(status, body@) && status != 200
            ==> r.is_plain("Crunchyroll"@, ProbeStatus::Unknown, None),
{
    classify_page("Crunchyroll", "Crunchyroll is not available", status, body)
}

pub open spec fn funimation_blocked(status: u16, body: Seq<char>) -> bool {
    refused(status) || has_seq(body, "not available in your region"@) || has_seq(body, "Funimation is not available"@)
}

pub fn classify_funimation(status: u16, body: &str) -> (r: ProbeResult)
    ensures
        funimation_blocked(status, body@) ==> r.is_plain("Funimation"@, ProbeStatus::Blocked, None),
        !funimation_blocked(status, body@) && status == 200
            ==> r.is_plain("Funimation"@, ProbeStatus::Unlocked, None),
        !funimation_blocked(status, body@) && status != 200
            ==> r.is_plain("Funimation"@, ProbeStatus::Unknown, None),
{
    classify_page("Funimation", "Funimation is not available", status, body)
}

// ── Paramount+ and Discovery+: the final URL after redirects ──

pub open spec fn url_blocked(status: u16, final_url: Seq<char>) -> bool {
    refused(status) || has_seq(final_url, "not-available"@) || has_seq(final_url, "unavailable"@)
}

fn classify_by_url(name: &str, status: u16, final_url: &str) -> (r: ProbeResult)
    ensures
        url_blocked(status, final_url@) ==> r.is_plain(name@, ProbeStatus::Blocked, None),
        !url_blocked(status, final_url@) && status == 200 ==> r.is_plain(name@, ProbeStatus::Unlocked, None),
        !url_blocked(status, final_url@) && status != 200 ==> r.is_plain(name@, ProbeStatus::Unknown, None),
{
    let u = chars_of(final_url);
    if status == 403 || status == 451 || has_text(u.as_slice(), "not-available") || has_text(u.as_slice(), "unavailable") {
        ProbeResult::new(name, ProbeStatus::Blocked, None)
    } else if status == 200 {
        ProbeResult::new(name, ProbeStatus::Unlocked, None)
    } else {
        ProbeResult::unknown(name)
    }
}

pub fn classify_paramount(status: u16, final_url: &str) -> (r: ProbeResult)
    ensures
        url_blocked(status, final_url@) ==> r.is_plain("Paramount+"@, ProbeStatus::Blocked, None),
        !url_blocked(status, final_url@) && status == 200 ==> r.is_plain("Paramount+"@, ProbeStatus::Unlocked, None),
        !url_blocked(status, final_url@) && status != 200 ==> r.is_plain("Paramount+"@, ProbeStatus::Unknown, None),
{
    classify_by_url("Paramount+", status, final_url)
}

pub fn classify_discovery(status: u16, final_url: &str) -> (r: ProbeResult)
    ensures
        url_blocked(status, final_url@) ==> r.is_plain("Discovery+"@, ProbeStatus::Blocked, None),
        !url_blocked(status, final_url@) && status == 200 ==> r.is_plain("Discovery+"@, ProbeStatus::Unlocked, None),
        !url_blocked(status, final_url@) && status != 200 ==> r.is_plain("Discovery+"@, ProbeStatus::Unknown, None),
{
    classify_by_url("Discovery+", status, final_url)
}

// ── Spotify ──

pub open spec fn spotify_keys() -> Seq<Seq<char>> {
    seq!["\"countryCode\":\""@, "\"country\":\""@]
}

pub fn classify_spotify(status: u16, body: &str) -> (r: ProbeResult)
    ensures
        refused(status) ==> r.is_plain("Spotify"@, ProbeStatus::Blocked, None),
        status == 200 ==> r.is_plain("Spotify"@, ProbeStatus::Unlocked, cc_spec(body@, spotify_keys())),
        !refused(status) && status != 200 ==> r.is_plain("Spotify"@, ProbeStatus::Unknown, None),
{
    if status == 403 || status == 451 {
        return ProbeResult::new("Spotify", ProbeStatus::Blocked, None);
    }
    if status == 200 {
        let keys: [&str; 2] = ["\"countryCode\":\"", "\"country\":\""];
        assert(keys_view(keys@) =~= spotify_keys());
        let region = extract_cc(body, &keys);
        ProbeResult::new("Spotify", ProbeStatus::Unlocked, region)
    } else {
        ProbeResult::unknown("Spotify")
    }
}

// ── Status-only services: 200 = unlocked, 403/451 = blocked ──

fn classify_status(name: &str, status: u16) -> (r: ProbeResult)
    ensures
        status == 200 ==> r.is_plain(name@, ProbeStatus::Unlocked, None),
        refused(status) ==> r.is_plain(name@, ProbeStatus::Blocked, None),
        status != 200 && !refused(status) ==> r.is_plain(name@, ProbeStatus::Unknown, None),
{
    match status {
        200 => ProbeResult::new(name, ProbeStatus::Unlocked, None),
        403 | 451 => ProbeResult::new(name, ProbeStatus::Blocked, None),
        _ => ProbeResult::unknown(name),
    }
}

pub fn classify_tvb(status: u16) -> (r: ProbeResult)
    ensures
        status == 200 ==> r.is_plain("TVB Anywhere+"@, ProbeStatus::Unlocked, None),
        refused(status) ==> r.is_plain("TVB Anywhere+"@, ProbeStatus::Blocked, None),
        status != 200 && !refused(status) ==> r.is_plain("TVB Anywhere+"@, ProbeStatus::Unknown, None),
{
    classify_status("TVB Anywhere+", status)
}

pub fn classify_iqiyi(status: u16) -> (r: ProbeResult)
    ensures
        status == 200 ==> r.is_plain("iQIYI"@, ProbeStatus::Unlocked, None),
        refused(status) ==> r.is_plain("iQIYI"@, ProbeStatus::Blocked, None),
        status != 200 && !refused(status) ==> r.is_plain("iQIYI"@, ProbeStatus::Unknown, None),
{
    classify_status("iQIYI", status)
}

pub fn classify_viu(status: u16) -> (r: ProbeResult)
    ensures
        status == 200 ==> r.is_plain("Viu"@, ProbeStatus::Unlocked, None),
        refused(status) ==> r.is_plain("Viu"@, ProbeStatus::Blocked, None),
        status != 200 && !refused(status) ==> r.is_plain("Viu"@, ProbeStatus::Unknown, None),
{
    classify_status("Viu", status)
}

// ── KOCOWA ──

pub open spec fn kocowa_blocked(status: u16, body: Seq<char>) -> bool {
    status == 403 || has_seq(body, "is not available in your region or country"@)
}

pub fn parse_kocowa(status: u16, body: &str) -> (r: ProbeResult)
    ensures
        kocowa_blocked(status, body@) ==> r.is_plain("KOCOWA"@, ProbeStatus::Blocked, None),
        !kocowa_blocked(status, body@) && status == 200 ==> r.is_plain("KOCOWA"@, ProbeStatus::Unlocked, None),
        !kocowa_blocked(status, body@) && status != 200 ==> r.is_plain("KOCOWA"@, ProbeStatus::Unknown, None),
{
    let h = chars_of(body);
    if status == 403 || has_text(h.as_slice(), "is not available in your region or country") {
        return ProbeResult::new("KOCOWA", ProbeStatus::Blocked, None);
    }
    if status == 200 {
        return ProbeResult::new("KOCOWA", ProbeStatus::Unlocked, None);
    }
    ProbeResult::unknown("KOCOWA")
}

// ── TikTok: the explore page carries "region":"XX" ──

pub open spec fn tiktok_region(body: Seq<char>) -> Option<Seq<char>> {
    match between_spec(body, "\"region\":\""@, "\""@) {
        Some(r) => if r.len() != 0 { Some(r) } else { None },
        None => None,
    }
}

pub fn parse_tiktok(status: u16, body: &str) -> (r: ProbeResult)
    ensures
        status != 200 ==> r.is_plain("TikTok"@, ProbeStatus::Blocked, None),
        status == 200 && has_seq(body@, "https://www.tiktok.com/hk/notfound"@)
            ==> r.is_plain("TikTok"@, ProbeStatus::Blocked, Some("hk"@)),
        status == 200 && !has_seq(body@, "https://www.tiktok.com/hk/notfound"@)
            ==> match tiktok_region(body@) {
                Some(g) => r.is_plain("TikTok"@, ProbeStatus::Unlocked, Some(unicode_lower(g))),
                None => r.is_plain("TikTok"@, ProbeStatus::Blocked, None),
            },
{
    if status != 200 {
        return ProbeResult::new("TikTok", ProbeStatus::Blocked, None);
    }
    let h = chars_of(body);
    if has_text(h.as_slice(), "https://www.tiktok.com/hk/notfound") {
        return ProbeResult::new("TikTok", ProbeStatus::Blocked, Some(owned("hk")));
    }
    match between(body, "\"region\":\"", "\"") {
        Some(g) => {
            if !g.is_empty() {
                ProbeResult::new("TikTok", ProbeStatus::Unlocked, Some(lower_text(g)))
            } else {
                ProbeResult::new("TikTok", ProbeStatus::Blocked, None)
            }
        }
        None => ProbeResult::new("TikTok", ProbeStatus::Blocked, None),
    }
}

/// Probe for Netflix; `base` is the service's origin.
pub struct Netflix {
    pub base: String,
}

impl Default for Netflix {
    fn default() -> (r: Self)
        ensures
            r.base@ == "https://www.netflix.com"@,
    {
        Netflix { base: owned("https://www.netflix.com") }
    }
}

impl Netflix {
    /// Display name of the service.
    pub fn name(&self) -> (r: &'static str)
        ensures
            r@ == "Netflix"@,
    {
        "Netflix"
    }

    /// Address the probe requests.
    pub fn url(&self) -> (u: String)
        ensures
            u@ == self.base@ + "/title/81280792"@,
    {
        let mut u = self.base.clone();
        push_text(&mut u, "/title/81280792");
        u
    }
}

/// Probe for YouTube Premium; `base` is the service's origin.
pub struct YouTube {
    pub base: String,
}

impl Default for YouTube {
    fn default() -> (r: Self)
        ensures
            r.base@ == "https://www.youtube.com"@,
    {
        YouTube { base: owned("https://www.youtube.com") }
    }
}

impl YouTube {
    /// Display name of the service.
    pub fn name(&self) -> (r: &'static str)
        ensures
            r@ == "YouTube Premium"@,
    {
        "YouTube Premium"
    }

    /// Address the probe requests.
    pub fn url(&self) -> (u: String)
        ensures
            u@ == self.base@ + "/premium"@,
    {
        let mut u = self.base.clone();
        push_text(&mut u, "/premium");
        u
    }
}

/// Probe for Disney+; `base` is the service's origin.
pub struct DisneyPlus {
    pub base: String,
}

impl Default for DisneyPlus {
    fn default() -> (r: Self)
        ensures
            r.base@ == "https://www.disneyplus.com"@,
    {
        DisneyPlus { base: owned("https://www.disneyplus.com") }
    }
}

impl DisneyPlus {
    /// Display name of the service.
    pub fn name(&self) -> (r: &'static str)
        ensures
            r@ == "Disney+"@,
    {
        "Disney+"
    }
}

/// Probe for HBO Max; `base` is the service's origin.
pub struct HboMax {
    pub base: String,
}

impl Default for HboMax {
    fn default() -> (r: Self)
        ensures
            r.base@ == "https://www.max.com"@,
    {
        HboMax { base: owned("https://www.max.com") }
    }
}

impl HboMax {
    /// Display name of the service.
    pub fn name(&self) -> (r: &'static str)
        ensures
            r@ == "HBO Max"@,
    {
        "HBO Max"
    }
}

/// Probe for Hulu; `base` is the service's origin.
pub struct Hulu {
    pub base: String,
}

impl Default for Hulu {
    fn default() -> (r: Self)
        ensures
            r.base@ == "https://www.hulu.com"@,
    {
        Hulu { base: owned("https://www.hulu.com") }
    }
}

impl Hulu {
    /// Display name of the service.
    pub fn name(&self) -> (r: &'static str)
        ensures
            r@ == "Hulu"@,
    {
        "Hulu"
    }
}

/// Probe for Prime Video; `base` is the service's origin.
pub struct PrimeVideo {
    pub base: String,
}

impl Default for PrimeVideo {
    fn default() -> (r: Self)
        ensures
            r.base@ == "https://www.primevideo.com"@,
    {
        PrimeVideo { base: owned("https://www.primevideo.com") }
    }
}

impl PrimeVideo {
    /// Display name of the service.
    pub fn name(&self) -> (r: &'static str)
        ensures
            r@ == "Prime Video"@,
    {
        "Prime Video"
    }
}

/// Probe for Bilibili CN; `base` is the service's origin.
pub struct BilibiliCn {
    pub base: String,
}

impl Default for BilibiliCn {
    fn default() -> (r: Self)
        ensures
            r.base@ == "https://api.bilibili.com"@,
    {
        BilibiliCn { base: owned("https://api.bilibili.com") }
    }
}

impl BilibiliCn {
    /// Display name of the service.
    pub fn name(&self) -> (r: &'static str)
        ensures
            r@ == "Bilibili CN"@,
    {
        "Bilibili CN"
    }

    /// Address the probe requests.
    pub fn url(&self) -> (u: String)
        ensures
            u@ == self.base@ + "/x/web-interface/zone"@,
    {
        let mut u = self.base.clone();
        push_text(&mut u, "/x/web-interface/zone");
        u
    }
}

/// Probe for Bilibili HK/TW; `base` is the service's origin.
pub struct BilibiliHkTw {
    pub base: String,
}

impl Default for BilibiliHkTw {
    fn default() -> (r: Self)
        ensures
            r.base@ == "https://api.bilibili.com"@,
    {
        BilibiliHkTw { base: owned("https://api.bilibili.com") }
    }
}

impl BilibiliHkTw {
    /// Display name of the service.
    pub fn name(&self) -> (r: &'static str)
        ensures
            r@ == "Bilibili HK/TW"@,
    {
        "Bilibili HK/TW"
    }

    /// Address the probe requests.
    pub fn url(&self) -> (u: String)
        ensures
            u@ == self.base@ + "/pgc/player/web/v2/playurl?ep_id=374717&support_multi_area=1&qn=0&fnver=0&fnval=16"@,
    {
        let mut u = self.base.clone();
        push_text(&mut u, "/pgc/player/web/v2/playurl?ep_id=374717&support_multi_area=1&qn=0&fnver=0&fnval=16");
        u
    }
}

/// Probe for AbemaTV; `base` is the service's origin.
pub struct AbemaTV {
    pub base: String,
}

impl Default for AbemaTV {
    fn default() -> (r: Self)
        ensures
            r.base@ == "https://api.abema.io"@,
    {
        AbemaTV { base: owned("https://api.abema.io") }
    }
}

impl AbemaTV {
    /// Display name of the service.
    pub fn name(&self) -> (r: &'static str)
        ensures
            r@ == "AbemaTV"@,
    {
        "AbemaTV"
    }

    /// Address the probe requests.
    pub fn url(&self) -> (u: String)
        ensures
            u@ == self.base@ + "/v1/ip/check?device_type=pc"@,
    {
        let mut u = self.base.clone();
        push_text(&mut u, "/v1/ip/check?device_type=pc");
        u
    }
}

/// Probe for DAZN; `base` is the service's origin.
pub struct Dazn {
    pub base: String,
}

impl Default for Dazn {
    fn default() -> (r: Self)
        ensures
            r.base@ == "https://startup.core.indazn.com"@,
    {
        Dazn { base: owned("https://startup.core.indazn.com") }
    }
}

impl Dazn {
    /// Display name of the service.
    pub fn name(&self) -> (r: &'static str)
        ensures
            r@ == "DAZN"@,
    {
        "DAZN"
    }

    /// Address the probe requests.
    pub fn url(&self) -> (u: String)
        ensures
            u@ == self.base@ + "/misl/v5/Startup?keycloak=false&IFA=&language=en&Platform=web&PlatformId=2&Manufacturer=google&proposedCountry=US&isTV=false"@,
    {
        let mut u = self.base.clone();
        push_text(&mut u, "/misl/v5/Startup?keycloak=false&IFA=&language=en&Platform=web&PlatformId=2&Manufacturer=google&proposedCountry=US&isTV=false");
        u
    }
}

/// Probe for BBC iPlayer; `base` is the service's origin.
pub struct BbcIplayer {
    pub base: String,
}

impl Default for BbcIplayer {
    fn default() -> (r: Self)
        ensures
            r.base@ == "https://open.live.bbc.co.uk"@,
    {
        BbcIplayer { base: owned("https://open.live.bbc.co.uk") }
    }
}

impl BbcIplayer {
    /// Display name of the service.
    pub fn name(&self) -> (r: &'static str)
        ensures
            r@ == "BBC iPlayer"@,
    {
        "BBC iPlayer"
    }

    /// Address the probe requests.
    pub fn url(&self) -> (u: String)
        ensures
            u@ == self.base@ + "/mediaselector/6/select/version/2.0/mediaset/iptv-all/vpid/bbc_one_london/format/json/"@,
    {
        let mut u = self.base.clone();
        push_text(&mut u, "/mediaselector/6/select/version/2.0/mediaset/iptv-all/vpid/bbc_one_london/format/json/");
        u
    }
}

/// Probe for Crunchyroll; `base` is the service's origin.
pub struct Crunchyroll {
    pub base: String,
}

impl Default for Crunchyroll {
    fn default() -> (r: Self)
        ensures
            r.base@ == "https://www.crunchyroll.com"@,
    {
        Crunchyroll { base: owned("https://www.crunchyroll.com") }
    }
}

impl Crunchyroll {
    /// Display name of the service.
    pub fn name(&self) -> (r: &'static str)
        ensures
            r@ == "Crunchyroll"@,
    {
        "Crunchyroll"
    }
}

/// Probe for Paramount+; `base` is the service's origin.
pub struct ParamountPlus {
    pub base: String,
}

impl Default for ParamountPlus {
    fn default() -> (r: Self)
        ensures
            r.base@ == "https://www.paramountplus.com"@,
    {
        ParamountPlus { base: owned("https://www.paramountplus.com") }
    }
}

impl ParamountPlus {
    /// Display name of the service.
    pub fn name(&self) -> (r: &'static str)
        ensures
            r@ == "Paramount+"@,
    {
        "Paramount+"
    }
}

/// Probe for Peacock; `base` is the service's origin.
pub struct Peacock {
    pub base: String,
}

impl Default for Peacock {
    fn default() -> (r: Self)
        ensures
            r.base@ == "https://www.peacocktv.com"@,
    {
        Peacock { base: owned("https://www.peacocktv.com") }
    }
}

impl Peacock {
    /// Display name of the service.
    pub fn name(&self) -> (r: &'static str)
        ensures
            r@ == "Peacock"@,
    {
        "Peacock"
    }
}

/// Probe for Discovery+; `base` is the service's origin.
pub struct DiscoveryPlus {
    pub base: String,
}

impl Default for DiscoveryPlus {
    fn default() -> (r: Self)
        ensures
            r.base@ == "https://www.discoveryplus.com"@,
    {
        DiscoveryPlus { base: owned("https://www.discoveryplus.com") }
    }
}

impl DiscoveryPlus {
    /// Display name of the service.
    pub fn name(&self) -> (r: &'static str)
        ensures
            r@ == "Discovery+"@,
    {
        "Discovery+"
    }
}

/// Probe for Spotify; `base` is the service's origin.
pub struct Spotify {
    pub base: String,
}

impl Default for Spotify {
    fn default() -> (r: Self)
        ensures
            r.base@ == "https://open.spotify.com"@,
    {
        Spotify { base: owned("https://open.spotify.com") }
    }
}

impl Spotify {
    /// Display name of the service.
    pub fn name(&self) -> (r: &'static str)
        ensures
            r@ == "Spotify"@,
    {
        "Spotify"
    }
}

/// Probe for TVB Anywhere+; `base` is the service's origin.
pub struct TvbAnywhere {
    pub base: String,
}

impl Default for TvbAnywhere {
    fn default() -> (r: Self)
        ensures
            r.base@ == "https://www.tvbanywhere.com.hk"@,
    {
        TvbAnywhere { base: owned("https://www.tvbanywhere.com.hk") }
    }
}

impl TvbAnywhere {
    /// Display name of the service.
    pub fn name(&self) -> (r: &'static str)
        ensures
            r@ == "TVB Anywhere+"@,
    {
        "TVB Anywhere+"
    }
}

/// Probe for Funimation; `base` is the service's origin.
pub struct Funimation {
    pub base: String,
}

impl Default for Funimation {
    fn default() -> (r: Self)
        ensures
            r.base@ == "https://www.funimation.com"@,
    {
        Funimation { base: owned("https://www.funimation.com") }
    }
}

impl Funimation {
    /// Display name of the service.
    pub fn name(&self) -> (r: &'static str)
        ensures
            r@ == "Funimation"@,
    {
        "Funimation"
    }
}

/// Probe for iQIYI; `base` is the service's origin.
pub struct IQiYi {
    pub base: String,
}

impl Default for IQiYi {
    fn default() -> (r: Self)
        ensures
            r.base@ == "https://www.iq.com"@,
    {
        IQiYi { base: owned("https://www.iq.com") }
    }
}

impl IQiYi {
    /// Display name of the service.
    pub fn name(&self) -> (r: &'static str)
        ensures
            r@ == "iQIYI"@,
    {
        "iQIYI"
    }
}

/// Probe for KOCOWA; `base` is the service's origin.
pub struct Kocowa {
    pub base: String,
}

impl Default for Kocowa {
    fn default() -> (r: Self)
        ensures
            r.base@ == "https://www.kocowa.com"@,
    {
        Kocowa { base: owned("https://www.kocowa.com") }
    }
}

impl Kocowa {
    /// Display name of the service.
    pub fn name(&self) -> (r: &'static str)
        ensures
            r@ == "KOCOWA"@,
    {
        "KOCOWA"
    }

    /// Address the probe requests.
    pub fn url(&self) -> (u: String)
        ensures
            u@ == self.base@ + "/"@,
    {
        let mut u = self.base.clone();
        push_text(&mut u, "/");
        u
    }
}

/// Probe for Viu; `base` is the service's origin.
pub struct Viu {
    pub base: String,
}

impl Default for Viu {
    fn default() -> (r: Self)
        ensures
            r.base@ == "https://www.viu.com"@,
    {
        Viu { base: owned("https://www.viu.com") }
    }
}

impl Viu {
    /// Display name of the service.
    pub fn name(&self) -> (r: &'static str)
        ensures
            r@ == "Viu"@,
    {
        "Viu"
    }
}

/// Probe for TikTok; `base` is the service's origin.
pub struct TikTok {
    pub base: String,
}

impl Default for TikTok {
    fn default() -> (r: Self)
        ensures
            r.base@ == "https://www.tiktok.com"@,
    {
        TikTok { base: owned("https://www.tiktok.com") }
    }
}

impl TikTok {
    /// Display name of the service.
    pub fn name(&self) -> (r: &'static str)
        ensures
            r@ == "TikTok"@,
    {
        "TikTok"
    }

    /// Address the probe requests.
    pub fn url(&self) -> (u: String)
        ensures
            u@ == self.base@ + "/explore"@,
    {
        let mut u = self.base.clone();
        push_text(&mut u, "/explore");
        u
    }
}

} // verus!
