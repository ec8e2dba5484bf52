//! Web-service probes: search engines, Reddit, Wikipedia editing, geo
//! lookups of OneTrust and Apple, and the Steam store region.

use vstd::prelude::*;
use vstd::string::*;
use crate::probe::{ProbeResult, ProbeStatus, opt_view};
use crate::probe::streaming::refused;
use crate::probe::unlock_util::{
    between, between_spec, cookie_spec, extract_cookie, lower_text, unicode_lower,
};
use crate::text::{
    chars_of, has_seq, has_text, is_ascii_alpha, owned, push_text, string_of, trim, trim_chars,
};

verus! {

/// Bing: 200 means reachable; a `cn.bing.com` redirect reveals the mainland
/// edition, otherwise the region after `Region:"` is reported in lower case.
pub fn parse_bing(status: u16, body: &str) -> (r: ProbeResult)
    ensures
        refused(status) ==> r.is_plain("Bing"@, ProbeStatus::Blocked, None),
        status == 200 && has_seq(body@, "cn.bing.com"@) ==> r.is_plain("Bing"@, ProbeStatus::Unlocked, Some("cn"@)),
        status == 200 && !has_seq(body@, "cn.bing.com"@) ==> r.is_plain("Bing"@, ProbeStatus::Unlocked,
            match between_spec(body@, "Region:\""@, "\""@) {
                Some(g) => Some(unicode_lower(g)),
                None => None,
            }),
        !refused(status) && status != 200 ==> r.is_plain("Bing"@, ProbeStatus::Unknown, None),
{
    if status == 403 || status == 451 {
        return ProbeResult::new("Bing", ProbeStatus::Blocked, None);
    }
    if status == 200 {
        let h = chars_of(body);
        if has_text(h.as_slice(), "cn.bing.com") {
            return ProbeResult::new("Bing", ProbeStatus::Unlocked, Some(owned("cn")));
        }
        let region = match between(body, "Region:\"", "\"") {
            Some(g) => Some(lower_text(g)),
            None => None,
        };
        return ProbeResult::new("Bing", ProbeStatus::Unlocked, region);
    }
    ProbeResult::unknown("Bing")
}

/// A result of unknown status that notes rate limiting.
pub open spec fn rate_limited(r: ProbeResult, name: Seq<char>) -> bool {
    &&& r.name@ == name
    &&& r.status == ProbeStatus::Unknown
    &&& r.region is None
    &&& r.info matches Some(i) && i@ == "Rate Limited"@
}

/// Google search: 429 rate-limited; 403/451 or the "unusual traffic" page blocked; 200 unlocked.
pub fn parse_google_search(status: u16, body: &str) -> (r: ProbeResult)
    ensures
        status == 429 ==> rate_limited(r, "GoogleSearch"@),
        status != 429 && (refused(status) || has_seq(body@, "unusual traffic from"@))
            ==> r.is_plain("GoogleSearch"@, ProbeStatus::Blocked, None),
        status == 200 && !has_seq(body@, "unusual traffic from"@)
            ==> r.is_plain("GoogleSearch"@, ProbeStatus::Unlocked, None),
        status != 429 && status != 200 && !refused(status) && !has_seq(body@, "unusual traffic from"@)
            ==> r.is_plain("GoogleSearch"@, ProbeStatus::Unknown, None),
{
    if status == 429 {
        return ProbeResult::new("GoogleSearch", ProbeStatus::Unknown, None).with_info("Rate Limited");
    }
    let h = chars_of(body);
    if status == 403 || status == 451 || has_text(h.as_slice(), "unusual traffic from") {
        return ProbeResult::new("GoogleSearch", ProbeStatus::Blocked, None);
    }
    if status == 200 {
        return ProbeResult::new("GoogleSearch", ProbeStatus::Unlocked, None);
    }
    ProbeResult::unknown("GoogleSearch")
}

/// Reddit: 429 rate-limited; 200/302 unlocked; 403 with "been blocked" blocked.
pub fn parse_reddit(status: u16, body: &str) -> (r: ProbeResult)
    ensures
        status == 429 ==> rate_limited(r, "Reddit"@),
        status == 200 || status == 302 ==> r.is_plain("Reddit"@, ProbeStatus::Unlocked, None),
        status == 403 && has_seq(body@, "been blocked"@) ==> r.is_plain("Reddit"@, ProbeStatus::Blocked, None),
        status != 429 && status != 200 && status != 302 && !(status == 403 && has_seq(body@, "been blocked"@))
            ==> r.is_plain("Reddit"@, ProbeStatus::Unknown, None),
{
    if status == 429 {
        return ProbeResult::new("Reddit", ProbeStatus::Unknown, None).with_info("Rate Limited");
    }
    if status == 200 || status == 302 {
        return ProbeResult::new("Reddit", ProbeStatus::Unlocked, None);
    }
    let h = chars_of(body);
    if status == 403 && has_text(h.as_slice(), "been blocked") {
        return ProbeResult::new("Reddit", ProbeStatus::Blocked, None);
    }
    ProbeResult::unknown("Reddit")
}

/// Wikipedia editing: 200 editable; 429 rate-limited; anything else blocked.
pub fn parse_wikipedia(status: u16) -> (r: ProbeResult)
    ensures
        status == 200 ==> r.is_plain("Wikipedia"@, ProbeStatus::Unlocked, None),
        status == 429 ==> rate_limited(r, "Wikipedia"@),
        status != 200 && status != 429 ==> r.is_plain("Wikipedia"@, ProbeStatus::Blocked, None),
{
    match status {
        200 => ProbeResult::new("Wikipedia", ProbeStatus::Unlocked, None),
        429 => ProbeResult::new("Wikipedia", ProbeStatus::Unknown, None).with_info("Rate Limited"),
        _ => ProbeResult::new("Wikipedia", ProbeStatus::Blocked, None),
    }
}

/// OneTrust region: the country, followed by a space and the state when a
/// non-empty state name is present.
pub open spec fn onetrust_region(body: Seq<char>, country: Seq<char>) -> Seq<char> {
    match between_spec(body, "\"stateName\":\""@, "\""@) {
        Some(st) => if st.len() != 0 { country + seq![' '] + st } else { country },
        None => country,
    }
}

/// OneTrust geo feed: non-200 unknown; a country means unlocked, none blocked.
pub fn parse_onetrust(status: u16, body: &str) -> (r: ProbeResult)
    ensures
        status != 200 ==> r.is_plain("OneTrust"@, ProbeStatus::Unknown, None),
        status == 200 ==> match between_spec(body@, "\"country\":\""@, "\""@) {
            Some(c) => r.is_plain("OneTrust"@, ProbeStatus::Unlocked, Some(onetrust_region(body@, c))),
            None => r.is_plain("OneTrust"@, ProbeStatus::Blocked, None),
        },
{
    if status != 200 {
        return ProbeResult::unknown("OneTrust");
    }
    match between(body, "\"country\":\"", "\"") {
        Some(c) => {
            let region = match between(body, "\"stateName\":\"", "\"") {
                Some(st) => {
                    if !st.is_empty() {
                        let mut t = owned(c);
                        push_text(&mut t, " ");
                        push_text(&mut t, st);
                        proof { reveal_strlit(" "); assert(" "@ =~= seq![' ']); }
                        t
                    } else {
                        owned(c)
                    }
                }
                None => owned(c),
            };
            ProbeResult::new("OneTrust", ProbeStatus::Unlocked, Some(region))
        }
        None => ProbeResult::new("OneTrust", ProbeStatus::Blocked, None),
    }
}

/// The trimmed body is exactly two ASCII letters.
pub open spec fn apple_code_ok(body: Seq<char>) -> bool {
    let code = trim(body);
    code.len() == 2 && is_ascii_alpha(code[0]) && is_ascii_alpha(code[1])
}

/// Apple: the trimmed body of a 200 answer is a two-letter country code.
pub fn parse_apple(status: u16, body: &str) -> (r: ProbeResult)
    ensures
        status == 200 && apple_code_ok(body@)
            ==> r.is_plain("Apple"@, ProbeStatus::Unlocked, Some(unicode_lower(trim(body@)))),
        !(status == 200 && apple_code_ok(body@)) ==> r.is_plain("Apple"@, ProbeStatus::Blocked, None),
{
    let h = chars_of(body);
    let code = trim_chars(h.as_slice());
    if status == 200 && code.len() == 2 && (('a' <= code[0] && code[0] <= 'z') || ('A' <= code[0] && code[0] <= 'Z'))
        && (('a' <= code[1] && code[1] <= 'z') || ('A' <= code[1] && code[1] <= 'Z')) {
        let text = string_of(code.as_slice());
        return ProbeResult::new("Apple", ProbeStatus::Unlocked, Some(lower_text(text.as_str())));
    }
    ProbeResult::new("Apple", ProbeStatus::Blocked, None)
}

/// Steam store: the first two characters of the `steamCountry` cookie,
/// lower-cased, are the store region; without the cookie, or with a shorter
/// value, the store counts as blocked.
pub fn parse_steam(set_cookie: &str) -> (r: ProbeResult)
    ensures
        match cookie_spec(set_cookie@, "steamCountry"@) {
            Some(v) => if v.len() >= 2 {
                &&& r.name@ == "Steam"@
                &&& r.status == ProbeStatus::Unlocked
                &&& opt_view(r.region) == Some(unicode_lower(v.take(2)))
                &&& r.info matches Some(i) && i@ == "Community Available"@
            } else {
                r.is_plain("Steam"@, ProbeStatus::Blocked, None)
            },
            None => r.is_plain("Steam"@, ProbeStatus::Blocked, None),
        },
{
    match extract_cookie(set_cookie, "steamCountry") {
        Some(v) => {
            let cs = chars_of(v.as_str());
            if cs.len() >= 2 {
                let piece: Vec<char> = crate::text::slice_chars(cs.as_slice(), 0, 2);
                assert(piece@ =~= v@.take(2));
                let text = string_of(piece.as_slice());
                ProbeResult::new("Steam", ProbeStatus::Unlocked, Some(lower_text(text.as_str())))
                    .with_info("Community Available")
            } else {
                ProbeResult::new("Steam", ProbeStatus::Blocked, None)
            }
        }
        None => ProbeResult::new("Steam", ProbeStatus::Blocked, None),
    }
}

/// Probe for Bing; `base` is the service's origin.
pub struct Bing {
    pub base: String,
}

impl Default for Bing {
    fn default() -> (r: Self)
        ensures
            r.base@ == "https://www.bing.com"@,
    {
        Bing { base: owned("https://www.bing.com") }
    }
}

impl Bing {
    /// Display name of the service.
    pub fn name(&self) -> (r: &'static str)
        ensures
            r@ == "Bing"@,
    {
        "Bing"
    }
}

/// Probe for GoogleSearch; `base` is the service's origin.
pub struct GoogleSearch {
    pub base: String,
}

impl Default for GoogleSearch {
    fn default() -> (r: Self)
        ensures
            r.base@ == "https://www.google.com"@,
    {
        GoogleSearch { base: owned("https://www.google.com") }
    }
}

impl GoogleSearch {
    /// Display name of the service.
    pub fn name(&self) -> (r: &'static str)
        ensures
            r@ == "GoogleSearch"@,
    {
        "GoogleSearch"
    }

    /// Address the probe requests.
    pub fn url(&self) -> (u: String)
        ensures
            u@ == self.base@ + "/search?q=ipano-probe-check"@,
    {
        let mut u = self.base.clone();
        push_text(&mut u, "/search?q=ipano-probe-check");
        u
    }
}

/// Probe for Reddit; `base` is the service's origin.
pub struct Reddit {
    pub base: String,
}

impl Default for Reddit {
    fn default() -> (r: Self)
        ensures
            r.base@ == "https://www.reddit.com"@,
    {
        Reddit { base: owned("https://www.reddit.com") }
    }
}

impl Reddit {
    /// Display name of the service.
    pub fn name(&self) -> (r: &'static str)
        ensures
            r@ == "Reddit"@,
    {
        "Reddit"
    }

    /// Address the probe requests.
    pub fn url(&self) -> (u: String)
        ensures
            u@ == self.base@ + "/"@,
    {
        let mut u = self.base.clone();
        push_text(&mut u, "/");
        u
    }
}

/// Probe for Wikipedia; `base` is the service's origin.
pub struct Wikipedia {
    pub base: String,
}

impl Default for Wikipedia {
    fn default() -> (r: Self)
        ensures
            r.base@ == "https://zh.wikipedia.org"@,
    {
        Wikipedia { base: owned("https://zh.wikipedia.org") }
    }
}

impl Wikipedia {
    /// Display name of the service.
    pub fn name(&self) -> (r: &'static str)
        ensures
            r@ == "Wikipedia"@,
    {
        "Wikipedia"
    }

    /// Address the probe requests.
    pub fn url(&self) -> (u: String)
        ensures
            u@ == self.base@ + "/w/index.php?title=Wikipedia:%E6%B2%99%E7%9B%92&action=edit"@,
    {
        let mut u = self.base.clone();
        push_text(&mut u, "/w/index.php?title=Wikipedia:%E6%B2%99%E7%9B%92&action=edit");
        u
    }
}

/// Probe for OneTrust; `base` is the service's origin.
pub struct OneTrust {
    pub base: String,
}

impl Default for OneTrust {
    fn default() -> (r: Self)
        ensures
            r.base@ == "https://geolocation.onetrust.com"@,
    {
        OneTrust { base: owned("https://geolocation.onetrust.com") }
    }
}

impl OneTrust {
    /// Display name of the service.
    pub fn name(&self) -> (r: &'static str)
        ensures
            r@ == "OneTrust"@,
    {
        "OneTrust"
    }

    /// Address the probe requests.
    pub fn url(&self) -> (u: String)
        ensures
            u@ == self.base@ + "/cookieconsentpub/v1/geo/location/dnsfeed"@,
    {
        let mut u = self.base.clone();
        push_text(&mut u, "/cookieconsentpub/v1/geo/location/dnsfeed");
        u
    }
}

/// Probe for Apple; `base` is the service's origin.
pub struct Apple {
    pub base: String,
}

impl Default for Apple {
    fn default() -> (r: Self)
        ensures
            r.base@ == "https://gspe1-ssl.ls.apple.com"@,
    {
        Apple { base: owned("https://gspe1-ssl.ls.apple.com") }
    }
}

impl Apple {
    /// Display name of the service.
    pub fn name(&self) -> (r: &'static str)
        ensures
            r@ == "Apple"@,
    {
        "Apple"
    }

    /// Address the probe requests.
    pub fn url(&self) -> (u: String)
        ensures
            u@ == self.base@ + "/pep/gcc"@,
    {
        let mut u = self.base.clone();
        push_text(&mut u, "/pep/gcc");
        u
    }
}

/// Probe for Steam; `base` is the service's origin.
pub struct Steam {
    pub base: String,
}

impl Default for Steam {
    fn default() -> (r: Self)
        ensures
            r.base@ == "https://store.steampowered.com"@,
    {
        Steam { base: owned("https://store.steampowered.com") }
    }
}

impl Steam {
    /// Display name of the service.
    pub fn name(&self) -> (r: &'static str)
        ensures
            r@ == "Steam"@,
    {
        "Steam"
    }

    /// Address the probe requests.
    pub fn url(&self) -> (u: String)
        ensures
            u@ == self.base@ + "/"@,
    {
        let mut u = self.base.clone();
        push_text(&mut u, "/");
        u
    }
}

} // verus!
