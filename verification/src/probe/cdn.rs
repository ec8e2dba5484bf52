//! CDN probes: the Netflix CDN location from fast.com's speed-test API and
//! the reachability of YouTube's video redirector.

use vstd::prelude::*;
use crate::json::{Json, field, get_field, get_record, get_text, is_record, parse_json, parsed_json, rec_val, record_of, sub_field, text_of, text_val};
use crate::probe::{ProbeResult, ProbeStatus};
use crate::probe::streaming::refused;
use crate::probe::unlock_util::{lower_text, unicode_lower};
use crate::text::{chars_of, has_seq, has_text, owned, push_text, trim, trim_chars};

verus! {

/// A location: absent, `null`, or an object with an optional text `country`.
pub open spec fn location_ok(v: Option<Json>) -> bool {
    record_of(v) is Ok && text_of(sub_field(rec_val(v), "country"@)) is Ok
}

/// A target: an object whose `location` is well typed.
pub open spec fn target_ok(t: Json) -> bool {
    is_record(t) && location_ok(field(t, "location"@))
}

/// The targets: absent, `null`, or an array of well-typed targets.
pub open spec fn targets_ok(v: Option<Json>) -> bool {
    match v {
        None => true,
        Some(Json::Null) => true,
        Some(Json::Arr(items)) => forall|i: int| 0 <= i < items@.len() ==> target_ok(#[trigger] items@[i]),
        _ => false,
    }
}

/// The speed-test answer has the shape the probe reads.
pub open spec fn fast_ok(doc: Json) -> bool {
    is_record(doc) && targets_ok(field(doc, "targets"@))
}

/// The country of the first target's location.
pub open spec fn fast_country(doc: Json) -> Option<Seq<char>> {
    match field(doc, "targets"@) {
        Some(Json::Arr(items)) => if items@.len() > 0 {
            text_val(sub_field(rec_val(field(items@[0], "location"@)), "country"@))
        } else {
            None
        },
        _ => None,
    }
}

/// Netflix CDN over a parsed 200 answer: a non-empty country of the first
/// target means reachable there (country in lower case); anything else unknown.
pub open spec fn netflix_cdn_doc(doc: Json) -> (ProbeStatus, Option<Seq<char>>) {
    if fast_ok(doc) && (fast_country(doc) matches Some(c) && c.len() > 0) {
        (ProbeStatus::Unlocked, Some(unicode_lower(fast_country(doc)->0)))
    } else {
        (ProbeStatus::Unknown, None)
    }
}

fn target_checks(t: &Json) -> (r: bool)
    ensures
        r == target_ok(*t),
{
    if !matches!(t, Json::Obj(_)) {
        return false;
    }
    let loc = match get_record(t, "location") {
        Ok(v) => v,
        Err(_) => return false,
    };
    match loc {
        Some(l) => get_text(l, "country").is_ok(),
        None => true,
    }
}

/// Netflix CDN over a parsed 200 answer (see `netflix_cdn_doc`).
pub fn netflix_cdn_from_doc(doc: &Json) -> (r: ProbeResult)
    ensures
        r.is_plain("Netflix CDN"@, netflix_cdn_doc(*doc).0, netflix_cdn_doc(*doc).1),
{
    if !matches!(doc, Json::Obj(_)) {
        return ProbeResult::unknown("Netflix CDN");
    }
    let items = match get_field(doc, "targets") {
        None => return ProbeResult::unknown("Netflix CDN"),
        Some(Json::Null) => return ProbeResult::unknown("Netflix CDN"),
        Some(Json::Arr(items)) => items,
        Some(_) => return ProbeResult::unknown("Netflix CDN"),
    };
    let mut i: usize = 0;
    while i < items.len()
        invariant
            i <= items@.len(),
            forall|j: int| 0 <= j < i ==> target_ok(#[trigger] items@[j]),
            field(*doc, "targets"@) == Some(Json::Arr(*items)),
        decreases items.len() - i,
    {
        if !target_checks(&items[i]) {
            return ProbeResult::unknown("Netflix CDN");
        }
        i += 1;
    }
    if items.len() == 0 {
        return ProbeResult::unknown("Netflix CDN");
    }
    let country = match get_record(&items[0], "location") {
        Ok(Some(l)) => match get_text(l, "country") {
            Ok(c) => c,
            Err(_) => None,
        },
        _ => None,
    };
    match country {
        Some(c) => {
            if c.as_str().is_empty() {
                ProbeResult::unknown("Netflix CDN")
            } else {
                ProbeResult::new("Netflix CDN", ProbeStatus::Unlocked, Some(lower_text(c.as_str())))
            }
        },
        None => ProbeResult::unknown("Netflix CDN"),
    }
}

/// Netflix CDN: 403/451 blocked (the address is banned by Netflix); 200 read
/// from the answer (see `netflix_cdn_doc`); anything else, or an answer that
/// is not JSON, unknown.
pub fn parse_netflix_cdn(status: u16, body: &str) -> (r: ProbeResult)
    ensures
        refused(status) ==> (r.name@ == "Netflix CDN"@ && r.status == ProbeStatus::Blocked && r.region is None
            && (r.info matches Some(i) && i@ == "IP Banned By Netflix"@)),
        status == 200 ==> match parsed_json(body@) {
            Ok(doc) => r.is_plain("Netflix CDN"@, netflix_cdn_doc(doc).0, netflix_cdn_doc(doc).1),
            Err(_) => r.is_plain("Netflix CDN"@, ProbeStatus::Unknown, None),
        },
        !refused(status) && status != 200 ==> r.is_plain("Netflix CDN"@, ProbeStatus::Unknown, None),
{
    if status == 403 || status == 451 {
        return ProbeResult::new("Netflix CDN", ProbeStatus::Blocked, None).with_info("IP Banned By Netflix");
    }
    if status == 200 {
        match parse_json(body) {
            Ok(doc) => return netflix_cdn_from_doc(&doc),
            Err(_) => {},
        }
    }
    ProbeResult::unknown("Netflix CDN")
}

/// YouTube CDN: 403/451 blocked; 200 with a non-blank body reachable, noted
/// as a Google Global Cache / video server where the mapping shows `=>`;
/// anything else unknown.
pub fn parse_youtube_cdn(status: u16, body: &str) -> (r: ProbeResult)
    ensures
        refused(status) ==> r.is_plain("YouTube CDN"@, ProbeStatus::Blocked, None),
        status == 200 && trim(body@).len() > 0 ==> (r.name@ == "YouTube CDN"@ && r.status == ProbeStatus::Unlocked
            && r.region is None && (r.info matches Some(i) && i@ == (if has_seq(body@, "=>"@) {
                "GGC / Video Server"@
            } else {
                "Reachable"@
            }))),
        !refused(status) && !(status == 200 && trim(body@).len() > 0) ==> r.is_plain("YouTube CDN"@, ProbeStatus::Unknown, None),
{
    if status == 403 || status == 451 {
        return ProbeResult::new("YouTube CDN", ProbeStatus::Blocked, None);
    }
    let cs = chars_of(body);
    let t = trim_chars(cs.as_slice());
    if status == 200 && t.len() > 0 {
        let info = if has_text(cs.as_slice(), "=>") { "GGC / Video Server" } else { "Reachable" };
        return ProbeResult::new("YouTube CDN", ProbeStatus::Unlocked, None).with_info(info);
    }
    ProbeResult::unknown("YouTube CDN")
}

/// Probe for the Netflix CDN; `base` is the speed-test API's origin.
pub struct NetflixCdn {
    pub base: String,
}

impl Default for NetflixCdn {
    fn default() -> (r: Self)
        ensures
            r.base@ == "https://api.fast.com"@,
    {
        NetflixCdn { base: owned("https://api.fast.com") }
    }
}

impl NetflixCdn {
    /// Display name of the probe.
    pub fn name(&self) -> (r: &'static str)
        ensures
            r@ == "Netflix CDN"@,
    {
        "Netflix CDN"
    }

    /// Address the probe requests (with fast.com's public token).
    pub fn url(&self) -> (u: String)
        ensures
            u@ == self.base@ + "/netflix/speedtest/v2?https=true&token=YXNkZmFzZGxmbnNkYWZoYXNkZmhrYWxm&urlCount=5"@,
    {
        let mut u = self.base.clone();
        push_text(&mut u, "/netflix/speedtest/v2?https=true&token=YXNkZmFzZGxmbnNkYWZoYXNkZmhrYWxm&urlCount=5");
        u
    }
}

/// Probe for the YouTube CDN; `base` is the redirector's origin.
pub struct YoutubeCdn {
    pub base: String,
}

impl Default for YoutubeCdn {
    fn default() -> (r: Self)
        ensures
            r.base@ == "https://redirector.googlevideo.com"@,
    {
        YoutubeCdn { base: owned("https://redirector.googlevideo.com") }
    }
}

impl YoutubeCdn {
    /// Display name of the probe.
    pub fn name(&self) -> (r: &'static str)
        ensures
            r@ == "YouTube CDN"@,
    {
        "YouTube CDN"
    }

    /// Address the probe requests.
    pub fn url(&self) -> (u: String)
        ensures
            u@ == self.base@ + "/report_mapping"@,
    {
        let mut u = self.base.clone();
        push_text(&mut u, "/report_mapping");
        u
    }
}

} // verus!
