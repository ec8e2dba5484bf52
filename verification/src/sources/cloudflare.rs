//! Cloudflare Radar: the AS of an address, then that AS's human/bot traffic
//! shares and device-type distribution (needs an API token).

use vstd::prelude::*;
use crate::json::{
    Json, field, get_record, get_text, get_u32, is_record, parse_json, parsed_json, rec_val, record_of, sub_field,
    text_of, text_val, u32_of, u32_val,
};
use crate::numtext::{float_of, float_text_of};
use crate::model::{SourceData, SourceDataV, SourceError, SourceErrorV, blank, opt_text, outcome};
use crate::sources::{HttpRequest, nonempty, secret};
use crate::text::{dec_text, owned, push_text, uint_text};

verus! {

/// The AS number at `result.asn.asn`, where the response is well typed.
pub open spec fn asn_in(doc: Json) -> Result<Option<u32>, ()> {
    let result = field(doc, "result"@);
    let asn = sub_field(rec_val(result), "asn"@);
    let num = sub_field(rec_val(asn), "asn"@);
    if is_record(doc) && record_of(result) is Ok && record_of(asn) is Ok && u32_of(num) is Ok {
        Ok(u32_val(num))
    } else {
        Err(())
    }
}

pub open spec fn no_asn() -> SourceErrorV {
    SourceErrorV::Parse("CF: 无法从响应解析 ASN"@)
}

/// The AS number of a parsed AS lookup (see `asn_in`).
pub fn asn_from_doc(doc: &Json) -> (r: Result<u32, SourceError>)
    ensures
        match r {
            Ok(a) => asn_in(*doc) == Ok::<Option<u32>, ()>(Some(a)),
            Err(e) => (asn_in(*doc) is Err && e@ == crate::sources::bad_shape())
                || (asn_in(*doc) == Ok::<Option<u32>, ()>(None) && e@ == no_asn()),
        },
{
    if !matches!(doc, Json::Obj(_)) {
        return Err(crate::sources::shape_error());
    }
    let result = match get_record(doc, "result") {
        Ok(v) => v,
        Err(_) => return Err(crate::sources::shape_error()),
    };
    let asn = match result {
        Some(r) => match get_record(r, "asn") {
            Ok(v) => v,
            Err(_) => return Err(crate::sources::shape_error()),
        },
        None => None,
    };
    let num = match asn {
        Some(a) => match get_u32(a, "asn") {
            Ok(v) => v,
            Err(_) => return Err(crate::sources::shape_error()),
        },
        None => None,
    };
    match num {
        Some(n) => Ok(n),
        None => Err(SourceError::Parse(owned("CF: 无法从响应解析 ASN"))),
    }
}

/// The AS number in an AS-lookup response body: a body that is not JSON is a
/// `Parse` error with the parser's message; see `asn_from_doc` otherwise.
pub fn parse_asn(body: &str) -> (r: Result<u32, SourceError>)
    ensures
        match parsed_json(body@) {
            Err(m) => r matches Err(e) && e@ == SourceErrorV::Parse(m),
            Ok(doc) => match r {
                Ok(a) => asn_in(doc) == Ok::<Option<u32>, ()>(Some(a)),
                Err(e) => (asn_in(doc) is Err && e@ == crate::sources::bad_shape())
                    || (asn_in(doc) == Ok::<Option<u32>, ()>(None) && e@ == no_asn()),
            },
        },
{
    match parse_json(body) {
        Ok(doc) => asn_from_doc(&doc),
        Err(e) => Err(SourceError::Parse(e)),
    }
}

/// A traffic share given as text: the text where `f64` parsing accepts it,
/// otherwise (or where absent) zero.
pub open spec fn share_or_zero(v: Option<Seq<char>>) -> Seq<char> {
    match v {
        Some(t) => match float_of(t) {
            Some(x) => x,
            None => "0"@,
        },
        None => "0"@,
    }
}

pub open spec fn no_bot_summary() -> SourceErrorV {
    SourceErrorV::Parse("CF: bot_class 缺 summary_0"@)
}

/// The (human, bot) shares of a parsed bot-class response: `result.summary_0`
/// with optional text members `human` and `bot`; a response of another shape
/// is a shape error, one without the summary has none.
pub open spec fn bot_shares(doc: Json) -> Result<(Seq<char>, Seq<char>), SourceErrorV> {
    let result = field(doc, "result"@);
    let summary = sub_field(rec_val(result), "summary_0"@);
    let bot = sub_field(rec_val(summary), "bot"@);
    let human = sub_field(rec_val(summary), "human"@);
    if !(is_record(doc) && record_of(result) is Ok && record_of(summary) is Ok && text_of(bot) is Ok
        && text_of(human) is Ok) {
        Err(crate::sources::bad_shape())
    } else if rec_val(summary) is None {
        Err(no_bot_summary())
    } else {
        Ok((share_or_zero(text_val(human)), share_or_zero(text_val(bot))))
    }
}

fn share_text(v: Option<String>) -> (r: String)
    ensures
        r@ == share_or_zero(opt_text(v)),
{
    let z = owned("0");
    proof {
        reveal_strlit("0");
    }
    match v {
        Some(t) => match float_text_of(t.as_str()) {
            Some(x) => x,
            None => z,
        },
        None => z,
    }
}

/// The (human, bot) shares of a parsed bot-class response (see `bot_shares`).
pub fn bot_from_doc(doc: &Json) -> (r: Result<(String, String), SourceError>)
    ensures
        match r {
            Ok((h, b)) => bot_shares(*doc) == Ok::<(Seq<char>, Seq<char>), SourceErrorV>((h@, b@)),
            Err(e) => bot_shares(*doc) == Err::<(Seq<char>, Seq<char>), SourceErrorV>(e@),
        },
{
    if !matches!(doc, Json::Obj(_)) {
        return Err(crate::sources::shape_error());
    }
    let result = match get_record(doc, "result") {
        Ok(v) => v,
        Err(_) => return Err(crate::sources::shape_error()),
    };
    let summary = match result {
        Some(r) => match get_record(r, "summary_0") {
            Ok(v) => v,
            Err(_) => return Err(crate::sources::shape_error()),
        },
        None => None,
    };
    match summary {
        Some(sm) => {
            let bot = match get_text(sm, "bot") {
                Ok(v) => v,
                Err(_) => return Err(crate::sources::shape_error()),
            };
            let human = match get_text(sm, "human") {
                Ok(v) => v,
                Err(_) => return Err(crate::sources::shape_error()),
            };
            Ok((share_text(human), share_text(bot)))
        },
        None => Err(SourceError::Parse(owned("CF: bot_class 缺 summary_0"))),
    }
}

/// The (human, bot) traffic shares in a bot-class response body: a body that
/// is not JSON is a `Parse` error with the parser's message; see
/// `bot_shares` otherwise.
pub fn parse_bot(body: &str) -> (r: Result<(String, String), SourceError>)
    ensures
        match parsed_json(body@) {
            Err(m) => r matches Err(e) && e@ == SourceErrorV::Parse(m),
            Ok(doc) => match r {
                Ok((h, b)) => bot_shares(doc) == Ok::<(Seq<char>, Seq<char>), SourceErrorV>((h@, b@)),
                Err(e) => bot_shares(doc) == Err::<(Seq<char>, Seq<char>), SourceErrorV>(e@),
            },
        },
{
    match parse_json(body) {
        Ok(doc) => bot_from_doc(&doc),
        Err(e) => Err(SourceError::Parse(e)),
    }
}

/// Every member's value is a text.
pub open spec fn all_texts(es: Seq<(String, Json)>) -> bool {
    forall|i: int| 0 <= i < es.len() ==> (#[trigger] es[i]).1 is Str
}

/// `"name value%"` for every member, joined by single spaces.
pub open spec fn shares_text(es: Seq<(String, Json)>) -> Seq<char>
    decreases es.len(),
{
    if es.len() == 0 {
        Seq::empty()
    } else {
        let e = es.last();
        let item = e.0@ + " "@ + (match e.1 { Json::Str(v) => v@, _ => Seq::empty() }) + "%"@;
        if es.len() == 1 { item } else { shares_text(es.drop_last()) + " "@ + item }
    }
}

/// The device-type distribution of a parsed response: the members of
/// `result.summary_0` (all texts, in the document's key order) as
/// `"name value%"` joined by spaces; none where the response is not of that
/// shape or the summary is empty.
pub open spec fn device_summary(doc: Json) -> Option<Seq<char>> {
    let result = field(doc, "result"@);
    let summary = sub_field(rec_val(result), "summary_0"@);
    if is_record(doc) && record_of(result) is Ok && record_of(summary) is Ok {
        match rec_val(summary) {
            Some(Json::Obj(es)) => if all_texts(es@) && es@.len() > 0 { Some(shares_text(es@)) } else { None },
            _ => None,
        }
    } else {
        None
    }
}

/// The device-type distribution of a parsed response (see `device_summary`).
pub fn device_from_doc(doc: &Json) -> (r: Option<String>)
    ensures
        opt_text(r) == device_summary(*doc),
{
    if !matches!(doc, Json::Obj(_)) {
        return None;
    }
    let result = match get_record(doc, "result") {
        Ok(v) => v,
        Err(_) => return None,
    };
    let summary = match result {
        Some(r) => match get_record(r, "summary_0") {
            Ok(v) => v,
            Err(_) => return None,
        },
        None => None,
    };
    let es = match summary {
        Some(Json::Obj(es)) => es,
        _ => return None,
    };
    if es.len() == 0 {
        return None;
    }
    let mut out = String::new();
    let mut i: usize = 0;
    assert(device_summary(*doc) == (if all_texts(es@) { Some(shares_text(es@)) } else { None::<Seq<char>> }));
    while i < es.len()
        invariant
            i <= es@.len(),
            es@.len() > 0,
            device_summary(*doc) == (if all_texts(es@) { Some(shares_text(es@)) } else { None::<Seq<char>> }),
            all_texts(es@.take(i as int)),
            out@ == shares_text(es@.take(i as int)),
        decreases es.len() - i,
    {
        assert(es@.take(i + 1).drop_last() =~= es@.take(i as int));
        assert(es@.take(i + 1).last() == es@[i as int]);
        let v = match &es[i].1 {
            Json::Str(v) => v,
            _ => {
                proof {
                    assert(!all_texts(es@));
                    assert(es@[i as int].1 !is Str);
                }
                return None;
            },
        };
        if i > 0 {
            push_text(&mut out, " ");
        }
        push_text(&mut out, es[i].0.as_str());
        push_text(&mut out, " ");
        push_text(&mut out, v.as_str());
        push_text(&mut out, "%");
        proof {
            assert forall|k: int| 0 <= k < i + 1 implies (#[trigger] es@.take(i + 1)[k]).1 is Str by {
                if k < i {
                    assert(es@.take(i + 1)[k] == es@.take(i as int)[k]);
                }
            }
        }
        i += 1;
    }
    assert(es@.take(es@.len() as int) =~= es@);
    Some(out)
}

/// The device-type distribution in a response body (none where the body is
/// not JSON; see `device_summary`).
pub fn parse_device(body: &str) -> (r: Option<String>)
    ensures
        opt_text(r) == match parsed_json(body@) {
            Ok(doc) => device_summary(doc),
            Err(_) => None,
        },
{
    match parse_json(body) {
        Ok(doc) => device_from_doc(&doc),
        Err(_) => None,
    }
}

/// The source's record from the traffic shares (human, bot; as decimal text)
/// and the device distribution.
pub open spec fn radar_record(traffic: Option<(Seq<char>, Seq<char>)>, device: Option<Seq<char>>) -> SourceDataV {
    SourceDataV {
        human_traffic_pct: match traffic { Some(t) => Some(t.0), None => None },
        bot_traffic_pct: match traffic { Some(t) => Some(t.1), None => None },
        device_dist: device,
        ..blank("cf"@)
    }
}

/// The outcome of the AS's aggregates: unavailable where neither the traffic
/// shares nor the device distribution could be had; otherwise the record.
pub fn build_data(traffic: Option<(String, String)>, device_dist: Option<String>) -> (r: Result<SourceData, SourceError>)
    ensures
        (traffic is None && device_dist is None) ==> outcome(r) == Err::<SourceDataV, SourceErrorV>(
            SourceErrorV::Unavailable("CF: 无可用 Radar 聚合数据"@)),
        !(traffic is None && device_dist is None) ==> outcome(r) == Ok::<SourceDataV, SourceErrorV>(radar_record(
            match traffic { Some(t) => Some((t.0@, t.1@)), None => None },
            opt_text(device_dist),
        )),
{
    if traffic.is_none() && device_dist.is_none() {
        return Err(SourceError::Unavailable(owned("CF: 无可用 Radar 聚合数据")));
    }
    let mut d = SourceData::new("cf");
    match traffic {
        Some((h, b)) => {
            d.human_traffic_pct = Some(h);
            d.bot_traffic_pct = Some(b);
        },
        None => {},
    }
    d.device_dist = device_dist;
    Ok(d)
}

/// The Cloudflare Radar source: `base` is the API origin, `key` the API token
/// (configured as `IPANO_CF_TOKEN`).
pub struct Cloudflare {
    pub base: String,
    pub key: Option<String>,
}

impl Default for Cloudflare {
    /// The API origin, with no token.
    fn default() -> (r: Self)
        ensures
            r.base@ == "https://api.cloudflare.com/client/v4"@,
            r.key is None,
    {
        Cloudflare { base: owned("https://api.cloudflare.com/client/v4"), key: None }
    }
}

/// A request with the bearer token.
pub open spec fn bearer(url: Seq<char>, key: Seq<char>, q: HttpRequest) -> bool {
    &&& q.url@ == url
    &&& q.headers@.map_values(|h: (String, String)| (h.0@, h.1@)) == seq![("Authorization"@, "Bearer "@ + key)]
}

fn with_bearer(url: String, key: &String) -> (q: HttpRequest)
    ensures
        bearer(url@, key@, q),
{
    let mut b = owned("Bearer ");
    push_text(&mut b, key.as_str());
    let hs: Vec<(String, String)> = vec![(owned("Authorization"), b)];
    let q = HttpRequest { url, headers: hs };
    assert(q.headers@.map_values(|h: (String, String)| (h.0@, h.1@)) =~= seq![("Authorization"@, "Bearer "@ + key@)]);
    q
}

impl Cloudflare {
    /// The API origin, with the configured token (an empty value counts as none).
    pub fn with_key(value: Option<String>) -> (r: Self)
        ensures
            r.base@ == "https://api.cloudflare.com/client/v4"@,
            opt_text(r.key) == secret(opt_text(value)),
    {
        Cloudflare { base: owned("https://api.cloudflare.com/client/v4"), key: nonempty(value) }
    }

    /// The source's id in reports.
    pub fn id(&self) -> (r: &'static str)
        ensures
            r@ == "cf"@,
    {
        "cf"
    }

    /// The AS lookup for `ip`; without a token the source needs one.
    pub fn asn_request(&self, ip: &str) -> (r: Result<HttpRequest, SourceError>)
        ensures
            self.key is None ==> (r matches Err(e) && e@ == SourceErrorV::NeedsKey("IPANO_CF_TOKEN"@)),
            self.key matches Some(k) ==> (r matches Ok(q) && bearer(self.base@ + "/radar/entities/asns/ip?ip="@ + ip@, k@, q)),
    {
        let k = match &self.key {
            Some(k) => k,
            None => return Err(SourceError::NeedsKey(owned("IPANO_CF_TOKEN"))),
        };
        let mut u = self.base.clone();
        push_text(&mut u, "/radar/entities/asns/ip?ip=");
        push_text(&mut u, ip);
        Ok(with_bearer(u, k))
    }

    fn summary_request(&self, path: &str, asn: u32) -> (r: Result<HttpRequest, SourceError>)
        ensures
            self.key is None ==> (r matches Err(e) && e@ == SourceErrorV::NeedsKey("IPANO_CF_TOKEN"@)),
            self.key matches Some(k) ==> (r matches Ok(q) && bearer(self.base@ + path@
                + dec_text(asn as nat) + "&dateRange=7d"@, k@, q)),
    {
        let k = match &self.key {
            Some(k) => k,
            None => return Err(SourceError::NeedsKey(owned("IPANO_CF_TOKEN"))),
        };
        let mut u = self.base.clone();
        push_text(&mut u, path);
        let a = uint_text(asn as u64);
        push_text(&mut u, a.as_str());
        push_text(&mut u, "&dateRange=7d");
        Ok(with_bearer(u, k))
    }

    /// The bot/human traffic summary of an AS over 7 days.
    pub fn bot_request(&self, asn: u32) -> (r: Result<HttpRequest, SourceError>)
        ensures
            self.key is None ==> (r matches Err(e) && e@ == SourceErrorV::NeedsKey("IPANO_CF_TOKEN"@)),
            self.key matches Some(k) ==> (r matches Ok(q) && bearer(self.base@ + "/radar/http/summary/bot_class?asn="@
                + dec_text(asn as nat) + "&dateRange=7d"@, k@, q)),
    {
        self.summary_request("/radar/http/summary/bot_class?asn=", asn)
    }

    /// The device-type summary of an AS over 7 days.
    pub fn device_request(&self, asn: u32) -> (r: Result<HttpRequest, SourceError>)
        ensures
            self.key is None ==> (r matches Err(e) && e@ == SourceErrorV::NeedsKey("IPANO_CF_TOKEN"@)),
            self.key matches Some(k) ==> (r matches Ok(q) && bearer(self.base@ + "/radar/http/summary/device_type?asn="@
                + dec_text(asn as nat) + "&dateRange=7d"@, k@, q)),
    {
        self.summary_request("/radar/http/summary/device_type?asn=", asn)
    }
}

} // verus!
