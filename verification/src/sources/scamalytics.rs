//! Scamalytics: fraud score, risk level and anonymity flags (needs an account).

use vstd::prelude::*;
use crate::json::{Json, bool_of, bool_val, field, get_bool, get_i64, get_record, get_text, i64_of, i64_val, is_record, parse_json, parsed_json, rec_val, record_of, sub_field, text_of, text_val};
use crate::model::{SourceData, SourceDataV, SourceError, SourceErrorV, blank, outcome, opt_text};
use crate::sources::{bad_shape, shape_error, HttpRequest, get, secret, nonempty};
use crate::text::{owned, push_text};

verus! {

/// The response's `scamalytics`.
pub open spec fn f_scamalytics(doc: Json) -> Option<Json> {
    rec_val(field(doc, "scamalytics"@))
}

/// The response's `scamalytics.scamalytics_score`.
pub open spec fn f_scamalytics_scamalytics_score(doc: Json) -> Option<i64> {
    i64_val(sub_field(rec_val(field(doc, "scamalytics"@)), "scamalytics_score"@))
}

/// The response's `scamalytics.scamalytics_risk`.
pub open spec fn f_scamalytics_scamalytics_risk(doc: Json) -> Option<Seq<char>> {
    text_val(sub_field(rec_val(field(doc, "scamalytics"@)), "scamalytics_risk"@))
}

/// The response's `scamalytics.scamalytics_proxy.is_vpn`.
pub open spec fn f_scamalytics_scamalytics_proxy_is_vpn(doc: Json) -> Option<bool> {
    bool_val(sub_field(rec_val(sub_field(rec_val(field(doc, "scamalytics"@)), "scamalytics_proxy"@)), "is_vpn"@))
}

/// The response's `scamalytics.scamalytics_proxy.is_tor`.
pub open spec fn f_scamalytics_scamalytics_proxy_is_tor(doc: Json) -> Option<bool> {
    bool_val(sub_field(rec_val(sub_field(rec_val(field(doc, "scamalytics"@)), "scamalytics_proxy"@)), "is_tor"@))
}

/// The response's `scamalytics.scamalytics_proxy.is_datacenter`.
pub open spec fn f_scamalytics_scamalytics_proxy_is_datacenter(doc: Json) -> Option<bool> {
    bool_val(sub_field(rec_val(sub_field(rec_val(field(doc, "scamalytics"@)), "scamalytics_proxy"@)), "is_datacenter"@))
}

/// The response's `scamalytics.scamalytics_proxy.is_anonymous`.
pub open spec fn f_scamalytics_scamalytics_proxy_is_anonymous(doc: Json) -> Option<bool> {
    bool_val(sub_field(rec_val(sub_field(rec_val(field(doc, "scamalytics"@)), "scamalytics_proxy"@)), "is_anonymous"@))
}

/// The response has the fields and types the decoder expects.
pub open spec fn well_typed(doc: Json) -> bool {
    &&& is_record(doc)
    &&& record_of(field(doc, "scamalytics"@)) is Ok
    &&& i64_of(sub_field(rec_val(field(doc, "scamalytics"@)), "scamalytics_score"@)) is Ok
    &&& text_of(sub_field(rec_val(field(doc, "scamalytics"@)), "scamalytics_risk"@)) is Ok
    &&& record_of(sub_field(rec_val(field(doc, "scamalytics"@)), "scamalytics_proxy"@)) is Ok
    &&& bool_of(sub_field(rec_val(sub_field(rec_val(field(doc, "scamalytics"@)), "scamalytics_proxy"@)), "is_vpn"@)) is Ok
    &&& bool_of(sub_field(rec_val(sub_field(rec_val(field(doc, "scamalytics"@)), "scamalytics_proxy"@)), "is_tor"@)) is Ok
    &&& bool_of(sub_field(rec_val(sub_field(rec_val(field(doc, "scamalytics"@)), "scamalytics_proxy"@)), "is_datacenter"@)) is Ok
    &&& bool_of(sub_field(rec_val(sub_field(rec_val(field(doc, "scamalytics"@)), "scamalytics_proxy"@)), "is_anonymous"@)) is Ok
}

/// What a Scamalytics response means: without `scamalytics` it is a parse error; otherwise the score, the risk level as threat level, and the anonymity flags.
pub open spec fn decode(doc: Json) -> Result<SourceDataV, SourceErrorV> {
    if !well_typed(doc) {
        Err(bad_shape())
    } else {
        if f_scamalytics(doc) is None {
            Err(SourceErrorV::Parse("scamalytics 响应缺 scamalytics"@))
        } else {
            Ok(SourceDataV {
                fraud_score: f_scamalytics_scamalytics_score(doc),
                threat_level: f_scamalytics_scamalytics_risk(doc),
                is_vpn: f_scamalytics_scamalytics_proxy_is_vpn(doc),
                is_tor: f_scamalytics_scamalytics_proxy_is_tor(doc),
                is_datacenter: f_scamalytics_scamalytics_proxy_is_datacenter(doc),
                is_anonymous: f_scamalytics_scamalytics_proxy_is_anonymous(doc),
                ..blank("scam"@)
            })
        }
    }
}

/// Decodes a parsed Scamalytics response (see `decode`).
pub fn from_json(doc: &Json) -> (r: Result<SourceData, SourceError>)
    ensures
        outcome(r) == decode(*doc),
{
    if !matches!(doc, Json::Obj(_)) {
        return Err(shape_error());
    }
    let v_scamalytics = match get_record(doc, "scamalytics") { Ok(x) => x, Err(_) => return Err(shape_error()), };
    let v_scamalytics_scamalytics_score = match v_scamalytics { Some(c) => match get_i64(c, "scamalytics_score") { Ok(x) => x, Err(_) => return Err(shape_error()), }, None => None };
    let v_scamalytics_scamalytics_risk = match v_scamalytics { Some(c) => match get_text(c, "scamalytics_risk") { Ok(x) => x, Err(_) => return Err(shape_error()), }, None => None };
    let v_scamalytics_scamalytics_proxy = match v_scamalytics { Some(c) => match get_record(c, "scamalytics_proxy") { Ok(x) => x, Err(_) => return Err(shape_error()), }, None => None };
    let v_scamalytics_scamalytics_proxy_is_vpn = match v_scamalytics_scamalytics_proxy { Some(c) => match get_bool(c, "is_vpn") { Ok(x) => x, Err(_) => return Err(shape_error()), }, None => None };
    let v_scamalytics_scamalytics_proxy_is_tor = match v_scamalytics_scamalytics_proxy { Some(c) => match get_bool(c, "is_tor") { Ok(x) => x, Err(_) => return Err(shape_error()), }, None => None };
    let v_scamalytics_scamalytics_proxy_is_datacenter = match v_scamalytics_scamalytics_proxy { Some(c) => match get_bool(c, "is_datacenter") { Ok(x) => x, Err(_) => return Err(shape_error()), }, None => None };
    let v_scamalytics_scamalytics_proxy_is_anonymous = match v_scamalytics_scamalytics_proxy { Some(c) => match get_bool(c, "is_anonymous") { Ok(x) => x, Err(_) => return Err(shape_error()), }, None => None };
    if v_scamalytics.is_none() {
        return Err(SourceError::Parse(owned("scamalytics 响应缺 scamalytics")));
    }
    let mut d = SourceData::new("scam");
    d.fraud_score = v_scamalytics_scamalytics_score;
    d.threat_level = v_scamalytics_scamalytics_risk;
    d.is_vpn = v_scamalytics_scamalytics_proxy_is_vpn;
    d.is_tor = v_scamalytics_scamalytics_proxy_is_tor;
    d.is_datacenter = v_scamalytics_scamalytics_proxy_is_datacenter;
    d.is_anonymous = v_scamalytics_scamalytics_proxy_is_anonymous;
    Ok(d)
}

/// Parses a Scamalytics response body: a body that is not JSON is a `Parse`
/// error with the JSON parser's message; a parsed document is decoded by
/// `from_json`.
pub fn parse(body: &str) -> (r: Result<SourceData, SourceError>)
    ensures
        outcome(r) == match parsed_json(body@) {
            Ok(doc) => decode(doc),
            Err(e) => Err(SourceErrorV::Parse(e)),
        },
{
    match parse_json(body) {
        Ok(doc) => from_json(&doc),
        Err(e) => Err(SourceError::Parse(e)),
    }
}

/// The Scamalytics source: `base` is the service's origin, `user` and `key`
/// the account (configured as `IPANO_SCAMALYTICS_USER` and
/// `IPANO_SCAMALYTICS_KEY`).
pub struct Scamalytics {
    pub base: String,
    pub user: Option<String>,
    pub key: Option<String>,
}

impl Default for Scamalytics {
    /// The service's default origin, with no account.
    fn default() -> (r: Self)
        ensures
            r.base@ == "https://api12.scamalytics.com"@,
            r.user is None,
            r.key is None,
    {
        Scamalytics { base: owned("https://api12.scamalytics.com"), user: None, key: None }
    }
}

impl Scamalytics {
    /// The configured origin (the default where empty or absent), user and key
    /// (empty values count as none).
    pub fn configured(base: Option<String>, user: Option<String>, key: Option<String>) -> (r: Self)
        ensures
            r.base@ == (match secret(opt_text(base)) { Some(b) => b, None => "https://api12.scamalytics.com"@ }),
            opt_text(r.user) == secret(opt_text(user)),
            opt_text(r.key) == secret(opt_text(key)),
    {
        let b = match nonempty(base) {
            Some(b) => b,
            None => owned("https://api12.scamalytics.com"),
        };
        Scamalytics { base: b, user: nonempty(user), key: nonempty(key) }
    }

    /// The source's id in reports.
    pub fn id(&self) -> (r: &'static str)
        ensures
            r@ == "scam"@,
    {
        "scam"
    }

    /// The lookup request for `ip`; without a key, or else without a user,
    /// the source needs that setting.
    pub fn request(&self, ip: &str) -> (r: Result<HttpRequest, SourceError>)
        ensures
            self.key is None ==> (r matches Err(e) && e@ == SourceErrorV::NeedsKey("IPANO_SCAMALYTICS_KEY"@)),
            (self.key is Some && self.user is None) ==> (r matches Err(e)
                && e@ == SourceErrorV::NeedsKey("IPANO_SCAMALYTICS_USER"@)),
            (self.key matches Some(k) && self.user matches Some(u)) ==> (r matches Ok(q)
                && q.url@ == self.base@ + "/"@ + self.user->0@ + "/?key="@ + self.key->0@ + "&ip="@ + ip@
                && q.headers@.len() == 0),
    {
        let k = match &self.key {
            Some(k) => k,
            None => return Err(SourceError::NeedsKey(owned("IPANO_SCAMALYTICS_KEY"))),
        };
        let user = match &self.user {
            Some(u) => u,
            None => return Err(SourceError::NeedsKey(owned("IPANO_SCAMALYTICS_USER"))),
        };
        let mut u = self.base.clone();
        push_text(&mut u, "/");
        push_text(&mut u, user.as_str());
        push_text(&mut u, "/?key=");
        push_text(&mut u, k.as_str());
        push_text(&mut u, "&ip=");
        push_text(&mut u, ip);
        Ok(get(u))
    }

    /// Outcome of a response: 429 means rate limited; any other status is
    /// decoded from the body.
    pub fn interpret(&self, status: u16, body: &str) -> (r: Result<SourceData, SourceError>)
        ensures
            status == 429 ==> outcome(r) == Err::<SourceDataV, SourceErrorV>(SourceErrorV::RateLimited),
            status != 429 ==> outcome(r) == match parsed_json(body@) {
                Ok(doc) => decode(doc),
                Err(e) => Err(SourceErrorV::Parse(e)),
            },
    {
        if status == 429 {
            return Err(SourceError::RateLimited);
        }
        parse(body)
    }
}

} // verus!
