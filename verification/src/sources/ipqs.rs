//! IPQualityScore: fraud score and proxy, VPN, Tor, crawler, mobile and abuse flags (needs an API key).

use vstd::prelude::*;
use crate::json::{Json, bool_of, bool_val, field, get_bool, get_i64, get_text, get_u32, i64_of, i64_val, is_record, parse_json, parsed_json, text_of, text_val, u32_of, u32_val};
use crate::model::{SourceData, SourceDataV, SourceError, SourceErrorV, blank, outcome, opt_text};
use crate::sources::{bad_shape, shape_error, HttpRequest, get, secret, nonempty};
use crate::text::{owned, push_text};

verus! {

/// The response's `success`.
pub open spec fn f_success(doc: Json) -> Option<bool> {
    bool_val(field(doc, "success"@))
}

/// The response's `message`.
pub open spec fn f_message(doc: Json) -> Option<Seq<char>> {
    text_val(field(doc, "message"@))
}

/// The response's `fraud_score`.
pub open spec fn f_fraud_score(doc: Json) -> Option<i64> {
    i64_val(field(doc, "fraud_score"@))
}

/// The response's `country_code`.
pub open spec fn f_country_code(doc: Json) -> Option<Seq<char>> {
    text_val(field(doc, "country_code"@))
}

/// The response's `region`.
pub open spec fn f_region(doc: Json) -> Option<Seq<char>> {
    text_val(field(doc, "region"@))
}

/// The response's `city`.
pub open spec fn f_city(doc: Json) -> Option<Seq<char>> {
    text_val(field(doc, "city"@))
}

/// The response's `ISP`.
pub open spec fn f_isp(doc: Json) -> Option<Seq<char>> {
    text_val(field(doc, "ISP"@))
}

/// The response's `ASN`.
pub open spec fn f_asn(doc: Json) -> Option<u32> {
    u32_val(field(doc, "ASN"@))
}

/// The response's `organization`.
pub open spec fn f_organization(doc: Json) -> Option<Seq<char>> {
    text_val(field(doc, "organization"@))
}

/// The response's `proxy`.
pub open spec fn f_proxy(doc: Json) -> Option<bool> {
    bool_val(field(doc, "proxy"@))
}

/// The response's `vpn`.
pub open spec fn f_vpn(doc: Json) -> Option<bool> {
    bool_val(field(doc, "vpn"@))
}

/// The response's `tor`.
pub open spec fn f_tor(doc: Json) -> Option<bool> {
    bool_val(field(doc, "tor"@))
}

/// The response's `is_crawler`.
pub open spec fn f_is_crawler(doc: Json) -> Option<bool> {
    bool_val(field(doc, "is_crawler"@))
}

/// The response's `mobile`.
pub open spec fn f_mobile(doc: Json) -> Option<bool> {
    bool_val(field(doc, "mobile"@))
}

/// The response's `recent_abuse`.
pub open spec fn f_recent_abuse(doc: Json) -> Option<bool> {
    bool_val(field(doc, "recent_abuse"@))
}

/// The response has the fields and types the decoder expects.
pub open spec fn well_typed(doc: Json) -> bool {
    &&& is_record(doc)
    &&& bool_of(field(doc, "success"@)) is Ok
    &&& text_of(field(doc, "message"@)) is Ok
    &&& i64_of(field(doc, "fraud_score"@)) is Ok
    &&& text_of(field(doc, "country_code"@)) is Ok
    &&& text_of(field(doc, "region"@)) is Ok
    &&& text_of(field(doc, "city"@)) is Ok
    &&& text_of(field(doc, "ISP"@)) is Ok
    &&& u32_of(field(doc, "ASN"@)) is Ok
    &&& text_of(field(doc, "organization"@)) is Ok
    &&& bool_of(field(doc, "proxy"@)) is Ok
    &&& bool_of(field(doc, "vpn"@)) is Ok
    &&& bool_of(field(doc, "tor"@)) is Ok
    &&& bool_of(field(doc, "is_crawler"@)) is Ok
    &&& bool_of(field(doc, "mobile"@)) is Ok
    &&& bool_of(field(doc, "recent_abuse"@)) is Ok
}

/// What an IPQualityScore response means: `success: false` is unavailability with the message (or `IPQS 失败`); otherwise the score, location, network and flags.
pub open spec fn decode(doc: Json) -> Result<SourceDataV, SourceErrorV> {
    if !well_typed(doc) {
        Err(bad_shape())
    } else {
        if f_success(doc) == Some(false) {
            Err(SourceErrorV::Unavailable(match f_message(doc) { Some(m) => m, None => "IPQS 失败"@ }))
        } else {
            Ok(SourceDataV {
                ipqs_score: f_fraud_score(doc),
                country: f_country_code(doc),
                region: f_region(doc),
                city: f_city(doc),
                isp: f_isp(doc),
                asn: f_asn(doc),
                org: f_organization(doc),
                is_proxy: f_proxy(doc),
                is_vpn: f_vpn(doc),
                is_tor: f_tor(doc),
                is_crawler: f_is_crawler(doc),
                is_mobile: f_mobile(doc),
                is_abuser: f_recent_abuse(doc),
                ..blank("ipqs"@)
            })
        }
    }
}

/// Decodes a parsed IPQualityScore response (see `decode`).
pub fn from_json(doc: &Json) -> (r: Result<SourceData, SourceError>)
    ensures
        outcome(r) == decode(*doc),
{
    if !matches!(doc, Json::Obj(_)) {
        return Err(shape_error());
    }
    let v_success = match get_bool(doc, "success") { Ok(x) => x, Err(_) => return Err(shape_error()), };
    let v_message = match get_text(doc, "message") { Ok(x) => x, Err(_) => return Err(shape_error()), };
    let v_fraud_score = match get_i64(doc, "fraud_score") { Ok(x) => x, Err(_) => return Err(shape_error()), };
    let v_country_code = match get_text(doc, "country_code") { Ok(x) => x, Err(_) => return Err(shape_error()), };
    let v_region = match get_text(doc, "region") { Ok(x) => x, Err(_) => return Err(shape_error()), };
    let v_city = match get_text(doc, "city") { Ok(x) => x, Err(_) => return Err(shape_error()), };
    let v_isp = match get_text(doc, "ISP") { Ok(x) => x, Err(_) => return Err(shape_error()), };
    let v_asn = match get_u32(doc, "ASN") { Ok(x) => x, Err(_) => return Err(shape_error()), };
    let v_organization = match get_text(doc, "organization") { Ok(x) => x, Err(_) => return Err(shape_error()), };
    let v_proxy = match get_bool(doc, "proxy") { Ok(x) => x, Err(_) => return Err(shape_error()), };
    let v_vpn = match get_bool(doc, "vpn") { Ok(x) => x, Err(_) => return Err(shape_error()), };
    let v_tor = match get_bool(doc, "tor") { Ok(x) => x, Err(_) => return Err(shape_error()), };
    let v_is_crawler = match get_bool(doc, "is_crawler") { Ok(x) => x, Err(_) => return Err(shape_error()), };
    let v_mobile = match get_bool(doc, "mobile") { Ok(x) => x, Err(_) => return Err(shape_error()), };
    let v_recent_abuse = match get_bool(doc, "recent_abuse") { Ok(x) => x, Err(_) => return Err(shape_error()), };
    if v_success == Some(false) {
        let m = match v_message { Some(m) => m, None => owned("IPQS 失败") };
        return Err(SourceError::Unavailable(m));
    }
    let mut d = SourceData::new("ipqs");
    d.ipqs_score = v_fraud_score;
    d.country = v_country_code;
    d.region = v_region;
    d.city = v_city;
    d.isp = v_isp;
    d.asn = v_asn;
    d.org = v_organization;
    d.is_proxy = v_proxy;
    d.is_vpn = v_vpn;
    d.is_tor = v_tor;
    d.is_crawler = v_is_crawler;
    d.is_mobile = v_mobile;
    d.is_abuser = v_recent_abuse;
    Ok(d)
}

/// Parses a IPQualityScore response body: a body that is not JSON is a `Parse`
/// error with the JSON parser's message; a parsed document is decoded by
/// `from_json`.
pub fn parse(body: &str) -> (r: Result<SourceData, SourceError>)
    ensures
        outcome(r) == match parsed_json(body@) {
            Ok(doc) => decode(doc),
            Err(e) => Err(SourceErrorV::Parse(e)),
        },
{
    match parse_json(body) {
        Ok(doc) => from_json(&doc),
        Err(e) => Err(SourceError::Parse(e)),
    }
}

/// The IPQualityScore source: `base` is the service's origin, `key` the API key
/// (configured as `IPANO_IPQS_KEY`).
pub struct Ipqs {
    pub base: String,
    pub key: Option<String>,
}

impl Default for Ipqs {
    /// The service's origin, with no key.
    fn default() -> (r: Self)
        ensures
            r.base@ == "https://ipqualityscore.com"@,
            r.key is None,
    {
        Ipqs { base: owned("https://ipqualityscore.com"), key: None }
    }
}

impl Ipqs {
    /// The service's origin, with the configured key value (an empty value
    /// counts as none).
    pub fn with_key(value: Option<String>) -> (r: Self)
        ensures
            r.base@ == "https://ipqualityscore.com"@,
            opt_text(r.key) == secret(opt_text(value)),
    {
        Ipqs { base: owned("https://ipqualityscore.com"), key: nonempty(value) }
    }

    /// The source's id in reports.
    pub fn id(&self) -> (r: &'static str)
        ensures
            r@ == "ipqs"@,
    {
        "ipqs"
    }

    /// The lookup request for `ip`; without a key the source needs one.
    pub fn request(&self, ip: &str) -> (r: Result<HttpRequest, SourceError>)
        ensures
            self.key is None ==> (r matches Err(e) && e@ == SourceErrorV::NeedsKey("IPANO_IPQS_KEY"@)),
            self.key matches Some(k) ==> (r matches Ok(q) && q.url@ == self.base@ + "/api/json/ip/"@ + k@ + "/"@ + ip@),
            r matches Ok(q) ==> q.headers@.len() == 0,
    {
        let k = match &self.key {
            Some(k) => k,
            None => return Err(SourceError::NeedsKey(owned("IPANO_IPQS_KEY"))),
        };
        let mut u = self.base.clone();
        push_text(&mut u, "/api/json/ip/");
        push_text(&mut u, k.as_str());
        push_text(&mut u, "/");
        push_text(&mut u, ip);
    Ok(get(u))
    }
}

} // verus!
