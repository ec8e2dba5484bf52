//! ipdata: location, AS and threat flags (needs an API key).

use vstd::prelude::*;
use crate::json::{Json, bool_of, bool_val, field, get_bool, get_record, get_text, is_record, parse_json, parsed_json, rec_val, record_of, sub_field, text_of, text_val};
use crate::model::{SourceData, SourceDataV, SourceError, SourceErrorV, blank, outcome, opt_text};
use crate::sources::{bad_shape, shape_error, HttpRequest, get, secret, nonempty};
use crate::text::{owned, push_text};
use crate::numtext::{as_number, asn_num};

verus! {

/// The response's `country_code`.
pub open spec fn f_country_code(doc: Json) -> Option<Seq<char>> {
    text_val(field(doc, "country_code"@))
}

/// The response's `region`.
pub open spec fn f_region(doc: Json) -> Option<Seq<char>> {
    text_val(field(doc, "region"@))
}

/// The response's `city`.
pub open spec fn f_city(doc: Json) -> Option<Seq<char>> {
    text_val(field(doc, "city"@))
}

/// The response's `asn`.
pub open spec fn f_asn(doc: Json) -> Option<Json> {
    rec_val(field(doc, "asn"@))
}

/// The response's `asn.asn`.
pub open spec fn f_asn_asn(doc: Json) -> Option<Seq<char>> {
    text_val(sub_field(rec_val(field(doc, "asn"@)), "asn"@))
}

/// The response's `asn.name`.
pub open spec fn f_asn_name(doc: Json) -> Option<Seq<char>> {
    text_val(sub_field(rec_val(field(doc, "asn"@)), "name"@))
}

/// The response's `threat`.
pub open spec fn f_threat(doc: Json) -> Option<Json> {
    rec_val(field(doc, "threat"@))
}

/// The response's `threat.is_tor`.
pub open spec fn f_threat_is_tor(doc: Json) -> Option<bool> {
    bool_val(sub_field(rec_val(field(doc, "threat"@)), "is_tor"@))
}

/// The response's `threat.is_icloud_relay`.
pub open spec fn f_threat_is_icloud_relay(doc: Json) -> Option<bool> {
    bool_val(sub_field(rec_val(field(doc, "threat"@)), "is_icloud_relay"@))
}

/// The response's `threat.is_proxy`.
pub open spec fn f_threat_is_proxy(doc: Json) -> Option<bool> {
    bool_val(sub_field(rec_val(field(doc, "threat"@)), "is_proxy"@))
}

/// The response's `threat.is_datacenter`.
pub open spec fn f_threat_is_datacenter(doc: Json) -> Option<bool> {
    bool_val(sub_field(rec_val(field(doc, "threat"@)), "is_datacenter"@))
}

/// The response's `threat.is_anonymous`.
pub open spec fn f_threat_is_anonymous(doc: Json) -> Option<bool> {
    bool_val(sub_field(rec_val(field(doc, "threat"@)), "is_anonymous"@))
}

/// The response's `threat.is_bogon`.
pub open spec fn f_threat_is_bogon(doc: Json) -> Option<bool> {
    bool_val(sub_field(rec_val(field(doc, "threat"@)), "is_bogon"@))
}

/// The response's `threat.is_known_attacker`.
pub open spec fn f_threat_is_known_attacker(doc: Json) -> Option<bool> {
    bool_val(sub_field(rec_val(field(doc, "threat"@)), "is_known_attacker"@))
}

/// The response's `threat.is_known_abuser`.
pub open spec fn f_threat_is_known_abuser(doc: Json) -> Option<bool> {
    bool_val(sub_field(rec_val(field(doc, "threat"@)), "is_known_abuser"@))
}

/// The response's `threat.is_threat`.
pub open spec fn f_threat_is_threat(doc: Json) -> Option<bool> {
    bool_val(sub_field(rec_val(field(doc, "threat"@)), "is_threat"@))
}

/// The response has the fields and types the decoder expects.
pub open spec fn well_typed(doc: Json) -> bool {
    &&& is_record(doc)
    &&& text_of(field(doc, "country_code"@)) is Ok
    &&& text_of(field(doc, "region"@)) is Ok
    &&& text_of(field(doc, "city"@)) is Ok
    &&& record_of(field(doc, "asn"@)) is Ok
    &&& text_of(sub_field(rec_val(field(doc, "asn"@)), "asn"@)) is Ok
    &&& text_of(sub_field(rec_val(field(doc, "asn"@)), "name"@)) is Ok
    &&& record_of(field(doc, "threat"@)) is Ok
    &&& bool_of(sub_field(rec_val(field(doc, "threat"@)), "is_tor"@)) is Ok
    &&& bool_of(sub_field(rec_val(field(doc, "threat"@)), "is_icloud_relay"@)) is Ok
    &&& bool_of(sub_field(rec_val(field(doc, "threat"@)), "is_proxy"@)) is Ok
    &&& bool_of(sub_field(rec_val(field(doc, "threat"@)), "is_datacenter"@)) is Ok
    &&& bool_of(sub_field(rec_val(field(doc, "threat"@)), "is_anonymous"@)) is Ok
    &&& bool_of(sub_field(rec_val(field(doc, "threat"@)), "is_bogon"@)) is Ok
    &&& bool_of(sub_field(rec_val(field(doc, "threat"@)), "is_known_attacker"@)) is Ok
    &&& bool_of(sub_field(rec_val(field(doc, "threat"@)), "is_known_abuser"@)) is Ok
    &&& bool_of(sub_field(rec_val(field(doc, "threat"@)), "is_threat"@)) is Ok
}

/// What an ipdata response means: location, the AS number after its `AS` prefix and name, and, where threat data are given, the flags, abuse (known abuser or attacker) and a `high` threat level for a threat.
pub open spec fn decode(doc: Json) -> Result<SourceDataV, SourceErrorV> {
    if !well_typed(doc) {
        Err(bad_shape())
    } else {
        if f_threat(doc) is None {
            Ok(SourceDataV {
                country: f_country_code(doc),
                region: f_region(doc),
                city: f_city(doc),
                asn: match f_asn_asn(doc) { Some(a) => as_number(a), None => None },
                as_org: f_asn_name(doc),
                ..blank("ipdata"@)
            })
        } else {
            Ok(SourceDataV {
                country: f_country_code(doc),
                region: f_region(doc),
                city: f_city(doc),
                asn: match f_asn_asn(doc) { Some(a) => as_number(a), None => None },
                as_org: f_asn_name(doc),
                is_tor: f_threat_is_tor(doc),
                is_proxy: f_threat_is_proxy(doc),
                is_datacenter: f_threat_is_datacenter(doc),
                is_anonymous: f_threat_is_anonymous(doc),
                is_bogon: f_threat_is_bogon(doc),
                is_relay: f_threat_is_icloud_relay(doc),
                is_abuser: Some(f_threat_is_known_abuser(doc) == Some(true) || f_threat_is_known_attacker(doc) == Some(true)),
                threat_level: if f_threat_is_threat(doc) == Some(true) { Some("high"@) } else { None },
                ..blank("ipdata"@)
            })
        }
    }
}

/// Decodes a parsed ipdata response (see `decode`).
pub fn from_json(doc: &Json) -> (r: Result<SourceData, SourceError>)
    ensures
        outcome(r) == decode(*doc),
{
    if !matches!(doc, Json::Obj(_)) {
        return Err(shape_error());
    }
    let v_country_code = match get_text(doc, "country_code") { Ok(x) => x, Err(_) => return Err(shape_error()), };
    let v_region = match get_text(doc, "region") { Ok(x) => x, Err(_) => return Err(shape_error()), };
    let v_city = match get_text(doc, "city") { Ok(x) => x, Err(_) => return Err(shape_error()), };
    let v_asn = match get_record(doc, "asn") { Ok(x) => x, Err(_) => return Err(shape_error()), };
    let v_asn_asn = match v_asn { Some(c) => match get_text(c, "asn") { Ok(x) => x, Err(_) => return Err(shape_error()), }, None => None };
    let v_asn_name = match v_asn { Some(c) => match get_text(c, "name") { Ok(x) => x, Err(_) => return Err(shape_error()), }, None => None };
    let v_threat = match get_record(doc, "threat") { Ok(x) => x, Err(_) => return Err(shape_error()), };
    let v_threat_is_tor = match v_threat { Some(c) => match get_bool(c, "is_tor") { Ok(x) => x, Err(_) => return Err(shape_error()), }, None => None };
    let v_threat_is_icloud_relay = match v_threat { Some(c) => match get_bool(c, "is_icloud_relay") { Ok(x) => x, Err(_) => return Err(shape_error()), }, None => None };
    let v_threat_is_proxy = match v_threat { Some(c) => match get_bool(c, "is_proxy") { Ok(x) => x, Err(_) => return Err(shape_error()), }, None => None };
    let v_threat_is_datacenter = match v_threat { Some(c) => match get_bool(c, "is_datacenter") { Ok(x) => x, Err(_) => return Err(shape_error()), }, None => None };
    let v_threat_is_anonymous = match v_threat { Some(c) => match get_bool(c, "is_anonymous") { Ok(x) => x, Err(_) => return Err(shape_error()), }, None => None };
    let v_threat_is_bogon = match v_threat { Some(c) => match get_bool(c, "is_bogon") { Ok(x) => x, Err(_) => return Err(shape_error()), }, None => None };
    let v_threat_is_known_attacker = match v_threat { Some(c) => match get_bool(c, "is_known_attacker") { Ok(x) => x, Err(_) => return Err(shape_error()), }, None => None };
    let v_threat_is_known_abuser = match v_threat { Some(c) => match get_bool(c, "is_known_abuser") { Ok(x) => x, Err(_) => return Err(shape_error()), }, None => None };
    let v_threat_is_threat = match v_threat { Some(c) => match get_bool(c, "is_threat") { Ok(x) => x, Err(_) => return Err(shape_error()), }, None => None };
    let mut d = SourceData::new("ipdata");
    d.country = v_country_code;
    d.region = v_region;
    d.city = v_city;
    d.asn = match &v_asn_asn { Some(a) => asn_num(a.as_str()), None => None };
    d.as_org = v_asn_name;
    if v_threat.is_some() {
        d.is_tor = v_threat_is_tor;
        d.is_proxy = v_threat_is_proxy;
        d.is_datacenter = v_threat_is_datacenter;
        d.is_anonymous = v_threat_is_anonymous;
        d.is_bogon = v_threat_is_bogon;
        d.is_relay = v_threat_is_icloud_relay;
        d.is_abuser = Some(v_threat_is_known_abuser == Some(true) || v_threat_is_known_attacker == Some(true));
        if v_threat_is_threat == Some(true) {
            d.threat_level = Some(owned("high"));
        }
    }
    Ok(d)
}

/// Parses a ipdata response body: a body that is not JSON is a `Parse`
/// error with the JSON parser's message; a parsed document is decoded by
/// `from_json`.
pub fn parse(body: &str) -> (r: Result<SourceData, SourceError>)
    ensures
        outcome(r) == match parsed_json(body@) {
            Ok(doc) => decode(doc),
            Err(e) => Err(SourceErrorV::Parse(e)),
        },
{
    match parse_json(body) {
        Ok(doc) => from_json(&doc),
        Err(e) => Err(SourceError::Parse(e)),
    }
}

/// The ipdata source: `base` is the service's origin, `key` the API key
/// (configured as `IPANO_IPDATA_KEY`).
pub struct IpData {
    pub base: String,
    pub key: Option<String>,
}

impl Default for IpData {
    /// The service's origin, with no key.
    fn default() -> (r: Self)
        ensures
            r.base@ == "https://api.ipdata.co"@,
            r.key is None,
    {
        IpData { base: owned("https://api.ipdata.co"), key: None }
    }
}

impl IpData {
    /// The service's origin, with the configured key value (an empty value
    /// counts as none).
    pub fn with_key(value: Option<String>) -> (r: Self)
        ensures
            r.base@ == "https://api.ipdata.co"@,
            opt_text(r.key) == secret(opt_text(value)),
    {
        IpData { base: owned("https://api.ipdata.co"), key: nonempty(value) }
    }

    /// The source's id in reports.
    pub fn id(&self) -> (r: &'static str)
        ensures
            r@ == "ipdata"@,
    {
        "ipdata"
    }

    /// The lookup request for `ip`; without a key the source needs one.
    pub fn request(&self, ip: &str) -> (r: Result<HttpRequest, SourceError>)
        ensures
            self.key is None ==> (r matches Err(e) && e@ == SourceErrorV::NeedsKey("IPANO_IPDATA_KEY"@)),
            self.key matches Some(k) ==> (r matches Ok(q) && q.url@ == self.base@ + "/"@ + ip@ + "?api-key="@ + k@),
            r matches Ok(q) ==> q.headers@.len() == 0,
    {
        let k = match &self.key {
            Some(k) => k,
            None => return Err(SourceError::NeedsKey(owned("IPANO_IPDATA_KEY"))),
        };
        let mut u = self.base.clone();
        push_text(&mut u, "/");
        push_text(&mut u, ip);
        push_text(&mut u, "?api-key=");
        push_text(&mut u, k.as_str());
    Ok(get(u))
    }

    /// Outcome of a response: 429 means rate limited; any other status is
    /// decoded from the body.
    pub fn interpret(&self, status: u16, body: &str) -> (r: Result<SourceData, SourceError>)
        ensures
            status == 429 ==> outcome(r) == Err::<SourceDataV, SourceErrorV>(SourceErrorV::RateLimited),
            status != 429 ==> outcome(r) == match parsed_json(body@) {
                Ok(doc) => decode(doc),
                Err(e) => Err(SourceErrorV::Parse(e)),
            },
    {
        if status == 429 {
            return Err(SourceError::RateLimited);
        }
        parse(body)
    }
}

} // verus!
