//! dkly: country, city, AS, security flags and connection type (needs an API key).

use vstd::prelude::*;
use crate::json::{Json, bool_of, bool_val, field, get_bool, get_record, get_text, get_u32, is_record, parse_json, parsed_json, rec_val, record_of, sub_field, text_of, text_val, u32_of, u32_val};
use crate::model::{SourceData, SourceDataV, SourceError, SourceErrorV, blank, outcome, opt_text};
use crate::sources::{bad_shape, shape_error, HttpRequest, get, secret, nonempty};
use crate::text::{owned, push_text};

verus! {

/// The response's `country`.
pub open spec fn f_country(doc: Json) -> Option<Seq<char>> {
    text_val(field(doc, "country"@))
}

/// The response's `city`.
pub open spec fn f_city(doc: Json) -> Option<Seq<char>> {
    text_val(field(doc, "city"@))
}

/// The response's `asn`.
pub open spec fn f_asn(doc: Json) -> Option<u32> {
    u32_val(field(doc, "asn"@))
}

/// The response's `security`.
pub open spec fn f_security(doc: Json) -> Option<Json> {
    rec_val(field(doc, "security"@))
}

/// The response's `security.vpn`.
pub open spec fn f_security_vpn(doc: Json) -> Option<bool> {
    bool_val(sub_field(rec_val(field(doc, "security"@)), "vpn"@))
}

/// The response's `security.proxy`.
pub open spec fn f_security_proxy(doc: Json) -> Option<bool> {
    bool_val(sub_field(rec_val(field(doc, "security"@)), "proxy"@))
}

/// The response's `security.tor`.
pub open spec fn f_security_tor(doc: Json) -> Option<bool> {
    bool_val(sub_field(rec_val(field(doc, "security"@)), "tor"@))
}

/// The response's `security.threat`.
pub open spec fn f_security_threat(doc: Json) -> Option<bool> {
    bool_val(sub_field(rec_val(field(doc, "security"@)), "threat"@))
}

/// The response's `connection`.
pub open spec fn f_connection(doc: Json) -> Option<Json> {
    rec_val(field(doc, "connection"@))
}

/// The response's `connection.type`.
pub open spec fn f_connection_type(doc: Json) -> Option<Seq<char>> {
    text_val(sub_field(rec_val(field(doc, "connection"@)), "type"@))
}

/// The response has the fields and types the decoder expects.
pub open spec fn well_typed(doc: Json) -> bool {
    &&& is_record(doc)
    &&& text_of(field(doc, "country"@)) is Ok
    &&& text_of(field(doc, "city"@)) is Ok
    &&& u32_of(field(doc, "asn"@)) is Ok
    &&& record_of(field(doc, "security"@)) is Ok
    &&& bool_of(sub_field(rec_val(field(doc, "security"@)), "vpn"@)) is Ok
    &&& bool_of(sub_field(rec_val(field(doc, "security"@)), "proxy"@)) is Ok
    &&& bool_of(sub_field(rec_val(field(doc, "security"@)), "tor"@)) is Ok
    &&& bool_of(sub_field(rec_val(field(doc, "security"@)), "threat"@)) is Ok
    &&& record_of(field(doc, "connection"@)) is Ok
    &&& text_of(sub_field(rec_val(field(doc, "connection"@)), "type"@)) is Ok
}

/// What a dkly response means: country, city, AS, the security flags (a threat marks an abuser), and the connection type.
pub open spec fn decode(doc: Json) -> Result<SourceDataV, SourceErrorV> {
    if !well_typed(doc) {
        Err(bad_shape())
    } else {
        Ok(SourceDataV {
            country: f_country(doc),
            city: f_city(doc),
            asn: f_asn(doc),
            is_vpn: f_security_vpn(doc),
            is_proxy: f_security_proxy(doc),
            is_tor: f_security_tor(doc),
            is_abuser: if f_security_threat(doc) == Some(true) { Some(true) } else { None },
            company_type: f_connection_type(doc),
            ..blank("dkly"@)
        })
    }
}

/// Decodes a parsed dkly response (see `decode`).
pub fn from_json(doc: &Json) -> (r: Result<SourceData, SourceError>)
    ensures
        outcome(r) == decode(*doc),
{
    if !matches!(doc, Json::Obj(_)) {
        return Err(shape_error());
    }
    let v_country = match get_text(doc, "country") { Ok(x) => x, Err(_) => return Err(shape_error()), };
    let v_city = match get_text(doc, "city") { Ok(x) => x, Err(_) => return Err(shape_error()), };
    let v_asn = match get_u32(doc, "asn") { Ok(x) => x, Err(_) => return Err(shape_error()), };
    let v_security = match get_record(doc, "security") { Ok(x) => x, Err(_) => return Err(shape_error()), };
    let v_security_vpn = match v_security { Some(c) => match get_bool(c, "vpn") { Ok(x) => x, Err(_) => return Err(shape_error()), }, None => None };
    let v_security_proxy = match v_security { Some(c) => match get_bool(c, "proxy") { Ok(x) => x, Err(_) => return Err(shape_error()), }, None => None };
    let v_security_tor = match v_security { Some(c) => match get_bool(c, "tor") { Ok(x) => x, Err(_) => return Err(shape_error()), }, None => None };
    let v_security_threat = match v_security { Some(c) => match get_bool(c, "threat") { Ok(x) => x, Err(_) => return Err(shape_error()), }, None => None };
    let v_connection = match get_record(doc, "connection") { Ok(x) => x, Err(_) => return Err(shape_error()), };
    let v_connection_type = match v_connection { Some(c) => match get_text(c, "type") { Ok(x) => x, Err(_) => return Err(shape_error()), }, None => None };
    let mut d = SourceData::new("dkly");
    d.country = v_country;
    d.city = v_city;
    d.asn = v_asn;
    d.is_vpn = v_security_vpn;
    d.is_proxy = v_security_proxy;
    d.is_tor = v_security_tor;
    if v_security_threat == Some(true) {
        d.is_abuser = Some(true);
    }
    d.company_type = v_connection_type;
    Ok(d)
}

/// Parses a dkly response body: a body that is not JSON is a `Parse`
/// error with the JSON parser's message; a parsed document is decoded by
/// `from_json`.
pub fn parse(body: &str) -> (r: Result<SourceData, SourceError>)
    ensures
        outcome(r) == match parsed_json(body@) {
            Ok(doc) => decode(doc),
            Err(e) => Err(SourceErrorV::Parse(e)),
        },
{
    match parse_json(body) {
        Ok(doc) => from_json(&doc),
        Err(e) => Err(SourceError::Parse(e)),
    }
}

/// The dkly source: `base` is the service's origin, `key` the API key
/// (configured as `IPANO_DKLY_KEY`).
pub struct Dkly {
    pub base: String,
    pub key: Option<String>,
}

impl Default for Dkly {
    /// The service's origin, with no key.
    fn default() -> (r: Self)
        ensures
            r.base@ == "https://ipinfo.dkly.net"@,
            r.key is None,
    {
        Dkly { base: owned("https://ipinfo.dkly.net"), key: None }
    }
}

impl Dkly {
    /// The service's origin, with the configured key value (an empty value
    /// counts as none).
    pub fn with_key(value: Option<String>) -> (r: Self)
        ensures
            r.base@ == "https://ipinfo.dkly.net"@,
            opt_text(r.key) == secret(opt_text(value)),
    {
        Dkly { base: owned("https://ipinfo.dkly.net"), key: nonempty(value) }
    }

    /// The source's id in reports.
    pub fn id(&self) -> (r: &'static str)
        ensures
            r@ == "dkly"@,
    {
        "dkly"
    }

    /// The lookup request for `ip`; without a key the source needs one.
    pub fn request(&self, ip: &str) -> (r: Result<HttpRequest, SourceError>)
        ensures
            self.key is None ==> (r matches Err(e) && e@ == SourceErrorV::NeedsKey("IPANO_DKLY_KEY"@)),
            self.key matches Some(k) ==> (r matches Ok(q) && q.url@ == self.base@ + "/api/?key="@ + k@ + "&ip="@ + ip@),
            r matches Ok(q) ==> q.headers@.len() == 0,
    {
        let k = match &self.key {
            Some(k) => k,
            None => return Err(SourceError::NeedsKey(owned("IPANO_DKLY_KEY"))),
        };
        let mut u = self.base.clone();
        push_text(&mut u, "/api/?key=");
        push_text(&mut u, k.as_str());
        push_text(&mut u, "&ip=");
        push_text(&mut u, ip);
    Ok(get(u))
    }

    /// Outcome of a response: 429 means rate limited; any other status is
    /// decoded from the body.
    pub fn interpret(&self, status: u16, body: &str) -> (r: Result<SourceData, SourceError>)
        ensures
            status == 429 ==> outcome(r) == Err::<SourceDataV, SourceErrorV>(SourceErrorV::RateLimited),
            status != 429 ==> outcome(r) == match parsed_json(body@) {
                Ok(doc) => decode(doc),
                Err(e) => Err(SourceErrorV::Parse(e)),
            },
    {
        if status == 429 {
            return Err(SourceError::RateLimited);
        }
        parse(body)
    }
}

} // verus!
