//! ippure: fraud score, AS, location and residential/broadcast kind of the caller's own address.

use vstd::prelude::*;
use crate::json::{Json, bool_of, bool_val, field, get_bool, get_i64, get_text, get_u32, i64_of, i64_val, is_record, parse_json, parsed_json, text_of, text_val, u32_of, u32_val};
use crate::model::{IpType, SourceData, SourceDataV, SourceError, SourceErrorV, blank, outcome, opt_text};
use crate::sources::{bad_shape, shape_error, HttpRequest, get};
use crate::numtext::{float_of, float_text_of};
use crate::text::{chars_of, owned, push_text, same_chars};

verus! {

/// The response's `ip`.
pub open spec fn f_ip(doc: Json) -> Option<Seq<char>> {
    text_val(field(doc, "ip"@))
}

/// The response's `asn`.
pub open spec fn f_asn(doc: Json) -> Option<u32> {
    u32_val(field(doc, "asn"@))
}

/// The response's `asOrganization`.
pub open spec fn f_asorganization(doc: Json) -> Option<Seq<char>> {
    text_val(field(doc, "asOrganization"@))
}

/// The response's `country`.
pub open spec fn f_country(doc: Json) -> Option<Seq<char>> {
    text_val(field(doc, "country"@))
}

/// The response's `city`.
pub open spec fn f_city(doc: Json) -> Option<Seq<char>> {
    text_val(field(doc, "city"@))
}

/// The response's `timezone`.
pub open spec fn f_timezone(doc: Json) -> Option<Seq<char>> {
    text_val(field(doc, "timezone"@))
}

/// The response's `longitude`.
pub open spec fn f_longitude(doc: Json) -> Option<Seq<char>> {
    text_val(field(doc, "longitude"@))
}

/// The response's `latitude`.
pub open spec fn f_latitude(doc: Json) -> Option<Seq<char>> {
    text_val(field(doc, "latitude"@))
}

/// The response's `fraudScore`.
pub open spec fn f_fraudscore(doc: Json) -> Option<i64> {
    i64_val(field(doc, "fraudScore"@))
}

/// The response's `isResidential`.
pub open spec fn f_isresidential(doc: Json) -> Option<bool> {
    bool_val(field(doc, "isResidential"@))
}

/// The response's `isBroadcast`.
pub open spec fn f_isbroadcast(doc: Json) -> Option<bool> {
    bool_val(field(doc, "isBroadcast"@))
}

/// The response has the fields and types the decoder expects.
pub open spec fn well_typed(doc: Json) -> bool {
    &&& is_record(doc)
    &&& text_of(field(doc, "ip"@)) is Ok
    &&& u32_of(field(doc, "asn"@)) is Ok
    &&& text_of(field(doc, "asOrganization"@)) is Ok
    &&& text_of(field(doc, "country"@)) is Ok
    &&& text_of(field(doc, "city"@)) is Ok
    &&& text_of(field(doc, "timezone"@)) is Ok
    &&& text_of(field(doc, "longitude"@)) is Ok
    &&& text_of(field(doc, "latitude"@)) is Ok
    &&& i64_of(field(doc, "fraudScore"@)) is Ok
    &&& bool_of(field(doc, "isResidential"@)) is Ok
    &&& bool_of(field(doc, "isBroadcast"@)) is Ok
}

/// What an ippure response means: AS, location, coordinates (given as text, kept where `f64` parsing accepts them), fraud score, residential flag, and the kind (broadcast before residential).
pub open spec fn decode(doc: Json) -> Result<SourceDataV, SourceErrorV> {
    if !well_typed(doc) {
        Err(bad_shape())
    } else {
        Ok(SourceDataV {
            asn: f_asn(doc),
            as_org: f_asorganization(doc),
            country: f_country(doc),
            city: f_city(doc),
            timezone: f_timezone(doc),
            lat: match f_latitude(doc) { Some(s) => float_of(s), None => None },
            lon: match f_longitude(doc) { Some(s) => float_of(s), None => None },
            fraud_score: f_fraudscore(doc),
            is_residential: f_isresidential(doc),
            ip_type: if f_isbroadcast(doc) == Some(true) {
                Some(IpType::Broadcast)
            } else if f_isresidential(doc) == Some(true) {
                Some(IpType::Residential)
            } else {
                None
            },
            ..blank("ippure"@)
        })
    }
}

/// Decodes a parsed ippure response (see `decode`).
pub fn from_json(doc: &Json) -> (r: Result<SourceData, SourceError>)
    ensures
        outcome(r) == decode(*doc),
{
    if !matches!(doc, Json::Obj(_)) {
        return Err(shape_error());
    }
    let v_ip = match get_text(doc, "ip") { Ok(x) => x, Err(_) => return Err(shape_error()), };
    let v_asn = match get_u32(doc, "asn") { Ok(x) => x, Err(_) => return Err(shape_error()), };
    let v_asorganization = match get_text(doc, "asOrganization") { Ok(x) => x, Err(_) => return Err(shape_error()), };
    let v_country = match get_text(doc, "country") { Ok(x) => x, Err(_) => return Err(shape_error()), };
    let v_city = match get_text(doc, "city") { Ok(x) => x, Err(_) => return Err(shape_error()), };
    let v_timezone = match get_text(doc, "timezone") { Ok(x) => x, Err(_) => return Err(shape_error()), };
    let v_longitude = match get_text(doc, "longitude") { Ok(x) => x, Err(_) => return Err(shape_error()), };
    let v_latitude = match get_text(doc, "latitude") { Ok(x) => x, Err(_) => return Err(shape_error()), };
    let v_fraudscore = match get_i64(doc, "fraudScore") { Ok(x) => x, Err(_) => return Err(shape_error()), };
    let v_isresidential = match get_bool(doc, "isResidential") { Ok(x) => x, Err(_) => return Err(shape_error()), };
    let v_isbroadcast = match get_bool(doc, "isBroadcast") { Ok(x) => x, Err(_) => return Err(shape_error()), };
    let mut d = SourceData::new("ippure");
    d.asn = v_asn;
    d.as_org = v_asorganization;
    d.country = v_country;
    d.city = v_city;
    d.timezone = v_timezone;
    d.lat = match &v_latitude { Some(s) => float_text_of(s.as_str()), None => None };
    d.lon = match &v_longitude { Some(s) => float_text_of(s.as_str()), None => None };
    d.fraud_score = v_fraudscore;
    d.is_residential = v_isresidential;
    d.ip_type = if v_isbroadcast == Some(true) {
        Some(IpType::Broadcast)
    } else if v_isresidential == Some(true) {
        Some(IpType::Residential)
    } else {
        None
    };
    Ok(d)
}

/// Parses a ippure response body: a body that is not JSON is a `Parse`
/// error with the JSON parser's message; a parsed document is decoded by
/// `from_json`.
pub fn parse(body: &str) -> (r: Result<SourceData, SourceError>)
    ensures
        outcome(r) == match parsed_json(body@) {
            Ok(doc) => decode(doc),
            Err(e) => Err(SourceErrorV::Parse(e)),
        },
{
    match parse_json(body) {
        Ok(doc) => from_json(&doc),
        Err(e) => Err(SourceError::Parse(e)),
    }
}

/// The ippure source; `base` is the service's origin. The service only
/// reports the caller's own (egress) address.
pub struct IpPure {
    pub base: String,
}

impl Default for IpPure {
    fn default() -> (r: Self)
        ensures
            r.base@ == "https://my.ippure.com"@,
    {
        IpPure { base: owned("https://my.ippure.com") }
    }
}

/// The address a response reports, where the body is a well-typed response.
pub open spec fn returned(body: Seq<char>) -> Option<Seq<char>> {
    match parsed_json(body) {
        Ok(doc) => if well_typed(doc) { f_ip(doc) } else { None },
        Err(_) => None,
    }
}

/// The `ip` a response reports (none where the body does not decode).
pub fn returned_ip(body: &str) -> (r: Option<String>)
    ensures
        opt_text(r) == returned(body@),
{
    let doc = match parse_json(body) {
        Ok(doc) => doc,
        Err(_) => return None,
    };
    if !matches!(doc, Json::Obj(_)) {
        return None;
    }
    match from_json(&doc) {
        Ok(_) => {},
        Err(_) => {
            proof {
                if well_typed(doc) {
                    assert(decode(doc) is Ok);
                }
            }
            return None;
        },
    }
    match get_text(&doc, "ip") {
        Ok(v) => v,
        Err(_) => None,
    }
}

pub open spec fn mismatch_text(rip: Seq<char>, ip: Seq<char>) -> Seq<char> {
    "ippure 仅返回本机出口 IP("@ + rip + "),与查询 "@ + ip + " 不符,跳过"@
}

impl IpPure {
    /// The source's id in reports.
    pub fn id(&self) -> (r: &'static str)
        ensures
            r@ == "ippure"@,
    {
        "ippure"
    }

    /// The request (the service reports the caller's own address).
    pub fn request(&self) -> (r: HttpRequest)
        ensures
            r.url@ == self.base@ + "/v1/info"@,
            r.headers@.len() == 0,
    {
        let mut u = self.base.clone();
        push_text(&mut u, "/v1/info");
        get(u)
    }

    /// Outcome of a response to a lookup of `ip`: where the response reports
    /// another address, the source is skipped as unavailable (it cannot look
    /// up other addresses); otherwise the body is decoded.
    pub fn interpret(&self, body: &str, ip: &str) -> (r: Result<SourceData, SourceError>)
        ensures
            (returned(body@) matches Some(rip) && rip != ip@) ==> outcome(r)
                == Err::<SourceDataV, SourceErrorV>(SourceErrorV::Unavailable(mismatch_text(returned(body@)->0, ip@))),
            !(returned(body@) matches Some(rip) && rip != ip@) ==> outcome(r) == match parsed_json(body@) {
                Ok(doc) => decode(doc),
                Err(e) => Err(SourceErrorV::Parse(e)),
            },
    {
        match returned_ip(body) {
            Some(rip) => {
                let a = chars_of(rip.as_str());
                let b = chars_of(ip);
                if !same_chars(a.as_slice(), b.as_slice()) {
                    let mut m = owned("ippure 仅返回本机出口 IP(");
                    push_text(&mut m, rip.as_str());
                    push_text(&mut m, "),与查询 ");
                    push_text(&mut m, ip);
                    push_text(&mut m, " 不符,跳过");
                    return Err(SourceError::Unavailable(m));
                }
            },
            None => {},
        }
        parse(body)
    }
}

} // verus!
