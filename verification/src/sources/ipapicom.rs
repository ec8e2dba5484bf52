//! ipapi.co: location, time zone, organisation and AS number.

use vstd::prelude::*;
use crate::json::{Json, bool_of, bool_val, dec_val, decimal_of, field, get_bool, get_decimal, get_text, is_record, parse_json, parsed_json, text_of, text_val};
use crate::model::{SourceData, SourceDataV, SourceError, SourceErrorV, blank, outcome};
use crate::sources::{bad_shape, shape_error, HttpRequest, get};
use crate::text::{owned, push_text};
use crate::numtext::{as_number, asn_num};

verus! {

/// The response's `error`.
pub open spec fn f_error(doc: Json) -> Option<bool> {
    bool_val(field(doc, "error"@))
}

/// The response's `reason`.
pub open spec fn f_reason(doc: Json) -> Option<Seq<char>> {
    text_val(field(doc, "reason"@))
}

/// The response's `country_name`.
pub open spec fn f_country_name(doc: Json) -> Option<Seq<char>> {
    text_val(field(doc, "country_name"@))
}

/// The response's `region`.
pub open spec fn f_region(doc: Json) -> Option<Seq<char>> {
    text_val(field(doc, "region"@))
}

/// The response's `city`.
pub open spec fn f_city(doc: Json) -> Option<Seq<char>> {
    text_val(field(doc, "city"@))
}

/// The response's `latitude`.
pub open spec fn f_latitude(doc: Json) -> Option<Seq<char>> {
    dec_val(field(doc, "latitude"@))
}

/// The response's `longitude`.
pub open spec fn f_longitude(doc: Json) -> Option<Seq<char>> {
    dec_val(field(doc, "longitude"@))
}

/// The response's `timezone`.
pub open spec fn f_timezone(doc: Json) -> Option<Seq<char>> {
    text_val(field(doc, "timezone"@))
}

/// The response's `asn`.
pub open spec fn f_asn(doc: Json) -> Option<Seq<char>> {
    text_val(field(doc, "asn"@))
}

/// The response's `org`.
pub open spec fn f_org(doc: Json) -> Option<Seq<char>> {
    text_val(field(doc, "org"@))
}

/// The response has the fields and types the decoder expects.
pub open spec fn well_typed(doc: Json) -> bool {
    &&& is_record(doc)
    &&& bool_of(field(doc, "error"@)) is Ok
    &&& text_of(field(doc, "reason"@)) is Ok
    &&& text_of(field(doc, "country_name"@)) is Ok
    &&& text_of(field(doc, "region"@)) is Ok
    &&& text_of(field(doc, "city"@)) is Ok
    &&& decimal_of(field(doc, "latitude"@)) is Ok
    &&& decimal_of(field(doc, "longitude"@)) is Ok
    &&& text_of(field(doc, "timezone"@)) is Ok
    &&& text_of(field(doc, "asn"@)) is Ok
    &&& text_of(field(doc, "org"@)) is Ok
}

/// What an ipapi.co response means: an error flag is unavailability with the reason; otherwise location, time zone, organisation and the AS number after its `AS` prefix.
pub open spec fn decode(doc: Json) -> Result<SourceDataV, SourceErrorV> {
    if !well_typed(doc) {
        Err(bad_shape())
    } else {
        if f_error(doc) == Some(true) {
            Err(SourceErrorV::Unavailable(match f_reason(doc) { Some(m) => m, None => Seq::empty() }))
        } else {
            Ok(SourceDataV {
                country: f_country_name(doc),
                region: f_region(doc),
                city: f_city(doc),
                lat: f_latitude(doc),
                lon: f_longitude(doc),
                timezone: f_timezone(doc),
                org: f_org(doc),
                asn: match f_asn(doc) { Some(a) => as_number(a), None => None },
                ..blank("ipapicom"@)
            })
        }
    }
}

/// Decodes a parsed ipapi.co response (see `decode`).
pub fn from_json(doc: &Json) -> (r: Result<SourceData, SourceError>)
    ensures
        outcome(r) == decode(*doc),
{
    if !matches!(doc, Json::Obj(_)) {
        return Err(shape_error());
    }
    let v_error = match get_bool(doc, "error") { Ok(x) => x, Err(_) => return Err(shape_error()), };
    let v_reason = match get_text(doc, "reason") { Ok(x) => x, Err(_) => return Err(shape_error()), };
    let v_country_name = match get_text(doc, "country_name") { Ok(x) => x, Err(_) => return Err(shape_error()), };
    let v_region = match get_text(doc, "region") { Ok(x) => x, Err(_) => return Err(shape_error()), };
    let v_city = match get_text(doc, "city") { Ok(x) => x, Err(_) => return Err(shape_error()), };
    let v_latitude = match get_decimal(doc, "latitude") { Ok(x) => x, Err(_) => return Err(shape_error()), };
    let v_longitude = match get_decimal(doc, "longitude") { Ok(x) => x, Err(_) => return Err(shape_error()), };
    let v_timezone = match get_text(doc, "timezone") { Ok(x) => x, Err(_) => return Err(shape_error()), };
    let v_asn = match get_text(doc, "asn") { Ok(x) => x, Err(_) => return Err(shape_error()), };
    let v_org = match get_text(doc, "org") { Ok(x) => x, Err(_) => return Err(shape_error()), };
    if v_error == Some(true) {
        let m = match v_reason { Some(m) => m, None => String::new() };
        return Err(SourceError::Unavailable(m));
    }
    let mut d = SourceData::new("ipapicom");
    d.country = v_country_name;
    d.region = v_region;
    d.city = v_city;
    d.lat = v_latitude;
    d.lon = v_longitude;
    d.timezone = v_timezone;
    d.org = v_org;
    d.asn = match &v_asn { Some(a) => asn_num(a.as_str()), None => None };
    Ok(d)
}

/// Parses a ipapi.co response body: a body that is not JSON is a `Parse`
/// error with the JSON parser's message; a parsed document is decoded by
/// `from_json`.
pub fn parse(body: &str) -> (r: Result<SourceData, SourceError>)
    ensures
        outcome(r) == match parsed_json(body@) {
            Ok(doc) => decode(doc),
            Err(e) => Err(SourceErrorV::Parse(e)),
        },
{
    match parse_json(body) {
        Ok(doc) => from_json(&doc),
        Err(e) => Err(SourceError::Parse(e)),
    }
}

/// The ipapi.co source; `base` is the service's origin.
pub struct IpApiCom {
    pub base: String,
}

impl Default for IpApiCom {
    fn default() -> (r: Self)
        ensures
            r.base@ == "https://ipapi.co"@,
    {
        IpApiCom { base: owned("https://ipapi.co") }
    }
}

impl IpApiCom {
    /// The source's id in reports.
    pub fn id(&self) -> (r: &'static str)
        ensures
            r@ == "ipapicom"@,
    {
        "ipapicom"
    }

    /// The lookup request for `ip`.
    pub fn request(&self, ip: &str) -> (r: HttpRequest)
        ensures
            r.url@ == self.base@ + "/"@ + ip@ + "/json/"@,
            r.headers@.len() == 0,
    {
        let mut u = self.base.clone();
        push_text(&mut u, "/");
        push_text(&mut u, ip);
        push_text(&mut u, "/json/");
        get(u)
    }
}

} // verus!
