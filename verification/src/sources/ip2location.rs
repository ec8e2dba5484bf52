//! IP2Location.io: location, AS, proxy flag and usage type.

use vstd::prelude::*;
use crate::json::{Json, any_of, bool_of, bool_val, dec_val, decimal_of, field, get_any, get_bool, get_decimal, get_text, is_record, parse_json, parsed_json, text_of, text_val};
use crate::model::{SourceData, SourceDataV, SourceError, SourceErrorV, blank, outcome};
use crate::sources::{bad_shape, shape_error, HttpRequest, get};
use crate::text::{chars_of, owned, parse_u32_chars, parse_u32_spec, push_text};

verus! {

/// The response's `error`.
pub open spec fn f_error(doc: Json) -> Option<Json> {
    any_of(field(doc, "error"@))
}

/// The response's `country_name`.
pub open spec fn f_country_name(doc: Json) -> Option<Seq<char>> {
    text_val(field(doc, "country_name"@))
}

/// The response's `region_name`.
pub open spec fn f_region_name(doc: Json) -> Option<Seq<char>> {
    text_val(field(doc, "region_name"@))
}

/// The response's `city_name`.
pub open spec fn f_city_name(doc: Json) -> Option<Seq<char>> {
    text_val(field(doc, "city_name"@))
}

/// The response's `latitude`.
pub open spec fn f_latitude(doc: Json) -> Option<Seq<char>> {
    dec_val(field(doc, "latitude"@))
}

/// The response's `longitude`.
pub open spec fn f_longitude(doc: Json) -> Option<Seq<char>> {
    dec_val(field(doc, "longitude"@))
}

/// The response's `time_zone`.
pub open spec fn f_time_zone(doc: Json) -> Option<Seq<char>> {
    text_val(field(doc, "time_zone"@))
}

/// The response's `as`.
pub open spec fn f_as(doc: Json) -> Option<Seq<char>> {
    text_val(field(doc, "as"@))
}

/// The response's `asn`.
pub open spec fn f_asn(doc: Json) -> Option<Seq<char>> {
    text_val(field(doc, "asn"@))
}

/// The response's `is_proxy`.
pub open spec fn f_is_proxy(doc: Json) -> Option<bool> {
    bool_val(field(doc, "is_proxy"@))
}

/// The response's `usage_type`.
pub open spec fn f_usage_type(doc: Json) -> Option<Seq<char>> {
    text_val(field(doc, "usage_type"@))
}

/// The response has the fields and types the decoder expects.
pub open spec fn well_typed(doc: Json) -> bool {
    &&& is_record(doc)
    &&& text_of(field(doc, "country_name"@)) is Ok
    &&& text_of(field(doc, "region_name"@)) is Ok
    &&& text_of(field(doc, "city_name"@)) is Ok
    &&& decimal_of(field(doc, "latitude"@)) is Ok
    &&& decimal_of(field(doc, "longitude"@)) is Ok
    &&& text_of(field(doc, "time_zone"@)) is Ok
    &&& text_of(field(doc, "as"@)) is Ok
    &&& text_of(field(doc, "asn"@)) is Ok
    &&& bool_of(field(doc, "is_proxy"@)) is Ok
    &&& text_of(field(doc, "usage_type"@)) is Ok
}

/// What an IP2Location.io response means: any `error` value is unavailability; otherwise location, time zone, proxy flag, usage type, AS number and AS name.
pub open spec fn decode(doc: Json) -> Result<SourceDataV, SourceErrorV> {
    if !well_typed(doc) {
        Err(bad_shape())
    } else {
        if f_error(doc) is Some {
            Err(SourceErrorV::Unavailable("ip2location error"@))
        } else {
            Ok(SourceDataV {
                country: f_country_name(doc),
                region: f_region_name(doc),
                city: f_city_name(doc),
                lat: f_latitude(doc),
                lon: f_longitude(doc),
                timezone: f_time_zone(doc),
                is_proxy: f_is_proxy(doc),
                usage_type: f_usage_type(doc),
                asn: match f_asn(doc) { Some(a) => parse_u32_spec(a), None => None },
                as_org: f_as(doc),
                ..blank("ip2loc"@)
            })
        }
    }
}

/// Decodes a parsed IP2Location.io response (see `decode`).
pub fn from_json(doc: &Json) -> (r: Result<SourceData, SourceError>)
    ensures
        outcome(r) == decode(*doc),
{
    if !matches!(doc, Json::Obj(_)) {
        return Err(shape_error());
    }
    let v_error = get_any(doc, "error");
    let v_country_name = match get_text(doc, "country_name") { Ok(x) => x, Err(_) => return Err(shape_error()), };
    let v_region_name = match get_text(doc, "region_name") { Ok(x) => x, Err(_) => return Err(shape_error()), };
    let v_city_name = match get_text(doc, "city_name") { Ok(x) => x, Err(_) => return Err(shape_error()), };
    let v_latitude = match get_decimal(doc, "latitude") { Ok(x) => x, Err(_) => return Err(shape_error()), };
    let v_longitude = match get_decimal(doc, "longitude") { Ok(x) => x, Err(_) => return Err(shape_error()), };
    let v_time_zone = match get_text(doc, "time_zone") { Ok(x) => x, Err(_) => return Err(shape_error()), };
    let v_as = match get_text(doc, "as") { Ok(x) => x, Err(_) => return Err(shape_error()), };
    let v_asn = match get_text(doc, "asn") { Ok(x) => x, Err(_) => return Err(shape_error()), };
    let v_is_proxy = match get_bool(doc, "is_proxy") { Ok(x) => x, Err(_) => return Err(shape_error()), };
    let v_usage_type = match get_text(doc, "usage_type") { Ok(x) => x, Err(_) => return Err(shape_error()), };
    if v_error.is_some() {
        return Err(SourceError::Unavailable(owned("ip2location error")));
    }
    let mut d = SourceData::new("ip2loc");
    d.country = v_country_name;
    d.region = v_region_name;
    d.city = v_city_name;
    d.lat = v_latitude;
    d.lon = v_longitude;
    d.timezone = v_time_zone;
    d.is_proxy = v_is_proxy;
    d.usage_type = v_usage_type;
    d.asn = match &v_asn {
        Some(a) => {
            let c = chars_of(a.as_str());
            parse_u32_chars(c.as_slice())
        },
        None => None,
    };
    d.as_org = v_as;
    Ok(d)
}

/// Parses a IP2Location.io response body: a body that is not JSON is a `Parse`
/// error with the JSON parser's message; a parsed document is decoded by
/// `from_json`.
pub fn parse(body: &str) -> (r: Result<SourceData, SourceError>)
    ensures
        outcome(r) == match parsed_json(body@) {
            Ok(doc) => decode(doc),
            Err(e) => Err(SourceErrorV::Parse(e)),
        },
{
    match parse_json(body) {
        Ok(doc) => from_json(&doc),
        Err(e) => Err(SourceError::Parse(e)),
    }
}

/// The IP2Location.io source; `base` is the service's origin.
pub struct Ip2Location {
    pub base: String,
}

impl Default for Ip2Location {
    fn default() -> (r: Self)
        ensures
            r.base@ == "https://api.ip2location.io"@,
    {
        Ip2Location { base: owned("https://api.ip2location.io") }
    }
}

impl Ip2Location {
    /// The source's id in reports.
    pub fn id(&self) -> (r: &'static str)
        ensures
            r@ == "ip2loc"@,
    {
        "ip2loc"
    }

    /// The lookup request for `ip`.
    pub fn request(&self, ip: &str) -> (r: HttpRequest)
        ensures
            r.url@ == self.base@ + "/?ip="@ + ip@,
            r.headers@.len() == 0,
    {
        let mut u = self.base.clone();
        push_text(&mut u, "/?ip=");
        push_text(&mut u, ip);
        get(u)
    }
}

} // verus!
