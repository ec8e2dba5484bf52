//! ip.sb: geolocation, ISP and AS of an address.

use vstd::prelude::*;
use crate::json::{Json, dec_val, decimal_of, field, get_decimal, get_text, get_u32, is_record, parse_json, parsed_json, text_of, text_val, u32_of, u32_val};
use crate::model::{SourceData, SourceDataV, SourceError, SourceErrorV, blank, outcome};
use crate::sources::{bad_shape, shape_error, HttpRequest, get};
use crate::text::{owned, push_text};

verus! {

/// The response's `country`.
pub open spec fn f_country(doc: Json) -> Option<Seq<char>> {
    text_val(field(doc, "country"@))
}

/// The response's `asn`.
pub open spec fn f_asn(doc: Json) -> Option<u32> {
    u32_val(field(doc, "asn"@))
}

/// The response's `asn_organization`.
pub open spec fn f_asn_organization(doc: Json) -> Option<Seq<char>> {
    text_val(field(doc, "asn_organization"@))
}

/// The response's `isp`.
pub open spec fn f_isp(doc: Json) -> Option<Seq<char>> {
    text_val(field(doc, "isp"@))
}

/// The response's `city`.
pub open spec fn f_city(doc: Json) -> Option<Seq<char>> {
    text_val(field(doc, "city"@))
}

/// The response's `region`.
pub open spec fn f_region(doc: Json) -> Option<Seq<char>> {
    text_val(field(doc, "region"@))
}

/// The response's `latitude`.
pub open spec fn f_latitude(doc: Json) -> Option<Seq<char>> {
    dec_val(field(doc, "latitude"@))
}

/// The response's `longitude`.
pub open spec fn f_longitude(doc: Json) -> Option<Seq<char>> {
    dec_val(field(doc, "longitude"@))
}

/// The response's `timezone`.
pub open spec fn f_timezone(doc: Json) -> Option<Seq<char>> {
    text_val(field(doc, "timezone"@))
}

/// The response has the fields and types the decoder expects.
pub open spec fn well_typed(doc: Json) -> bool {
    &&& is_record(doc)
    &&& text_of(field(doc, "country"@)) is Ok
    &&& u32_of(field(doc, "asn"@)) is Ok
    &&& text_of(field(doc, "asn_organization"@)) is Ok
    &&& text_of(field(doc, "isp"@)) is Ok
    &&& text_of(field(doc, "city"@)) is Ok
    &&& text_of(field(doc, "region"@)) is Ok
    &&& decimal_of(field(doc, "latitude"@)) is Ok
    &&& decimal_of(field(doc, "longitude"@)) is Ok
    &&& text_of(field(doc, "timezone"@)) is Ok
}

/// What an ip.sb response means: its location, ISP, AS and time zone.
pub open spec fn decode(doc: Json) -> Result<SourceDataV, SourceErrorV> {
    if !well_typed(doc) {
        Err(bad_shape())
    } else {
        Ok(SourceDataV {
            asn: f_asn(doc),
            as_org: f_asn_organization(doc),
            isp: f_isp(doc),
            country: f_country(doc),
            region: f_region(doc),
            city: f_city(doc),
            lat: f_latitude(doc),
            lon: f_longitude(doc),
            timezone: f_timezone(doc),
            ..blank("ipsb"@)
        })
    }
}

/// Decodes a parsed ip.sb response (see `decode`).
pub fn from_json(doc: &Json) -> (r: Result<SourceData, SourceError>)
    ensures
        outcome(r) == decode(*doc),
{
    if !matches!(doc, Json::Obj(_)) {
        return Err(shape_error());
    }
    let v_country = match get_text(doc, "country") { Ok(x) => x, Err(_) => return Err(shape_error()), };
    let v_asn = match get_u32(doc, "asn") { Ok(x) => x, Err(_) => return Err(shape_error()), };
    let v_asn_organization = match get_text(doc, "asn_organization") { Ok(x) => x, Err(_) => return Err(shape_error()), };
    let v_isp = match get_text(doc, "isp") { Ok(x) => x, Err(_) => return Err(shape_error()), };
    let v_city = match get_text(doc, "city") { Ok(x) => x, Err(_) => return Err(shape_error()), };
    let v_region = match get_text(doc, "region") { Ok(x) => x, Err(_) => return Err(shape_error()), };
    let v_latitude = match get_decimal(doc, "latitude") { Ok(x) => x, Err(_) => return Err(shape_error()), };
    let v_longitude = match get_decimal(doc, "longitude") { Ok(x) => x, Err(_) => return Err(shape_error()), };
    let v_timezone = match get_text(doc, "timezone") { Ok(x) => x, Err(_) => return Err(shape_error()), };
    let mut d = SourceData::new("ipsb");
    d.asn = v_asn;
    d.as_org = v_asn_organization;
    d.isp = v_isp;
    d.country = v_country;
    d.region = v_region;
    d.city = v_city;
    d.lat = v_latitude;
    d.lon = v_longitude;
    d.timezone = v_timezone;
    Ok(d)
}

/// Parses a ip.sb response body: a body that is not JSON is a `Parse`
/// error with the JSON parser's message; a parsed document is decoded by
/// `from_json`.
pub fn parse(body: &str) -> (r: Result<SourceData, SourceError>)
    ensures
        outcome(r) == match parsed_json(body@) {
            Ok(doc) => decode(doc),
            Err(e) => Err(SourceErrorV::Parse(e)),
        },
{
    match parse_json(body) {
        Ok(doc) => from_json(&doc),
        Err(e) => Err(SourceError::Parse(e)),
    }
}

/// The ip.sb source; `base` is the service's origin.
pub struct IpSb {
    pub base: String,
}

impl Default for IpSb {
    fn default() -> (r: Self)
        ensures
            r.base@ == "https://api.ip.sb"@,
    {
        IpSb { base: owned("https://api.ip.sb") }
    }
}

impl IpSb {
    /// The source's id in reports.
    pub fn id(&self) -> (r: &'static str)
        ensures
            r@ == "ipsb"@,
    {
        "ipsb"
    }

    /// The lookup request for `ip`.
    pub fn request(&self, ip: &str) -> (r: HttpRequest)
        ensures
            r.url@ == self.base@ + "/geoip/"@ + ip@,
            r.headers@.len() == 0,
    {
        let mut u = self.base.clone();
        push_text(&mut u, "/geoip/");
        push_text(&mut u, ip);
        get(u)
    }
}

} // verus!
