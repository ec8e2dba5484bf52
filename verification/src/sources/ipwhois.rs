//! ipwho.is: geolocation, connection and time zone of an address.

use vstd::prelude::*;
use crate::json::{Json, bool_of, bool_val, dec_val, decimal_of, field, get_bool, get_decimal, get_record, get_text, get_u32, is_record, parse_json, parsed_json, rec_val, record_of, sub_field, text_of, text_val, u32_of, u32_val};
use crate::model::{SourceData, SourceDataV, SourceError, SourceErrorV, blank, outcome};
use crate::sources::{bad_shape, shape_error, HttpRequest, get};
use crate::text::{owned, push_text};

verus! {

/// The response's `success`.
pub open spec fn f_success(doc: Json) -> Option<bool> {
    bool_val(field(doc, "success"@))
}

/// The response's `message`.
pub open spec fn f_message(doc: Json) -> Option<Seq<char>> {
    text_val(field(doc, "message"@))
}

/// The response's `country`.
pub open spec fn f_country(doc: Json) -> Option<Seq<char>> {
    text_val(field(doc, "country"@))
}

/// The response's `region`.
pub open spec fn f_region(doc: Json) -> Option<Seq<char>> {
    text_val(field(doc, "region"@))
}

/// The response's `city`.
pub open spec fn f_city(doc: Json) -> Option<Seq<char>> {
    text_val(field(doc, "city"@))
}

/// The response's `latitude`.
pub open spec fn f_latitude(doc: Json) -> Option<Seq<char>> {
    dec_val(field(doc, "latitude"@))
}

/// The response's `longitude`.
pub open spec fn f_longitude(doc: Json) -> Option<Seq<char>> {
    dec_val(field(doc, "longitude"@))
}

/// The response's `connection`.
pub open spec fn f_connection(doc: Json) -> Option<Json> {
    rec_val(field(doc, "connection"@))
}

/// The response's `connection.asn`.
pub open spec fn f_connection_asn(doc: Json) -> Option<u32> {
    u32_val(sub_field(rec_val(field(doc, "connection"@)), "asn"@))
}

/// The response's `connection.isp`.
pub open spec fn f_connection_isp(doc: Json) -> Option<Seq<char>> {
    text_val(sub_field(rec_val(field(doc, "connection"@)), "isp"@))
}

/// The response's `connection.org`.
pub open spec fn f_connection_org(doc: Json) -> Option<Seq<char>> {
    text_val(sub_field(rec_val(field(doc, "connection"@)), "org"@))
}

/// The response's `timezone`.
pub open spec fn f_timezone(doc: Json) -> Option<Json> {
    rec_val(field(doc, "timezone"@))
}

/// The response's `timezone.id`.
pub open spec fn f_timezone_id(doc: Json) -> Option<Seq<char>> {
    text_val(sub_field(rec_val(field(doc, "timezone"@)), "id"@))
}

/// The response has the fields and types the decoder expects.
pub open spec fn well_typed(doc: Json) -> bool {
    &&& is_record(doc)
    &&& bool_of(field(doc, "success"@)) matches Ok(Some(_))
    &&& text_of(field(doc, "message"@)) is Ok
    &&& text_of(field(doc, "country"@)) is Ok
    &&& text_of(field(doc, "region"@)) is Ok
    &&& text_of(field(doc, "city"@)) is Ok
    &&& decimal_of(field(doc, "latitude"@)) is Ok
    &&& decimal_of(field(doc, "longitude"@)) is Ok
    &&& record_of(field(doc, "connection"@)) is Ok
    &&& u32_of(sub_field(rec_val(field(doc, "connection"@)), "asn"@)) is Ok
    &&& text_of(sub_field(rec_val(field(doc, "connection"@)), "isp"@)) is Ok
    &&& text_of(sub_field(rec_val(field(doc, "connection"@)), "org"@)) is Ok
    &&& record_of(field(doc, "timezone"@)) is Ok
    &&& text_of(sub_field(rec_val(field(doc, "timezone"@)), "id"@)) is Ok
}

/// What an ipwho.is response means: an unsuccessful lookup is unavailability with the service's message; a successful one gives location, connection and time zone.
pub open spec fn decode(doc: Json) -> Result<SourceDataV, SourceErrorV> {
    if !well_typed(doc) {
        Err(bad_shape())
    } else {
        if f_success(doc) != Some(true) {
            Err(SourceErrorV::Unavailable(match f_message(doc) { Some(m) => m, None => Seq::empty() }))
        } else {
            Ok(SourceDataV {
                country: f_country(doc),
                region: f_region(doc),
                city: f_city(doc),
                lat: f_latitude(doc),
                lon: f_longitude(doc),
                timezone: f_timezone_id(doc),
                asn: f_connection_asn(doc),
                isp: f_connection_isp(doc),
                org: f_connection_org(doc),
                ..blank("ipwhois"@)
            })
        }
    }
}

/// Decodes a parsed ipwho.is response (see `decode`).
pub fn from_json(doc: &Json) -> (r: Result<SourceData, SourceError>)
    ensures
        outcome(r) == decode(*doc),
{
    if !matches!(doc, Json::Obj(_)) {
        return Err(shape_error());
    }
    let v_success = match get_bool(doc, "success") { Ok(Some(x)) => x, _ => return Err(shape_error()), };
    let v_message = match get_text(doc, "message") { Ok(x) => x, Err(_) => return Err(shape_error()), };
    let v_country = match get_text(doc, "country") { Ok(x) => x, Err(_) => return Err(shape_error()), };
    let v_region = match get_text(doc, "region") { Ok(x) => x, Err(_) => return Err(shape_error()), };
    let v_city = match get_text(doc, "city") { Ok(x) => x, Err(_) => return Err(shape_error()), };
    let v_latitude = match get_decimal(doc, "latitude") { Ok(x) => x, Err(_) => return Err(shape_error()), };
    let v_longitude = match get_decimal(doc, "longitude") { Ok(x) => x, Err(_) => return Err(shape_error()), };
    let v_connection = match get_record(doc, "connection") { Ok(x) => x, Err(_) => return Err(shape_error()), };
    let v_connection_asn = match v_connection { Some(c) => match get_u32(c, "asn") { Ok(x) => x, Err(_) => return Err(shape_error()), }, None => None };
    let v_connection_isp = match v_connection { Some(c) => match get_text(c, "isp") { Ok(x) => x, Err(_) => return Err(shape_error()), }, None => None };
    let v_connection_org = match v_connection { Some(c) => match get_text(c, "org") { Ok(x) => x, Err(_) => return Err(shape_error()), }, None => None };
    let v_timezone = match get_record(doc, "timezone") { Ok(x) => x, Err(_) => return Err(shape_error()), };
    let v_timezone_id = match v_timezone { Some(c) => match get_text(c, "id") { Ok(x) => x, Err(_) => return Err(shape_error()), }, None => None };
    if !v_success {
        let m = match v_message { Some(m) => m, None => String::new() };
        return Err(SourceError::Unavailable(m));
    }
    let mut d = SourceData::new("ipwhois");
    d.country = v_country;
    d.region = v_region;
    d.city = v_city;
    d.lat = v_latitude;
    d.lon = v_longitude;
    d.timezone = v_timezone_id;
    d.asn = v_connection_asn;
    d.isp = v_connection_isp;
    d.org = v_connection_org;
    Ok(d)
}

/// Parses a ipwho.is response body: a body that is not JSON is a `Parse`
/// error with the JSON parser's message; a parsed document is decoded by
/// `from_json`.
pub fn parse(body: &str) -> (r: Result<SourceData, SourceError>)
    ensures
        outcome(r) == match parsed_json(body@) {
            Ok(doc) => decode(doc),
            Err(e) => Err(SourceErrorV::Parse(e)),
        },
{
    match parse_json(body) {
        Ok(doc) => from_json(&doc),
        Err(e) => Err(SourceError::Parse(e)),
    }
}

/// The ipwho.is source; `base` is the service's origin.
pub struct IpWhois {
    pub base: String,
}

impl Default for IpWhois {
    fn default() -> (r: Self)
        ensures
            r.base@ == "http://ipwho.is"@,
    {
        IpWhois { base: owned("http://ipwho.is") }
    }
}

impl IpWhois {
    /// The source's id in reports.
    pub fn id(&self) -> (r: &'static str)
        ensures
            r@ == "ipwhois"@,
    {
        "ipwhois"
    }

    /// The lookup request for `ip`.
    pub fn request(&self, ip: &str) -> (r: HttpRequest)
        ensures
            r.url@ == self.base@ + "/"@ + ip@,
            r.headers@.len() == 0,
    {
        let mut u = self.base.clone();
        push_text(&mut u, "/");
        push_text(&mut u, ip);
        get(u)
    }
}

} // verus!
