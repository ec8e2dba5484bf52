//! ipquery.io: ISP, location and risk flags (VPN, proxy, Tor, data centre, risk score).

use vstd::prelude::*;
use crate::json::{Json, bool_of, bool_val, dec_val, decimal_of, field, get_bool, get_decimal, get_i64, get_record, get_text, i64_of, i64_val, is_record, parse_json, parsed_json, rec_val, record_of, sub_field, text_of, text_val};
use crate::model::{SourceData, SourceDataV, SourceError, SourceErrorV, blank, outcome};
use crate::sources::{bad_shape, shape_error, HttpRequest, get};
use crate::text::{owned, push_text};
use crate::numtext::{as_number, asn_num};

verus! {

/// The response's `isp`.
pub open spec fn f_isp(doc: Json) -> Option<Json> {
    rec_val(field(doc, "isp"@))
}

/// The response's `isp.asn`.
pub open spec fn f_isp_asn(doc: Json) -> Option<Seq<char>> {
    text_val(sub_field(rec_val(field(doc, "isp"@)), "asn"@))
}

/// The response's `isp.org`.
pub open spec fn f_isp_org(doc: Json) -> Option<Seq<char>> {
    text_val(sub_field(rec_val(field(doc, "isp"@)), "org"@))
}

/// The response's `isp.isp`.
pub open spec fn f_isp_isp(doc: Json) -> Option<Seq<char>> {
    text_val(sub_field(rec_val(field(doc, "isp"@)), "isp"@))
}

/// The response's `location`.
pub open spec fn f_location(doc: Json) -> Option<Json> {
    rec_val(field(doc, "location"@))
}

/// The response's `location.country`.
pub open spec fn f_location_country(doc: Json) -> Option<Seq<char>> {
    text_val(sub_field(rec_val(field(doc, "location"@)), "country"@))
}

/// The response's `location.state`.
pub open spec fn f_location_state(doc: Json) -> Option<Seq<char>> {
    text_val(sub_field(rec_val(field(doc, "location"@)), "state"@))
}

/// The response's `location.city`.
pub open spec fn f_location_city(doc: Json) -> Option<Seq<char>> {
    text_val(sub_field(rec_val(field(doc, "location"@)), "city"@))
}

/// The response's `location.latitude`.
pub open spec fn f_location_latitude(doc: Json) -> Option<Seq<char>> {
    dec_val(sub_field(rec_val(field(doc, "location"@)), "latitude"@))
}

/// The response's `location.longitude`.
pub open spec fn f_location_longitude(doc: Json) -> Option<Seq<char>> {
    dec_val(sub_field(rec_val(field(doc, "location"@)), "longitude"@))
}

/// The response's `location.timezone`.
pub open spec fn f_location_timezone(doc: Json) -> Option<Seq<char>> {
    text_val(sub_field(rec_val(field(doc, "location"@)), "timezone"@))
}

/// The response's `risk.is_mobile`.
pub open spec fn f_risk_is_mobile(doc: Json) -> Option<bool> {
    bool_val(sub_field(rec_val(field(doc, "risk"@)), "is_mobile"@))
}

/// The response's `risk.is_vpn`.
pub open spec fn f_risk_is_vpn(doc: Json) -> Option<bool> {
    bool_val(sub_field(rec_val(field(doc, "risk"@)), "is_vpn"@))
}

/// The response's `risk.is_tor`.
pub open spec fn f_risk_is_tor(doc: Json) -> Option<bool> {
    bool_val(sub_field(rec_val(field(doc, "risk"@)), "is_tor"@))
}

/// The response's `risk.is_proxy`.
pub open spec fn f_risk_is_proxy(doc: Json) -> Option<bool> {
    bool_val(sub_field(rec_val(field(doc, "risk"@)), "is_proxy"@))
}

/// The response's `risk.is_datacenter`.
pub open spec fn f_risk_is_datacenter(doc: Json) -> Option<bool> {
    bool_val(sub_field(rec_val(field(doc, "risk"@)), "is_datacenter"@))
}

/// The response's `risk.risk_score`.
pub open spec fn f_risk_risk_score(doc: Json) -> Option<i64> {
    i64_val(sub_field(rec_val(field(doc, "risk"@)), "risk_score"@))
}

/// The response has the fields and types the decoder expects.
pub open spec fn well_typed(doc: Json) -> bool {
    &&& is_record(doc)
    &&& record_of(field(doc, "isp"@)) is Ok
    &&& text_of(sub_field(rec_val(field(doc, "isp"@)), "asn"@)) is Ok
    &&& text_of(sub_field(rec_val(field(doc, "isp"@)), "org"@)) is Ok
    &&& text_of(sub_field(rec_val(field(doc, "isp"@)), "isp"@)) is Ok
    &&& record_of(field(doc, "location"@)) is Ok
    &&& text_of(sub_field(rec_val(field(doc, "location"@)), "country"@)) is Ok
    &&& text_of(sub_field(rec_val(field(doc, "location"@)), "state"@)) is Ok
    &&& text_of(sub_field(rec_val(field(doc, "location"@)), "city"@)) is Ok
    &&& decimal_of(sub_field(rec_val(field(doc, "location"@)), "latitude"@)) is Ok
    &&& decimal_of(sub_field(rec_val(field(doc, "location"@)), "longitude"@)) is Ok
    &&& text_of(sub_field(rec_val(field(doc, "location"@)), "timezone"@)) is Ok
    &&& record_of(field(doc, "risk"@)) is Ok
    &&& bool_of(sub_field(rec_val(field(doc, "risk"@)), "is_mobile"@)) is Ok
    &&& bool_of(sub_field(rec_val(field(doc, "risk"@)), "is_vpn"@)) is Ok
    &&& bool_of(sub_field(rec_val(field(doc, "risk"@)), "is_tor"@)) is Ok
    &&& bool_of(sub_field(rec_val(field(doc, "risk"@)), "is_proxy"@)) is Ok
    &&& bool_of(sub_field(rec_val(field(doc, "risk"@)), "is_datacenter"@)) is Ok
    &&& i64_of(sub_field(rec_val(field(doc, "risk"@)), "risk_score"@)) is Ok
}

/// What an ipquery.io response means: the AS number after its `AS` prefix, the organisation and ISP, the location, and the risk flags.
pub open spec fn decode(doc: Json) -> Result<SourceDataV, SourceErrorV> {
    if !well_typed(doc) {
        Err(bad_shape())
    } else {
        Ok(SourceDataV {
            asn: match f_isp_asn(doc) { Some(a) => as_number(a), None => None },
            as_org: f_isp_org(doc),
            isp: f_isp_isp(doc),
            country: f_location_country(doc),
            region: f_location_state(doc),
            city: f_location_city(doc),
            lat: f_location_latitude(doc),
            lon: f_location_longitude(doc),
            timezone: f_location_timezone(doc),
            is_mobile: f_risk_is_mobile(doc),
            is_vpn: f_risk_is_vpn(doc),
            is_tor: f_risk_is_tor(doc),
            is_proxy: f_risk_is_proxy(doc),
            is_datacenter: f_risk_is_datacenter(doc),
            risk_score: f_risk_risk_score(doc),
            ..blank("ipquery"@)
        })
    }
}

/// Decodes a parsed ipquery.io response (see `decode`).
pub fn from_json(doc: &Json) -> (r: Result<SourceData, SourceError>)
    ensures
        outcome(r) == decode(*doc),
{
    if !matches!(doc, Json::Obj(_)) {
        return Err(shape_error());
    }
    let v_isp = match get_record(doc, "isp") { Ok(x) => x, Err(_) => return Err(shape_error()), };
    let v_isp_asn = match v_isp { Some(c) => match get_text(c, "asn") { Ok(x) => x, Err(_) => return Err(shape_error()), }, None => None };
    let v_isp_org = match v_isp { Some(c) => match get_text(c, "org") { Ok(x) => x, Err(_) => return Err(shape_error()), }, None => None };
    let v_isp_isp = match v_isp { Some(c) => match get_text(c, "isp") { Ok(x) => x, Err(_) => return Err(shape_error()), }, None => None };
    let v_location = match get_record(doc, "location") { Ok(x) => x, Err(_) => return Err(shape_error()), };
    let v_location_country = match v_location { Some(c) => match get_text(c, "country") { Ok(x) => x, Err(_) => return Err(shape_error()), }, None => None };
    let v_location_state = match v_location { Some(c) => match get_text(c, "state") { Ok(x) => x, Err(_) => return Err(shape_error()), }, None => None };
    let v_location_city = match v_location { Some(c) => match get_text(c, "city") { Ok(x) => x, Err(_) => return Err(shape_error()), }, None => None };
    let v_location_latitude = match v_location { Some(c) => match get_decimal(c, "latitude") { Ok(x) => x, Err(_) => return Err(shape_error()), }, None => None };
    let v_location_longitude = match v_location { Some(c) => match get_decimal(c, "longitude") { Ok(x) => x, Err(_) => return Err(shape_error()), }, None => None };
    let v_location_timezone = match v_location { Some(c) => match get_text(c, "timezone") { Ok(x) => x, Err(_) => return Err(shape_error()), }, None => None };
    let v_risk = match get_record(doc, "risk") { Ok(x) => x, Err(_) => return Err(shape_error()), };
    let v_risk_is_mobile = match v_risk { Some(c) => match get_bool(c, "is_mobile") { Ok(x) => x, Err(_) => return Err(shape_error()), }, None => None };
    let v_risk_is_vpn = match v_risk { Some(c) => match get_bool(c, "is_vpn") { Ok(x) => x, Err(_) => return Err(shape_error()), }, None => None };
    let v_risk_is_tor = match v_risk { Some(c) => match get_bool(c, "is_tor") { Ok(x) => x, Err(_) => return Err(shape_error()), }, None => None };
    let v_risk_is_proxy = match v_risk { Some(c) => match get_bool(c, "is_proxy") { Ok(x) => x, Err(_) => return Err(shape_error()), }, None => None };
    let v_risk_is_datacenter = match v_risk { Some(c) => match get_bool(c, "is_datacenter") { Ok(x) => x, Err(_) => return Err(shape_error()), }, None => None };
    let v_risk_risk_score = match v_risk { Some(c) => match get_i64(c, "risk_score") { Ok(x) => x, Err(_) => return Err(shape_error()), }, None => None };
    let mut d = SourceData::new("ipquery");
    d.asn = match &v_isp_asn { Some(a) => asn_num(a.as_str()), None => None };
    d.as_org = v_isp_org;
    d.isp = v_isp_isp;
    d.country = v_location_country;
    d.region = v_location_state;
    d.city = v_location_city;
    d.lat = v_location_latitude;
    d.lon = v_location_longitude;
    d.timezone = v_location_timezone;
    d.is_mobile = v_risk_is_mobile;
    d.is_vpn = v_risk_is_vpn;
    d.is_tor = v_risk_is_tor;
    d.is_proxy = v_risk_is_proxy;
    d.is_datacenter = v_risk_is_datacenter;
    d.risk_score = v_risk_risk_score;
    Ok(d)
}

/// Parses a ipquery.io response body: a body that is not JSON is a `Parse`
/// error with the JSON parser's message; a parsed document is decoded by
/// `from_json`.
pub fn parse(body: &str) -> (r: Result<SourceData, SourceError>)
    ensures
        outcome(r) == match parsed_json(body@) {
            Ok(doc) => decode(doc),
            Err(e) => Err(SourceErrorV::Parse(e)),
        },
{
    match parse_json(body) {
        Ok(doc) => from_json(&doc),
        Err(e) => Err(SourceError::Parse(e)),
    }
}

/// The ipquery.io source; `base` is the service's origin.
pub struct IpQuery {
    pub base: String,
}

impl Default for IpQuery {
    fn default() -> (r: Self)
        ensures
            r.base@ == "https://api.ipquery.io"@,
    {
        IpQuery { base: owned("https://api.ipquery.io") }
    }
}

impl IpQuery {
    /// The source's id in reports.
    pub fn id(&self) -> (r: &'static str)
        ensures
            r@ == "ipquery"@,
    {
        "ipquery"
    }

    /// The lookup request for `ip`.
    pub fn request(&self, ip: &str) -> (r: HttpRequest)
        ensures
            r.url@ == self.base@ + "/"@ + ip@,
            r.headers@.len() == 0,
    {
        let mut u = self.base.clone();
        push_text(&mut u, "/");
        push_text(&mut u, ip);
        get(u)
    }
}

} // verus!
