//! BigDataCloud: country, city, network and hazard report (needs an API key).

use vstd::prelude::*;
use crate::json::{Json, bool_of, bool_val, field, get_bool, get_i64, get_record, get_text, i64_of, i64_val, is_record, parse_json, parsed_json, rec_val, record_of, sub_field, text_of, text_val};
use crate::model::{SourceData, SourceDataV, SourceError, SourceErrorV, blank, outcome, opt_text};
use crate::sources::{bad_shape, shape_error, HttpRequest, get, secret, nonempty};
use crate::text::{owned, push_text};

verus! {

/// The response's `country`.
pub open spec fn f_country(doc: Json) -> Option<Json> {
    rec_val(field(doc, "country"@))
}

/// The response's `country.isoAlpha2`.
pub open spec fn f_country_isoalpha2(doc: Json) -> Option<Seq<char>> {
    text_val(sub_field(rec_val(field(doc, "country"@)), "isoAlpha2"@))
}

/// The response's `location`.
pub open spec fn f_location(doc: Json) -> Option<Json> {
    rec_val(field(doc, "location"@))
}

/// The response's `location.city`.
pub open spec fn f_location_city(doc: Json) -> Option<Seq<char>> {
    text_val(sub_field(rec_val(field(doc, "location"@)), "city"@))
}

/// The response's `network.organisation`.
pub open spec fn f_network_organisation(doc: Json) -> Option<Seq<char>> {
    text_val(sub_field(rec_val(field(doc, "network"@)), "organisation"@))
}

/// The response's `hazardReport.isKnownAsVpn`.
pub open spec fn f_hazardreport_isknownasvpn(doc: Json) -> Option<bool> {
    bool_val(sub_field(rec_val(field(doc, "hazardReport"@)), "isKnownAsVpn"@))
}

/// The response's `hazardReport.isKnownAsTorServer`.
pub open spec fn f_hazardreport_isknownastorserver(doc: Json) -> Option<bool> {
    bool_val(sub_field(rec_val(field(doc, "hazardReport"@)), "isKnownAsTorServer"@))
}

/// The response's `hazardReport.isKnownAsProxy`.
pub open spec fn f_hazardreport_isknownasproxy(doc: Json) -> Option<bool> {
    bool_val(sub_field(rec_val(field(doc, "hazardReport"@)), "isKnownAsProxy"@))
}

/// The response's `hazardReport.hazardScore`.
pub open spec fn f_hazardreport_hazardscore(doc: Json) -> Option<i64> {
    i64_val(sub_field(rec_val(field(doc, "hazardReport"@)), "hazardScore"@))
}

/// The response has the fields and types the decoder expects.
pub open spec fn well_typed(doc: Json) -> bool {
    &&& is_record(doc)
    &&& record_of(field(doc, "country"@)) is Ok
    &&& text_of(sub_field(rec_val(field(doc, "country"@)), "isoAlpha2"@)) is Ok
    &&& record_of(field(doc, "location"@)) is Ok
    &&& text_of(sub_field(rec_val(field(doc, "location"@)), "city"@)) is Ok
    &&& record_of(field(doc, "network"@)) is Ok
    &&& text_of(sub_field(rec_val(field(doc, "network"@)), "organisation"@)) is Ok
    &&& record_of(field(doc, "hazardReport"@)) is Ok
    &&& bool_of(sub_field(rec_val(field(doc, "hazardReport"@)), "isKnownAsVpn"@)) is Ok
    &&& bool_of(sub_field(rec_val(field(doc, "hazardReport"@)), "isKnownAsTorServer"@)) is Ok
    &&& bool_of(sub_field(rec_val(field(doc, "hazardReport"@)), "isKnownAsProxy"@)) is Ok
    &&& i64_of(sub_field(rec_val(field(doc, "hazardReport"@)), "hazardScore"@)) is Ok
}

/// What a BigDataCloud response means: country code, city, network organisation and the hazard flags and score.
pub open spec fn decode(doc: Json) -> Result<SourceDataV, SourceErrorV> {
    if !well_typed(doc) {
        Err(bad_shape())
    } else {
        Ok(SourceDataV {
            country: f_country_isoalpha2(doc),
            city: f_location_city(doc),
            as_org: f_network_organisation(doc),
            is_vpn: f_hazardreport_isknownasvpn(doc),
            is_tor: f_hazardreport_isknownastorserver(doc),
            is_proxy: f_hazardreport_isknownasproxy(doc),
            risk_score: f_hazardreport_hazardscore(doc),
            ..blank("bdc"@)
        })
    }
}

/// Decodes a parsed BigDataCloud response (see `decode`).
pub fn from_json(doc: &Json) -> (r: Result<SourceData, SourceError>)
    ensures
        outcome(r) == decode(*doc),
{
    if !matches!(doc, Json::Obj(_)) {
        return Err(shape_error());
    }
    let v_country = match get_record(doc, "country") { Ok(x) => x, Err(_) => return Err(shape_error()), };
    let v_country_isoalpha2 = match v_country { Some(c) => match get_text(c, "isoAlpha2") { Ok(x) => x, Err(_) => return Err(shape_error()), }, None => None };
    let v_location = match get_record(doc, "location") { Ok(x) => x, Err(_) => return Err(shape_error()), };
    let v_location_city = match v_location { Some(c) => match get_text(c, "city") { Ok(x) => x, Err(_) => return Err(shape_error()), }, None => None };
    let v_network = match get_record(doc, "network") { Ok(x) => x, Err(_) => return Err(shape_error()), };
    let v_network_organisation = match v_network { Some(c) => match get_text(c, "organisation") { Ok(x) => x, Err(_) => return Err(shape_error()), }, None => None };
    let v_hazardreport = match get_record(doc, "hazardReport") { Ok(x) => x, Err(_) => return Err(shape_error()), };
    let v_hazardreport_isknownasvpn = match v_hazardreport { Some(c) => match get_bool(c, "isKnownAsVpn") { Ok(x) => x, Err(_) => return Err(shape_error()), }, None => None };
    let v_hazardreport_isknownastorserver = match v_hazardreport { Some(c) => match get_bool(c, "isKnownAsTorServer") { Ok(x) => x, Err(_) => return Err(shape_error()), }, None => None };
    let v_hazardreport_isknownasproxy = match v_hazardreport { Some(c) => match get_bool(c, "isKnownAsProxy") { Ok(x) => x, Err(_) => return Err(shape_error()), }, None => None };
    let v_hazardreport_hazardscore = match v_hazardreport { Some(c) => match get_i64(c, "hazardScore") { Ok(x) => x, Err(_) => return Err(shape_error()), }, None => None };
    let mut d = SourceData::new("bdc");
    d.country = v_country_isoalpha2;
    d.city = v_location_city;
    d.as_org = v_network_organisation;
    d.is_vpn = v_hazardreport_isknownasvpn;
    d.is_tor = v_hazardreport_isknownastorserver;
    d.is_proxy = v_hazardreport_isknownasproxy;
    d.risk_score = v_hazardreport_hazardscore;
    Ok(d)
}

/// Parses a BigDataCloud response body: a body that is not JSON is a `Parse`
/// error with the JSON parser's message; a parsed document is decoded by
/// `from_json`.
pub fn parse(body: &str) -> (r: Result<SourceData, SourceError>)
    ensures
        outcome(r) == match parsed_json(body@) {
            Ok(doc) => decode(doc),
            Err(e) => Err(SourceErrorV::Parse(e)),
        },
{
    match parse_json(body) {
        Ok(doc) => from_json(&doc),
        Err(e) => Err(SourceError::Parse(e)),
    }
}

/// The BigDataCloud source: `base` is the service's origin, `key` the API key
/// (configured as `IPANO_BDC_KEY`).
pub struct BigDataCloud {
    pub base: String,
    pub key: Option<String>,
}

impl Default for BigDataCloud {
    /// The service's origin, with no key.
    fn default() -> (r: Self)
        ensures
            r.base@ == "https://api.bigdatacloud.net"@,
            r.key is None,
    {
        BigDataCloud { base: owned("https://api.bigdatacloud.net"), key: None }
    }
}

impl BigDataCloud {
    /// The service's origin, with the configured key value (an empty value
    /// counts as none).
    pub fn with_key(value: Option<String>) -> (r: Self)
        ensures
            r.base@ == "https://api.bigdatacloud.net"@,
            opt_text(r.key) == secret(opt_text(value)),
    {
        BigDataCloud { base: owned("https://api.bigdatacloud.net"), key: nonempty(value) }
    }

    /// The source's id in reports.
    pub fn id(&self) -> (r: &'static str)
        ensures
            r@ == "bdc"@,
    {
        "bdc"
    }

    /// The lookup request for `ip`; without a key the source needs one.
    pub fn request(&self, ip: &str) -> (r: Result<HttpRequest, SourceError>)
        ensures
            self.key is None ==> (r matches Err(e) && e@ == SourceErrorV::NeedsKey("IPANO_BDC_KEY"@)),
            self.key matches Some(k) ==> (r matches Ok(q) && q.url@ == self.base@ + "/data/ip-geolocation-full?ip="@ + ip@ + "&localityLanguage=en&key="@ + k@),
            r matches Ok(q) ==> q.headers@.len() == 0,
    {
        let k = match &self.key {
            Some(k) => k,
            None => return Err(SourceError::NeedsKey(owned("IPANO_BDC_KEY"))),
        };
        let mut u = self.base.clone();
        push_text(&mut u, "/data/ip-geolocation-full?ip=");
        push_text(&mut u, ip);
        push_text(&mut u, "&localityLanguage=en&key=");
        push_text(&mut u, k.as_str());
    Ok(get(u))
    }

    /// Outcome of a response: 429 means rate limited; any other status is
    /// decoded from the body.
    pub fn interpret(&self, status: u16, body: &str) -> (r: Result<SourceData, SourceError>)
        ensures
            status == 429 ==> outcome(r) == Err::<SourceDataV, SourceErrorV>(SourceErrorV::RateLimited),
            status != 429 ==> outcome(r) == match parsed_json(body@) {
                Ok(doc) => decode(doc),
                Err(e) => Err(SourceErrorV::Parse(e)),
            },
    {
        if status == 429 {
            return Err(SourceError::RateLimited);
        }
        parse(body)
    }
}

} // verus!
