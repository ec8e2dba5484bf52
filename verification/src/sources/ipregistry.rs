//! ipregistry: company type, connection, location and security flags (needs an API key).

use vstd::prelude::*;
use crate::json::{Json, bool_of, bool_val, field, get_bool, get_record, get_text, get_u32, is_record, parse_json, parsed_json, rec_val, record_of, sub_field, text_of, text_val, u32_of, u32_val};
use crate::model::{SourceData, SourceDataV, SourceError, SourceErrorV, blank, outcome, opt_text};
use crate::sources::{bad_shape, shape_error, HttpRequest, get, secret, nonempty};
use crate::text::{owned, push_text};

verus! {

/// The response's `company`.
pub open spec fn f_company(doc: Json) -> Option<Json> {
    rec_val(field(doc, "company"@))
}

/// The response's `company.type`.
pub open spec fn f_company_type(doc: Json) -> Option<Seq<char>> {
    text_val(sub_field(rec_val(field(doc, "company"@)), "type"@))
}

/// The response's `connection`.
pub open spec fn f_connection(doc: Json) -> Option<Json> {
    rec_val(field(doc, "connection"@))
}

/// The response's `connection.asn`.
pub open spec fn f_connection_asn(doc: Json) -> Option<u32> {
    u32_val(sub_field(rec_val(field(doc, "connection"@)), "asn"@))
}

/// The response's `connection.organization`.
pub open spec fn f_connection_organization(doc: Json) -> Option<Seq<char>> {
    text_val(sub_field(rec_val(field(doc, "connection"@)), "organization"@))
}

/// The response's `location`.
pub open spec fn f_location(doc: Json) -> Option<Json> {
    rec_val(field(doc, "location"@))
}

/// The response's `location.country`.
pub open spec fn f_location_country(doc: Json) -> Option<Json> {
    rec_val(sub_field(rec_val(field(doc, "location"@)), "country"@))
}

/// The response's `location.country.code`.
pub open spec fn f_location_country_code(doc: Json) -> Option<Seq<char>> {
    text_val(sub_field(rec_val(sub_field(rec_val(field(doc, "location"@)), "country"@)), "code"@))
}

/// The response's `location.region.name`.
pub open spec fn f_location_region_name(doc: Json) -> Option<Seq<char>> {
    text_val(sub_field(rec_val(sub_field(rec_val(field(doc, "location"@)), "region"@)), "name"@))
}

/// The response's `location.city`.
pub open spec fn f_location_city(doc: Json) -> Option<Seq<char>> {
    text_val(sub_field(rec_val(field(doc, "location"@)), "city"@))
}

/// The response's `security`.
pub open spec fn f_security(doc: Json) -> Option<Json> {
    rec_val(field(doc, "security"@))
}

/// The response's `security.is_proxy`.
pub open spec fn f_security_is_proxy(doc: Json) -> Option<bool> {
    bool_val(sub_field(rec_val(field(doc, "security"@)), "is_proxy"@))
}

/// The response's `security.is_vpn`.
pub open spec fn f_security_is_vpn(doc: Json) -> Option<bool> {
    bool_val(sub_field(rec_val(field(doc, "security"@)), "is_vpn"@))
}

/// The response's `security.is_tor`.
pub open spec fn f_security_is_tor(doc: Json) -> Option<bool> {
    bool_val(sub_field(rec_val(field(doc, "security"@)), "is_tor"@))
}

/// The response's `security.is_abuser`.
pub open spec fn f_security_is_abuser(doc: Json) -> Option<bool> {
    bool_val(sub_field(rec_val(field(doc, "security"@)), "is_abuser"@))
}

/// The response's `security.is_bogon`.
pub open spec fn f_security_is_bogon(doc: Json) -> Option<bool> {
    bool_val(sub_field(rec_val(field(doc, "security"@)), "is_bogon"@))
}

/// The response's `security.is_relay`.
pub open spec fn f_security_is_relay(doc: Json) -> Option<bool> {
    bool_val(sub_field(rec_val(field(doc, "security"@)), "is_relay"@))
}

/// The response's `security.is_anonymous`.
pub open spec fn f_security_is_anonymous(doc: Json) -> Option<bool> {
    bool_val(sub_field(rec_val(field(doc, "security"@)), "is_anonymous"@))
}

/// The response's `security.is_cloud_provider`.
pub open spec fn f_security_is_cloud_provider(doc: Json) -> Option<bool> {
    bool_val(sub_field(rec_val(field(doc, "security"@)), "is_cloud_provider"@))
}

/// The response has the fields and types the decoder expects.
pub open spec fn well_typed(doc: Json) -> bool {
    &&& is_record(doc)
    &&& record_of(field(doc, "company"@)) is Ok
    &&& text_of(sub_field(rec_val(field(doc, "company"@)), "type"@)) is Ok
    &&& record_of(field(doc, "connection"@)) is Ok
    &&& u32_of(sub_field(rec_val(field(doc, "connection"@)), "asn"@)) is Ok
    &&& text_of(sub_field(rec_val(field(doc, "connection"@)), "organization"@)) is Ok
    &&& record_of(field(doc, "location"@)) is Ok
    &&& record_of(sub_field(rec_val(field(doc, "location"@)), "country"@)) is Ok
    &&& text_of(sub_field(rec_val(sub_field(rec_val(field(doc, "location"@)), "country"@)), "code"@)) is Ok
    &&& text_of(sub_field(rec_val(sub_field(rec_val(field(doc, "location"@)), "country"@)), "name"@)) is Ok
    &&& record_of(sub_field(rec_val(field(doc, "location"@)), "region"@)) is Ok
    &&& text_of(sub_field(rec_val(sub_field(rec_val(field(doc, "location"@)), "region"@)), "code"@)) is Ok
    &&& text_of(sub_field(rec_val(sub_field(rec_val(field(doc, "location"@)), "region"@)), "name"@)) is Ok
    &&& text_of(sub_field(rec_val(field(doc, "location"@)), "city"@)) is Ok
    &&& record_of(field(doc, "security"@)) is Ok
    &&& bool_of(sub_field(rec_val(field(doc, "security"@)), "is_proxy"@)) is Ok
    &&& bool_of(sub_field(rec_val(field(doc, "security"@)), "is_vpn"@)) is Ok
    &&& bool_of(sub_field(rec_val(field(doc, "security"@)), "is_tor"@)) is Ok
    &&& bool_of(sub_field(rec_val(field(doc, "security"@)), "is_abuser"@)) is Ok
    &&& bool_of(sub_field(rec_val(field(doc, "security"@)), "is_bogon"@)) is Ok
    &&& bool_of(sub_field(rec_val(field(doc, "security"@)), "is_relay"@)) is Ok
    &&& bool_of(sub_field(rec_val(field(doc, "security"@)), "is_anonymous"@)) is Ok
    &&& bool_of(sub_field(rec_val(field(doc, "security"@)), "is_cloud_provider"@)) is Ok
}

/// What an ipregistry response means: company type, AS, country code, region name, city and the security flags.
pub open spec fn decode(doc: Json) -> Result<SourceDataV, SourceErrorV> {
    if !well_typed(doc) {
        Err(bad_shape())
    } else {
        Ok(SourceDataV {
            company_type: f_company_type(doc),
            asn: f_connection_asn(doc),
            as_org: f_connection_organization(doc),
            country: f_location_country_code(doc),
            region: f_location_region_name(doc),
            city: f_location_city(doc),
            is_proxy: f_security_is_proxy(doc),
            is_vpn: f_security_is_vpn(doc),
            is_tor: f_security_is_tor(doc),
            is_abuser: f_security_is_abuser(doc),
            is_bogon: f_security_is_bogon(doc),
            is_relay: f_security_is_relay(doc),
            is_anonymous: f_security_is_anonymous(doc),
            is_cloud: f_security_is_cloud_provider(doc),
            ..blank("ipreg"@)
        })
    }
}

/// Decodes a parsed ipregistry response (see `decode`).
pub fn from_json(doc: &Json) -> (r: Result<SourceData, SourceError>)
    ensures
        outcome(r) == decode(*doc),
{
    if !matches!(doc, Json::Obj(_)) {
        return Err(shape_error());
    }
    let v_company = match get_record(doc, "company") { Ok(x) => x, Err(_) => return Err(shape_error()), };
    let v_company_type = match v_company { Some(c) => match get_text(c, "type") { Ok(x) => x, Err(_) => return Err(shape_error()), }, None => None };
    let v_connection = match get_record(doc, "connection") { Ok(x) => x, Err(_) => return Err(shape_error()), };
    let v_connection_asn = match v_connection { Some(c) => match get_u32(c, "asn") { Ok(x) => x, Err(_) => return Err(shape_error()), }, None => None };
    let v_connection_organization = match v_connection { Some(c) => match get_text(c, "organization") { Ok(x) => x, Err(_) => return Err(shape_error()), }, None => None };
    let v_location = match get_record(doc, "location") { Ok(x) => x, Err(_) => return Err(shape_error()), };
    let v_location_country = match v_location { Some(c) => match get_record(c, "country") { Ok(x) => x, Err(_) => return Err(shape_error()), }, None => None };
    let v_location_country_code = match v_location_country { Some(c) => match get_text(c, "code") { Ok(x) => x, Err(_) => return Err(shape_error()), }, None => None };
    let v_location_country_name = match v_location_country { Some(c) => match get_text(c, "name") { Ok(x) => x, Err(_) => return Err(shape_error()), }, None => None };
    let v_location_region = match v_location { Some(c) => match get_record(c, "region") { Ok(x) => x, Err(_) => return Err(shape_error()), }, None => None };
    let v_location_region_code = match v_location_region { Some(c) => match get_text(c, "code") { Ok(x) => x, Err(_) => return Err(shape_error()), }, None => None };
    let v_location_region_name = match v_location_region { Some(c) => match get_text(c, "name") { Ok(x) => x, Err(_) => return Err(shape_error()), }, None => None };
    let v_location_city = match v_location { Some(c) => match get_text(c, "city") { Ok(x) => x, Err(_) => return Err(shape_error()), }, None => None };
    let v_security = match get_record(doc, "security") { Ok(x) => x, Err(_) => return Err(shape_error()), };
    let v_security_is_proxy = match v_security { Some(c) => match get_bool(c, "is_proxy") { Ok(x) => x, Err(_) => return Err(shape_error()), }, None => None };
    let v_security_is_vpn = match v_security { Some(c) => match get_bool(c, "is_vpn") { Ok(x) => x, Err(_) => return Err(shape_error()), }, None => None };
    let v_security_is_tor = match v_security { Some(c) => match get_bool(c, "is_tor") { Ok(x) => x, Err(_) => return Err(shape_error()), }, None => None };
    let v_security_is_abuser = match v_security { Some(c) => match get_bool(c, "is_abuser") { Ok(x) => x, Err(_) => return Err(shape_error()), }, None => None };
    let v_security_is_bogon = match v_security { Some(c) => match get_bool(c, "is_bogon") { Ok(x) => x, Err(_) => return Err(shape_error()), }, None => None };
    let v_security_is_relay = match v_security { Some(c) => match get_bool(c, "is_relay") { Ok(x) => x, Err(_) => return Err(shape_error()), }, None => None };
    let v_security_is_anonymous = match v_security { Some(c) => match get_bool(c, "is_anonymous") { Ok(x) => x, Err(_) => return Err(shape_error()), }, None => None };
    let v_security_is_cloud_provider = match v_security { Some(c) => match get_bool(c, "is_cloud_provider") { Ok(x) => x, Err(_) => return Err(shape_error()), }, None => None };
    let mut d = SourceData::new("ipreg");
    d.company_type = v_company_type;
    d.asn = v_connection_asn;
    d.as_org = v_connection_organization;
    d.country = v_location_country_code;
    d.region = v_location_region_name;
    d.city = v_location_city;
    d.is_proxy = v_security_is_proxy;
    d.is_vpn = v_security_is_vpn;
    d.is_tor = v_security_is_tor;
    d.is_abuser = v_security_is_abuser;
    d.is_bogon = v_security_is_bogon;
    d.is_relay = v_security_is_relay;
    d.is_anonymous = v_security_is_anonymous;
    d.is_cloud = v_security_is_cloud_provider;
    Ok(d)
}

/// Parses a ipregistry response body: a body that is not JSON is a `Parse`
/// error with the JSON parser's message; a parsed document is decoded by
/// `from_json`.
pub fn parse(body: &str) -> (r: Result<SourceData, SourceError>)
    ensures
        outcome(r) == match parsed_json(body@) {
            Ok(doc) => decode(doc),
            Err(e) => Err(SourceErrorV::Parse(e)),
        },
{
    match parse_json(body) {
        Ok(doc) => from_json(&doc),
        Err(e) => Err(SourceError::Parse(e)),
    }
}

/// The ipregistry source: `base` is the service's origin, `key` the API key
/// (configured as `IPANO_IPREGISTRY_KEY`).
pub struct IpRegistry {
    pub base: String,
    pub key: Option<String>,
}

impl Default for IpRegistry {
    /// The service's origin, with no key.
    fn default() -> (r: Self)
        ensures
            r.base@ == "https://api.ipregistry.co"@,
            r.key is None,
    {
        IpRegistry { base: owned("https://api.ipregistry.co"), key: None }
    }
}

impl IpRegistry {
    /// The service's origin, with the configured key value (an empty value
    /// counts as none).
    pub fn with_key(value: Option<String>) -> (r: Self)
        ensures
            r.base@ == "https://api.ipregistry.co"@,
            opt_text(r.key) == secret(opt_text(value)),
    {
        IpRegistry { base: owned("https://api.ipregistry.co"), key: nonempty(value) }
    }

    /// The source's id in reports.
    pub fn id(&self) -> (r: &'static str)
        ensures
            r@ == "ipreg"@,
    {
        "ipreg"
    }

    /// The lookup request for `ip`; without a key the source needs one.
    pub fn request(&self, ip: &str) -> (r: Result<HttpRequest, SourceError>)
        ensures
            self.key is None ==> (r matches Err(e) && e@ == SourceErrorV::NeedsKey("IPANO_IPREGISTRY_KEY"@)),
            self.key matches Some(k) ==> (r matches Ok(q) && q.url@ == self.base@ + "/"@ + ip@ + "?key="@ + k@),
            r matches Ok(q) ==> q.headers@.len() == 0,
    {
        let k = match &self.key {
            Some(k) => k,
            None => return Err(SourceError::NeedsKey(owned("IPANO_IPREGISTRY_KEY"))),
        };
        let mut u = self.base.clone();
        push_text(&mut u, "/");
        push_text(&mut u, ip);
        push_text(&mut u, "?key=");
        push_text(&mut u, k.as_str());
    Ok(get(u))
    }

    /// Outcome of a response: 429 means rate limited; any other status is
    /// decoded from the body.
    pub fn interpret(&self, status: u16, body: &str) -> (r: Result<SourceData, SourceError>)
        ensures
            status == 429 ==> outcome(r) == Err::<SourceDataV, SourceErrorV>(SourceErrorV::RateLimited),
            status != 429 ==> outcome(r) == match parsed_json(body@) {
                Ok(doc) => decode(doc),
                Err(e) => Err(SourceErrorV::Parse(e)),
            },
    {
        if status == 429 {
            return Err(SourceError::RateLimited);
        }
        parse(body)
    }
}

} // verus!
