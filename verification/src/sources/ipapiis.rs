//! ipapi.is: data-centre, VPN, proxy and abuser flags, AS and company abuse scores.

use vstd::prelude::*;
use crate::json::{Json, bool_of, bool_val, field, get_bool, get_record, get_text, get_u32, is_record, parse_json, parsed_json, rec_val, record_of, sub_field, text_of, text_val, u32_of, u32_val};
use crate::model::{SourceData, SourceDataV, SourceError, SourceErrorV, blank, outcome};
use crate::sources::{bad_shape, shape_error, HttpRequest, get};
use crate::text::{owned, push_text};
use crate::numtext::{lead_f64, lead_number};

verus! {

/// The response's `is_datacenter`.
pub open spec fn f_is_datacenter(doc: Json) -> Option<bool> {
    bool_val(field(doc, "is_datacenter"@))
}

/// The response's `is_vpn`.
pub open spec fn f_is_vpn(doc: Json) -> Option<bool> {
    bool_val(field(doc, "is_vpn"@))
}

/// The response's `is_proxy`.
pub open spec fn f_is_proxy(doc: Json) -> Option<bool> {
    bool_val(field(doc, "is_proxy"@))
}

/// The response's `is_abuser`.
pub open spec fn f_is_abuser(doc: Json) -> Option<bool> {
    bool_val(field(doc, "is_abuser"@))
}

/// The response's `asn`.
pub open spec fn f_asn(doc: Json) -> Option<Json> {
    rec_val(field(doc, "asn"@))
}

/// The response's `asn.asn`.
pub open spec fn f_asn_asn(doc: Json) -> Option<u32> {
    u32_val(sub_field(rec_val(field(doc, "asn"@)), "asn"@))
}

/// The response's `asn.abuser_score`.
pub open spec fn f_asn_abuser_score(doc: Json) -> Option<Seq<char>> {
    text_val(sub_field(rec_val(field(doc, "asn"@)), "abuser_score"@))
}

/// The response's `asn.org`.
pub open spec fn f_asn_org(doc: Json) -> Option<Seq<char>> {
    text_val(sub_field(rec_val(field(doc, "asn"@)), "org"@))
}

/// The response's `company`.
pub open spec fn f_company(doc: Json) -> Option<Json> {
    rec_val(field(doc, "company"@))
}

/// The response's `company.type`.
pub open spec fn f_company_type(doc: Json) -> Option<Seq<char>> {
    text_val(sub_field(rec_val(field(doc, "company"@)), "type"@))
}

/// The response's `company.abuser_score`.
pub open spec fn f_company_abuser_score(doc: Json) -> Option<Seq<char>> {
    text_val(sub_field(rec_val(field(doc, "company"@)), "abuser_score"@))
}

/// The response has the fields and types the decoder expects.
pub open spec fn well_typed(doc: Json) -> bool {
    &&& is_record(doc)
    &&& bool_of(field(doc, "is_datacenter"@)) is Ok
    &&& bool_of(field(doc, "is_vpn"@)) is Ok
    &&& bool_of(field(doc, "is_proxy"@)) is Ok
    &&& bool_of(field(doc, "is_abuser"@)) is Ok
    &&& record_of(field(doc, "asn"@)) is Ok
    &&& u32_of(sub_field(rec_val(field(doc, "asn"@)), "asn"@)) is Ok
    &&& text_of(sub_field(rec_val(field(doc, "asn"@)), "abuser_score"@)) is Ok
    &&& text_of(sub_field(rec_val(field(doc, "asn"@)), "org"@)) is Ok
    &&& record_of(field(doc, "company"@)) is Ok
    &&& text_of(sub_field(rec_val(field(doc, "company"@)), "type"@)) is Ok
    &&& text_of(sub_field(rec_val(field(doc, "company"@)), "abuser_score"@)) is Ok
}

/// What an ipapi.is response means: the flags, the AS and its abuse score, and the company type and its abuse score (each score the number leading its text, as in `"0.0131 (Elevated)"`).
pub open spec fn decode(doc: Json) -> Result<SourceDataV, SourceErrorV> {
    if !well_typed(doc) {
        Err(bad_shape())
    } else {
        Ok(SourceDataV {
            is_datacenter: f_is_datacenter(doc),
            is_vpn: f_is_vpn(doc),
            is_proxy: f_is_proxy(doc),
            is_abuser: f_is_abuser(doc),
            asn: f_asn_asn(doc),
            as_org: f_asn_org(doc),
            asn_abuse_score: match f_asn_abuser_score(doc) { Some(s) => lead_number(s), None => None },
            company_type: f_company_type(doc),
            company_abuse_score: match f_company_abuser_score(doc) { Some(s) => lead_number(s), None => None },
            ..blank("ipapiis"@)
        })
    }
}

/// Decodes a parsed ipapi.is response (see `decode`).
pub fn from_json(doc: &Json) -> (r: Result<SourceData, SourceError>)
    ensures
        outcome(r) == decode(*doc),
{
    if !matches!(doc, Json::Obj(_)) {
        return Err(shape_error());
    }
    let v_is_datacenter = match get_bool(doc, "is_datacenter") { Ok(x) => x, Err(_) => return Err(shape_error()), };
    let v_is_vpn = match get_bool(doc, "is_vpn") { Ok(x) => x, Err(_) => return Err(shape_error()), };
    let v_is_proxy = match get_bool(doc, "is_proxy") { Ok(x) => x, Err(_) => return Err(shape_error()), };
    let v_is_abuser = match get_bool(doc, "is_abuser") { Ok(x) => x, Err(_) => return Err(shape_error()), };
    let v_asn = match get_record(doc, "asn") { Ok(x) => x, Err(_) => return Err(shape_error()), };
    let v_asn_asn = match v_asn { Some(c) => match get_u32(c, "asn") { Ok(x) => x, Err(_) => return Err(shape_error()), }, None => None };
    let v_asn_abuser_score = match v_asn { Some(c) => match get_text(c, "abuser_score") { Ok(x) => x, Err(_) => return Err(shape_error()), }, None => None };
    let v_asn_org = match v_asn { Some(c) => match get_text(c, "org") { Ok(x) => x, Err(_) => return Err(shape_error()), }, None => None };
    let v_company = match get_record(doc, "company") { Ok(x) => x, Err(_) => return Err(shape_error()), };
    let v_company_type = match v_company { Some(c) => match get_text(c, "type") { Ok(x) => x, Err(_) => return Err(shape_error()), }, None => None };
    let v_company_abuser_score = match v_company { Some(c) => match get_text(c, "abuser_score") { Ok(x) => x, Err(_) => return Err(shape_error()), }, None => None };
    let mut d = SourceData::new("ipapiis");
    d.is_datacenter = v_is_datacenter;
    d.is_vpn = v_is_vpn;
    d.is_proxy = v_is_proxy;
    d.is_abuser = v_is_abuser;
    d.asn = v_asn_asn;
    d.as_org = v_asn_org;
    d.asn_abuse_score = match &v_asn_abuser_score { Some(s) => lead_f64(s.as_str()), None => None };
    d.company_type = v_company_type;
    d.company_abuse_score = match &v_company_abuser_score { Some(s) => lead_f64(s.as_str()), None => None };
    Ok(d)
}

/// Parses a ipapi.is response body: a body that is not JSON is a `Parse`
/// error with the JSON parser's message; a parsed document is decoded by
/// `from_json`.
pub fn parse(body: &str) -> (r: Result<SourceData, SourceError>)
    ensures
        outcome(r) == match parsed_json(body@) {
            Ok(doc) => decode(doc),
            Err(e) => Err(SourceErrorV::Parse(e)),
        },
{
    match parse_json(body) {
        Ok(doc) => from_json(&doc),
        Err(e) => Err(SourceError::Parse(e)),
    }
}

/// The ipapi.is source; `base` is the service's origin.
pub struct IpApiIs {
    pub base: String,
}

impl Default for IpApiIs {
    fn default() -> (r: Self)
        ensures
            r.base@ == "https://api.ipapi.is"@,
    {
        IpApiIs { base: owned("https://api.ipapi.is") }
    }
}

impl IpApiIs {
    /// The source's id in reports.
    pub fn id(&self) -> (r: &'static str)
        ensures
            r@ == "ipapiis"@,
    {
        "ipapiis"
    }

    /// The lookup request for `ip`.
    pub fn request(&self, ip: &str) -> (r: HttpRequest)
        ensures
            r.url@ == self.base@ + "/?q="@ + ip@,
            r.headers@.len() == 0,
    {
        let mut u = self.base.clone();
        push_text(&mut u, "/?q=");
        push_text(&mut u, ip);
        get(u)
    }
}

} // verus!
