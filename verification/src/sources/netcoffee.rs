//! ip.net.coffee risk interface: network, location, flags, trust and abuse scores, and an AI verdict.

use vstd::prelude::*;
use crate::json::{Json, bool_of, bool_val, field, get_bool, get_i64, get_record, get_text, get_u32, i64_of, i64_val, is_record, parse_json, parsed_json, rec_val, record_of, sub_field, text_of, text_val, u32_of, u32_val};
use crate::model::{AiVerdict, IpType, SourceData, SourceDataV, SourceError, SourceErrorV, blank, outcome, opt_text};
use crate::sources::{bad_shape, shape_error, HttpRequest, get};
use crate::model::AiVerdictV;
use crate::probe::copy_opt;
use crate::text::{chars_of, is_text, owned, push_text};

verus! {

/// Kind of address: mobile first, then hosting (data centre or a hosting
/// company), then residential, then a business company; else unknown.
pub open spec fn kind_of(
    mobile: Option<bool>,
    datacenter: Option<bool>,
    residential: Option<bool>,
    company_type: Option<Seq<char>>,
) -> Option<IpType> {
    if mobile == Some(true) {
        Some(IpType::Mobile)
    } else if datacenter == Some(true) || company_type == Some("hosting"@) {
        Some(IpType::Hosting)
    } else if residential == Some(true) {
        Some(IpType::Residential)
    } else if company_type == Some("business"@) {
        Some(IpType::Business)
    } else {
        None
    }
}

fn is_word(o: &Option<String>, w: &str) -> (r: bool)
    ensures
        r == (opt_text(*o) == Some(w@)),
{
    match o {
        Some(s) => {
            let c = chars_of(s.as_str());
            is_text(c.as_slice(), w)
        },
        None => false,
    }
}

/// The AI verdict where it has both a label and a confidence (an absent
/// reasoning reads as empty).
pub open spec fn verdict_of(label: Option<Seq<char>>, confidence: Option<i64>, reasoning: Option<Seq<char>>) -> Option<AiVerdictV> {
    match (label, confidence) {
        (Some(l), Some(c)) => Some(AiVerdictV {
            label: l,
            confidence: c,
            reasoning: match reasoning { Some(r) => r, None => Seq::empty() },
        }),
        _ => None,
    }
}

/// The response's `asn`.
pub open spec fn f_asn(doc: Json) -> Option<u32> {
    u32_val(field(doc, "asn"@))
}

/// The response's `asOrganization`.
pub open spec fn f_asorganization(doc: Json) -> Option<Seq<char>> {
    text_val(field(doc, "asOrganization"@))
}

/// The response's `company_name`.
pub open spec fn f_company_name(doc: Json) -> Option<Seq<char>> {
    text_val(field(doc, "company_name"@))
}

/// The response's `company_type`.
pub open spec fn f_company_type(doc: Json) -> Option<Seq<char>> {
    text_val(field(doc, "company_type"@))
}

/// The response's `country`.
pub open spec fn f_country(doc: Json) -> Option<Seq<char>> {
    text_val(field(doc, "country"@))
}

/// The response's `region`.
pub open spec fn f_region(doc: Json) -> Option<Seq<char>> {
    text_val(field(doc, "region"@))
}

/// The response's `city`.
pub open spec fn f_city(doc: Json) -> Option<Seq<char>> {
    text_val(field(doc, "city"@))
}

/// The response's `rdns`.
pub open spec fn f_rdns(doc: Json) -> Option<Seq<char>> {
    text_val(field(doc, "rdns"@))
}

/// The response's `is_proxy`.
pub open spec fn f_is_proxy(doc: Json) -> Option<bool> {
    bool_val(field(doc, "is_proxy"@))
}

/// The response's `is_vpn`.
pub open spec fn f_is_vpn(doc: Json) -> Option<bool> {
    bool_val(field(doc, "is_vpn"@))
}

/// The response's `is_tor`.
pub open spec fn f_is_tor(doc: Json) -> Option<bool> {
    bool_val(field(doc, "is_tor"@))
}

/// The response's `is_datacenter`.
pub open spec fn f_is_datacenter(doc: Json) -> Option<bool> {
    bool_val(field(doc, "is_datacenter"@))
}

/// The response's `isResidential`.
pub open spec fn f_isresidential(doc: Json) -> Option<bool> {
    bool_val(field(doc, "isResidential"@))
}

/// The response's `is_mobile`.
pub open spec fn f_is_mobile(doc: Json) -> Option<bool> {
    bool_val(field(doc, "is_mobile"@))
}

/// The response's `is_abuser`.
pub open spec fn f_is_abuser(doc: Json) -> Option<bool> {
    bool_val(field(doc, "is_abuser"@))
}

/// The response's `is_crawler`.
pub open spec fn f_is_crawler(doc: Json) -> Option<bool> {
    bool_val(field(doc, "is_crawler"@))
}

/// The response's `trust_score`.
pub open spec fn f_trust_score(doc: Json) -> Option<i64> {
    i64_val(field(doc, "trust_score"@))
}

/// The response's `abuser_score`.
pub open spec fn f_abuser_score(doc: Json) -> Option<Seq<char>> {
    text_val(field(doc, "abuser_score"@))
}

/// The response's `rep_threat`.
pub open spec fn f_rep_threat(doc: Json) -> Option<i64> {
    i64_val(field(doc, "rep_threat"@))
}

/// The response's `ai_verdict.label`.
pub open spec fn f_ai_verdict_label(doc: Json) -> Option<Seq<char>> {
    text_val(sub_field(rec_val(field(doc, "ai_verdict"@)), "label"@))
}

/// The response's `ai_verdict.confidence`.
pub open spec fn f_ai_verdict_confidence(doc: Json) -> Option<i64> {
    i64_val(sub_field(rec_val(field(doc, "ai_verdict"@)), "confidence"@))
}

/// The response's `ai_verdict.reasoning`.
pub open spec fn f_ai_verdict_reasoning(doc: Json) -> Option<Seq<char>> {
    text_val(sub_field(rec_val(field(doc, "ai_verdict"@)), "reasoning"@))
}

/// The response has the fields and types the decoder expects.
pub open spec fn well_typed(doc: Json) -> bool {
    &&& is_record(doc)
    &&& u32_of(field(doc, "asn"@)) is Ok
    &&& text_of(field(doc, "asOrganization"@)) is Ok
    &&& text_of(field(doc, "company_name"@)) is Ok
    &&& text_of(field(doc, "company_type"@)) is Ok
    &&& text_of(field(doc, "country"@)) is Ok
    &&& text_of(field(doc, "region"@)) is Ok
    &&& text_of(field(doc, "city"@)) is Ok
    &&& text_of(field(doc, "rdns"@)) is Ok
    &&& bool_of(field(doc, "is_proxy"@)) is Ok
    &&& bool_of(field(doc, "is_vpn"@)) is Ok
    &&& bool_of(field(doc, "is_tor"@)) is Ok
    &&& bool_of(field(doc, "is_datacenter"@)) is Ok
    &&& bool_of(field(doc, "isResidential"@)) is Ok
    &&& bool_of(field(doc, "is_mobile"@)) is Ok
    &&& bool_of(field(doc, "is_abuser"@)) is Ok
    &&& bool_of(field(doc, "is_crawler"@)) is Ok
    &&& i64_of(field(doc, "trust_score"@)) is Ok
    &&& text_of(field(doc, "abuser_score"@)) is Ok
    &&& i64_of(field(doc, "rep_threat"@)) is Ok
    &&& record_of(field(doc, "ai_verdict"@)) is Ok
    &&& text_of(sub_field(rec_val(field(doc, "ai_verdict"@)), "label"@)) is Ok
    &&& i64_of(sub_field(rec_val(field(doc, "ai_verdict"@)), "confidence"@)) is Ok
    &&& text_of(sub_field(rec_val(field(doc, "ai_verdict"@)), "reasoning"@)) is Ok
}

/// What an ip.net.coffee response means: network, location and flags, the kind of address (see `kind_of`), the trust and abuse scores, and the AI verdict (see `verdict_of`).
pub open spec fn decode(doc: Json) -> Result<SourceDataV, SourceErrorV> {
    if !well_typed(doc) {
        Err(bad_shape())
    } else {
        Ok(SourceDataV {
            ip_type: kind_of(f_is_mobile(doc), f_is_datacenter(doc), f_isresidential(doc), f_company_type(doc)),
            asn: f_asn(doc),
            as_org: f_asorganization(doc),
            isp: f_company_name(doc),
            org: f_company_name(doc),
            country: f_country(doc),
            region: f_region(doc),
            city: f_city(doc),
            rdns: f_rdns(doc),
            is_proxy: f_is_proxy(doc),
            is_vpn: f_is_vpn(doc),
            is_tor: f_is_tor(doc),
            is_hosting: f_is_datacenter(doc),
            is_abuser: f_is_abuser(doc),
            is_crawler: f_is_crawler(doc),
            is_mobile: f_is_mobile(doc),
            is_residential: f_isresidential(doc),
            trust_score: f_trust_score(doc),
            rep_threat: f_rep_threat(doc),
            abuser_score: f_abuser_score(doc),
            ai_verdict: verdict_of(f_ai_verdict_label(doc), f_ai_verdict_confidence(doc), f_ai_verdict_reasoning(doc)),
            ..blank("netcoffee"@)
        })
    }
}

/// Decodes a parsed ip.net.coffee response (see `decode`).
pub fn from_json(doc: &Json) -> (r: Result<SourceData, SourceError>)
    ensures
        outcome(r) == decode(*doc),
{
    if !matches!(doc, Json::Obj(_)) {
        return Err(shape_error());
    }
    let v_asn = match get_u32(doc, "asn") { Ok(x) => x, Err(_) => return Err(shape_error()), };
    let v_asorganization = match get_text(doc, "asOrganization") { Ok(x) => x, Err(_) => return Err(shape_error()), };
    let v_company_name = match get_text(doc, "company_name") { Ok(x) => x, Err(_) => return Err(shape_error()), };
    let v_company_type = match get_text(doc, "company_type") { Ok(x) => x, Err(_) => return Err(shape_error()), };
    let v_country = match get_text(doc, "country") { Ok(x) => x, Err(_) => return Err(shape_error()), };
    let v_region = match get_text(doc, "region") { Ok(x) => x, Err(_) => return Err(shape_error()), };
    let v_city = match get_text(doc, "city") { Ok(x) => x, Err(_) => return Err(shape_error()), };
    let v_rdns = match get_text(doc, "rdns") { Ok(x) => x, Err(_) => return Err(shape_error()), };
    let v_is_proxy = match get_bool(doc, "is_proxy") { Ok(x) => x, Err(_) => return Err(shape_error()), };
    let v_is_vpn = match get_bool(doc, "is_vpn") { Ok(x) => x, Err(_) => return Err(shape_error()), };
    let v_is_tor = match get_bool(doc, "is_tor") { Ok(x) => x, Err(_) => return Err(shape_error()), };
    let v_is_datacenter = match get_bool(doc, "is_datacenter") { Ok(x) => x, Err(_) => return Err(shape_error()), };
    let v_isresidential = match get_bool(doc, "isResidential") { Ok(x) => x, Err(_) => return Err(shape_error()), };
    let v_is_mobile = match get_bool(doc, "is_mobile") { Ok(x) => x, Err(_) => return Err(shape_error()), };
    let v_is_abuser = match get_bool(doc, "is_abuser") { Ok(x) => x, Err(_) => return Err(shape_error()), };
    let v_is_crawler = match get_bool(doc, "is_crawler") { Ok(x) => x, Err(_) => return Err(shape_error()), };
    let v_trust_score = match get_i64(doc, "trust_score") { Ok(x) => x, Err(_) => return Err(shape_error()), };
    let v_abuser_score = match get_text(doc, "abuser_score") { Ok(x) => x, Err(_) => return Err(shape_error()), };
    let v_rep_threat = match get_i64(doc, "rep_threat") { Ok(x) => x, Err(_) => return Err(shape_error()), };
    let v_ai_verdict = match get_record(doc, "ai_verdict") { Ok(x) => x, Err(_) => return Err(shape_error()), };
    let v_ai_verdict_label = match v_ai_verdict { Some(c) => match get_text(c, "label") { Ok(x) => x, Err(_) => return Err(shape_error()), }, None => None };
    let v_ai_verdict_confidence = match v_ai_verdict { Some(c) => match get_i64(c, "confidence") { Ok(x) => x, Err(_) => return Err(shape_error()), }, None => None };
    let v_ai_verdict_reasoning = match v_ai_verdict { Some(c) => match get_text(c, "reasoning") { Ok(x) => x, Err(_) => return Err(shape_error()), }, None => None };
    let mut d = SourceData::new("netcoffee");
    d.ip_type = if v_is_mobile == Some(true) {
        Some(IpType::Mobile)
    } else if v_is_datacenter == Some(true) || is_word(&v_company_type, "hosting") {
        Some(IpType::Hosting)
    } else if v_isresidential == Some(true) {
        Some(IpType::Residential)
    } else if is_word(&v_company_type, "business") {
        Some(IpType::Business)
    } else {
        None
    };
    d.asn = v_asn;
    d.as_org = v_asorganization;
    d.isp = copy_opt(&v_company_name);
    d.org = v_company_name;
    d.country = v_country;
    d.region = v_region;
    d.city = v_city;
    d.rdns = v_rdns;
    d.is_proxy = v_is_proxy;
    d.is_vpn = v_is_vpn;
    d.is_tor = v_is_tor;
    d.is_hosting = v_is_datacenter;
    d.is_abuser = v_is_abuser;
    d.is_crawler = v_is_crawler;
    d.is_mobile = v_is_mobile;
    d.is_residential = v_isresidential;
    d.trust_score = v_trust_score;
    d.rep_threat = v_rep_threat;
    d.abuser_score = v_abuser_score;
    d.ai_verdict = match (v_ai_verdict_label, v_ai_verdict_confidence) {
        (Some(label), Some(confidence)) => Some(AiVerdict {
            label,
            confidence,
            reasoning: match v_ai_verdict_reasoning { Some(r) => r, None => String::new() },
        }),
        _ => None,
    };
    Ok(d)
}

/// Parses a ip.net.coffee response body: a body that is not JSON is a `Parse`
/// error with the JSON parser's message; a parsed document is decoded by
/// `from_json`.
pub fn parse(body: &str) -> (r: Result<SourceData, SourceError>)
    ensures
        outcome(r) == match parsed_json(body@) {
            Ok(doc) => decode(doc),
            Err(e) => Err(SourceErrorV::Parse(e)),
        },
{
    match parse_json(body) {
        Ok(doc) => from_json(&doc),
        Err(e) => Err(SourceError::Parse(e)),
    }
}

/// The ip.net.coffee source; `base` is the service's origin.
pub struct NetCoffee {
    pub base: String,
}

impl Default for NetCoffee {
    fn default() -> (r: Self)
        ensures
            r.base@ == "https://ip.net.coffee"@,
    {
        NetCoffee { base: owned("https://ip.net.coffee") }
    }
}

impl NetCoffee {
    /// The source's id in reports.
    pub fn id(&self) -> (r: &'static str)
        ensures
            r@ == "netcoffee"@,
    {
        "netcoffee"
    }

    /// The lookup request for `ip`.
    pub fn request(&self, ip: &str) -> (r: HttpRequest)
        ensures
            r.url@ == self.base@ + "/api/iprisk/"@ + ip@,
            r.headers@.len() == 0,
    {
        let mut u = self.base.clone();
        push_text(&mut u, "/api/iprisk/");
        push_text(&mut u, ip);
        get(u)
    }
}

} // verus!
