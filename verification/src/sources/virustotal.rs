//! VirusTotal: AS, country and the engines' verdict counts (needs an API key).

use vstd::prelude::*;
use crate::json::{Json, field, get_record, get_text, get_u32, is_record, parse_json, parsed_json, rec_val, record_of, sub_field, text_of, text_val, u32_of, u32_val};
use crate::model::{SourceData, SourceDataV, SourceError, SourceErrorV, blank, outcome, opt_text};
use crate::sources::{bad_shape, shape_error, HttpRequest, secret, nonempty};
use crate::text::{owned, push_text};

verus! {

/// A count, zero where absent.
pub open spec fn count(v: Option<u32>) -> nat {
    match v {
        Some(n) => n as nat,
        None => 0,
    }
}

/// The response's `data`.
pub open spec fn f_data(doc: Json) -> Option<Json> {
    rec_val(field(doc, "data"@))
}

/// The response's `data.attributes`.
pub open spec fn f_data_attributes(doc: Json) -> Option<Json> {
    rec_val(sub_field(rec_val(field(doc, "data"@)), "attributes"@))
}

/// The response's `data.attributes.as_owner`.
pub open spec fn f_data_attributes_as_owner(doc: Json) -> Option<Seq<char>> {
    text_val(sub_field(rec_val(sub_field(rec_val(field(doc, "data"@)), "attributes"@)), "as_owner"@))
}

/// The response's `data.attributes.asn`.
pub open spec fn f_data_attributes_asn(doc: Json) -> Option<u32> {
    u32_val(sub_field(rec_val(sub_field(rec_val(field(doc, "data"@)), "attributes"@)), "asn"@))
}

/// The response's `data.attributes.country`.
pub open spec fn f_data_attributes_country(doc: Json) -> Option<Seq<char>> {
    text_val(sub_field(rec_val(sub_field(rec_val(field(doc, "data"@)), "attributes"@)), "country"@))
}

/// The response's `data.attributes.last_analysis_stats`.
pub open spec fn f_data_attributes_last_analysis_stats(doc: Json) -> Option<Json> {
    rec_val(sub_field(rec_val(sub_field(rec_val(field(doc, "data"@)), "attributes"@)), "last_analysis_stats"@))
}

/// The response's `data.attributes.last_analysis_stats.harmless`.
pub open spec fn f_data_attributes_last_analysis_stats_harmless(doc: Json) -> Option<u32> {
    u32_val(sub_field(rec_val(sub_field(rec_val(sub_field(rec_val(field(doc, "data"@)), "attributes"@)), "last_analysis_stats"@)), "harmless"@))
}

/// The response's `data.attributes.last_analysis_stats.malicious`.
pub open spec fn f_data_attributes_last_analysis_stats_malicious(doc: Json) -> Option<u32> {
    u32_val(sub_field(rec_val(sub_field(rec_val(sub_field(rec_val(field(doc, "data"@)), "attributes"@)), "last_analysis_stats"@)), "malicious"@))
}

/// The response's `data.attributes.last_analysis_stats.suspicious`.
pub open spec fn f_data_attributes_last_analysis_stats_suspicious(doc: Json) -> Option<u32> {
    u32_val(sub_field(rec_val(sub_field(rec_val(sub_field(rec_val(field(doc, "data"@)), "attributes"@)), "last_analysis_stats"@)), "suspicious"@))
}

/// The response's `data.attributes.last_analysis_stats.undetected`.
pub open spec fn f_data_attributes_last_analysis_stats_undetected(doc: Json) -> Option<u32> {
    u32_val(sub_field(rec_val(sub_field(rec_val(sub_field(rec_val(field(doc, "data"@)), "attributes"@)), "last_analysis_stats"@)), "undetected"@))
}

/// The response has the fields and types the decoder expects.
pub open spec fn well_typed(doc: Json) -> bool {
    &&& is_record(doc)
    &&& record_of(field(doc, "data"@)) is Ok
    &&& record_of(sub_field(rec_val(field(doc, "data"@)), "attributes"@)) is Ok
    &&& text_of(sub_field(rec_val(sub_field(rec_val(field(doc, "data"@)), "attributes"@)), "as_owner"@)) is Ok
    &&& u32_of(sub_field(rec_val(sub_field(rec_val(field(doc, "data"@)), "attributes"@)), "asn"@)) is Ok
    &&& text_of(sub_field(rec_val(sub_field(rec_val(field(doc, "data"@)), "attributes"@)), "country"@)) is Ok
    &&& record_of(sub_field(rec_val(sub_field(rec_val(field(doc, "data"@)), "attributes"@)), "last_analysis_stats"@)) is Ok
    &&& u32_of(sub_field(rec_val(sub_field(rec_val(sub_field(rec_val(field(doc, "data"@)), "attributes"@)), "last_analysis_stats"@)), "harmless"@)) is Ok
    &&& u32_of(sub_field(rec_val(sub_field(rec_val(sub_field(rec_val(field(doc, "data"@)), "attributes"@)), "last_analysis_stats"@)), "malicious"@)) is Ok
    &&& u32_of(sub_field(rec_val(sub_field(rec_val(sub_field(rec_val(field(doc, "data"@)), "attributes"@)), "last_analysis_stats"@)), "suspicious"@)) is Ok
    &&& u32_of(sub_field(rec_val(sub_field(rec_val(sub_field(rec_val(field(doc, "data"@)), "attributes"@)), "last_analysis_stats"@)), "undetected"@)) is Ok
}

/// What a VirusTotal response means: without `data.attributes` it is a parse error; otherwise AS, country and, where the analysis counts are given, the counts and whether any engine found it malicious or suspicious.
pub open spec fn decode(doc: Json) -> Result<SourceDataV, SourceErrorV> {
    if !well_typed(doc) {
        Err(bad_shape())
    } else {
        if f_data_attributes(doc) is None {
            Err(SourceErrorV::Parse("VirusTotal 响应缺 data.attributes"@))
        } else if f_data_attributes_last_analysis_stats(doc) is None {
            Ok(SourceDataV {
                as_org: f_data_attributes_as_owner(doc),
                asn: f_data_attributes_asn(doc),
                country: f_data_attributes_country(doc),
                ..blank("vt"@)
            })
        } else {
            Ok(SourceDataV {
                as_org: f_data_attributes_as_owner(doc),
                asn: f_data_attributes_asn(doc),
                country: f_data_attributes_country(doc),
                blacklist_harmless: f_data_attributes_last_analysis_stats_harmless(doc),
                blacklist_malicious: f_data_attributes_last_analysis_stats_malicious(doc),
                blacklist_suspicious: f_data_attributes_last_analysis_stats_suspicious(doc),
                blacklist_undetected: f_data_attributes_last_analysis_stats_undetected(doc),
                is_abuser: Some(count(f_data_attributes_last_analysis_stats_malicious(doc))
                    + count(f_data_attributes_last_analysis_stats_suspicious(doc)) > 0),
                ..blank("vt"@)
            })
        }
    }
}

/// Decodes a parsed VirusTotal response (see `decode`).
pub fn from_json(doc: &Json) -> (r: Result<SourceData, SourceError>)
    ensures
        outcome(r) == decode(*doc),
{
    if !matches!(doc, Json::Obj(_)) {
        return Err(shape_error());
    }
    let v_data = match get_record(doc, "data") { Ok(x) => x, Err(_) => return Err(shape_error()), };
    let v_data_attributes = match v_data { Some(c) => match get_record(c, "attributes") { Ok(x) => x, Err(_) => return Err(shape_error()), }, None => None };
    let v_data_attributes_as_owner = match v_data_attributes { Some(c) => match get_text(c, "as_owner") { Ok(x) => x, Err(_) => return Err(shape_error()), }, None => None };
    let v_data_attributes_asn = match v_data_attributes { Some(c) => match get_u32(c, "asn") { Ok(x) => x, Err(_) => return Err(shape_error()), }, None => None };
    let v_data_attributes_country = match v_data_attributes { Some(c) => match get_text(c, "country") { Ok(x) => x, Err(_) => return Err(shape_error()), }, None => None };
    let v_data_attributes_last_analysis_stats = match v_data_attributes { Some(c) => match get_record(c, "last_analysis_stats") { Ok(x) => x, Err(_) => return Err(shape_error()), }, None => None };
    let v_data_attributes_last_analysis_stats_harmless = match v_data_attributes_last_analysis_stats { Some(c) => match get_u32(c, "harmless") { Ok(x) => x, Err(_) => return Err(shape_error()), }, None => None };
    let v_data_attributes_last_analysis_stats_malicious = match v_data_attributes_last_analysis_stats { Some(c) => match get_u32(c, "malicious") { Ok(x) => x, Err(_) => return Err(shape_error()), }, None => None };
    let v_data_attributes_last_analysis_stats_suspicious = match v_data_attributes_last_analysis_stats { Some(c) => match get_u32(c, "suspicious") { Ok(x) => x, Err(_) => return Err(shape_error()), }, None => None };
    let v_data_attributes_last_analysis_stats_undetected = match v_data_attributes_last_analysis_stats { Some(c) => match get_u32(c, "undetected") { Ok(x) => x, Err(_) => return Err(shape_error()), }, None => None };
    if v_data_attributes.is_none() {
        return Err(SourceError::Parse(owned("VirusTotal 响应缺 data.attributes")));
    }
    let mut d = SourceData::new("vt");
    d.as_org = v_data_attributes_as_owner;
    d.asn = v_data_attributes_asn;
    d.country = v_data_attributes_country;
    if v_data_attributes_last_analysis_stats.is_some() {
        let m = v_data_attributes_last_analysis_stats_malicious;
        let s = v_data_attributes_last_analysis_stats_suspicious;
        d.blacklist_harmless = v_data_attributes_last_analysis_stats_harmless;
        d.blacklist_malicious = m;
        d.blacklist_suspicious = s;
        d.blacklist_undetected = v_data_attributes_last_analysis_stats_undetected;
        let any_bad = match m { Some(x) => x > 0, None => false } || match s { Some(x) => x > 0, None => false };
        d.is_abuser = Some(any_bad);
    }
    Ok(d)
}

/// Parses a VirusTotal response body: a body that is not JSON is a `Parse`
/// error with the JSON parser's message; a parsed document is decoded by
/// `from_json`.
pub fn parse(body: &str) -> (r: Result<SourceData, SourceError>)
    ensures
        outcome(r) == match parsed_json(body@) {
            Ok(doc) => decode(doc),
            Err(e) => Err(SourceErrorV::Parse(e)),
        },
{
    match parse_json(body) {
        Ok(doc) => from_json(&doc),
        Err(e) => Err(SourceError::Parse(e)),
    }
}

/// The VirusTotal source: `base` is the service's origin, `key` the API key
/// (configured as `IPANO_VIRUSTOTAL_KEY`).
pub struct VirusTotal {
    pub base: String,
    pub key: Option<String>,
}

impl Default for VirusTotal {
    /// The service's origin, with no key.
    fn default() -> (r: Self)
        ensures
            r.base@ == "https://www.virustotal.com"@,
            r.key is None,
    {
        VirusTotal { base: owned("https://www.virustotal.com"), key: None }
    }
}

impl VirusTotal {
    /// The service's origin, with the configured key value (an empty value
    /// counts as none).
    pub fn with_key(value: Option<String>) -> (r: Self)
        ensures
            r.base@ == "https://www.virustotal.com"@,
            opt_text(r.key) == secret(opt_text(value)),
    {
        VirusTotal { base: owned("https://www.virustotal.com"), key: nonempty(value) }
    }

    /// The source's id in reports.
    pub fn id(&self) -> (r: &'static str)
        ensures
            r@ == "vt"@,
    {
        "vt"
    }

    /// The lookup request for `ip`; without a key the source needs one.
    pub fn request(&self, ip: &str) -> (r: Result<HttpRequest, SourceError>)
        ensures
            self.key is None ==> (r matches Err(e) && e@ == SourceErrorV::NeedsKey("IPANO_VIRUSTOTAL_KEY"@)),
            self.key matches Some(k) ==> (r matches Ok(q) && q.url@ == self.base@ + "/api/v3/ip_addresses/"@ + ip@),
            self.key matches Some(k) ==> (r matches Ok(q) && q.headers@.map_values(|h: (String, String)| (h.0@, h.1@)) == seq![("x-apikey"@, k@)]),
    {
        let k = match &self.key {
            Some(k) => k,
            None => return Err(SourceError::NeedsKey(owned("IPANO_VIRUSTOTAL_KEY"))),
        };
        let mut u = self.base.clone();
        push_text(&mut u, "/api/v3/ip_addresses/");
        push_text(&mut u, ip);
    let hs: Vec<(String, String)> = vec![(owned("x-apikey"), k.clone())];
    let req = HttpRequest { url: u, headers: hs };
    assert(req.headers@.map_values(|h: (String, String)| (h.0@, h.1@)) =~= seq![("x-apikey"@, k@)]);
    Ok(req)
    }

    /// Outcome of a response: 429 means rate limited; any other status is
    /// decoded from the body.
    pub fn interpret(&self, status: u16, body: &str) -> (r: Result<SourceData, SourceError>)
        ensures
            status == 429 ==> outcome(r) == Err::<SourceDataV, SourceErrorV>(SourceErrorV::RateLimited),
            status != 429 ==> outcome(r) == match parsed_json(body@) {
                Ok(doc) => decode(doc),
                Err(e) => Err(SourceErrorV::Parse(e)),
            },
    {
        if status == 429 {
            return Err(SourceError::RateLimited);
        }
        parse(body)
    }
}

} // verus!
