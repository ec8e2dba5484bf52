//! AbuseIPDB: abuse-confidence score and report count (needs an API key).

use vstd::prelude::*;
use crate::json::{Json, field, get_i64, get_record, get_text, i64_of, i64_val, is_record, parse_json, parsed_json, rec_val, record_of, sub_field, text_of, text_val};
use crate::model::{SourceData, SourceDataV, SourceError, SourceErrorV, blank, outcome, opt_text};
use crate::sources::{bad_shape, shape_error, HttpRequest, secret, nonempty};
use crate::text::{owned, push_text};

verus! {

/// The response's `data`.
pub open spec fn f_data(doc: Json) -> Option<Json> {
    rec_val(field(doc, "data"@))
}

/// The response's `data.abuseConfidenceScore`.
pub open spec fn f_data_abuseconfidencescore(doc: Json) -> Option<i64> {
    i64_val(sub_field(rec_val(field(doc, "data"@)), "abuseConfidenceScore"@))
}

/// The response's `data.countryCode`.
pub open spec fn f_data_countrycode(doc: Json) -> Option<Seq<char>> {
    text_val(sub_field(rec_val(field(doc, "data"@)), "countryCode"@))
}

/// The response's `data.isp`.
pub open spec fn f_data_isp(doc: Json) -> Option<Seq<char>> {
    text_val(sub_field(rec_val(field(doc, "data"@)), "isp"@))
}

/// The response's `data.totalReports`.
pub open spec fn f_data_totalreports(doc: Json) -> Option<i64> {
    i64_val(sub_field(rec_val(field(doc, "data"@)), "totalReports"@))
}

/// The response has the fields and types the decoder expects.
pub open spec fn well_typed(doc: Json) -> bool {
    &&& is_record(doc)
    &&& record_of(field(doc, "data"@)) is Ok
    &&& i64_of(sub_field(rec_val(field(doc, "data"@)), "abuseConfidenceScore"@)) is Ok
    &&& text_of(sub_field(rec_val(field(doc, "data"@)), "countryCode"@)) is Ok
    &&& text_of(sub_field(rec_val(field(doc, "data"@)), "isp"@)) is Ok
    &&& i64_of(sub_field(rec_val(field(doc, "data"@)), "totalReports"@)) is Ok
}

/// What an AbuseIPDB response means: without `data` it is a parse error; otherwise its confidence score, country, ISP, and whether any report exists.
pub open spec fn decode(doc: Json) -> Result<SourceDataV, SourceErrorV> {
    if !well_typed(doc) {
        Err(bad_shape())
    } else {
        if f_data(doc) is None {
            Err(SourceErrorV::Parse("AbuseIPDB 响应缺 data"@))
        } else {
            Ok(SourceDataV {
                abuseipdb_score: f_data_abuseconfidencescore(doc),
                country: f_data_countrycode(doc),
                isp: f_data_isp(doc),
                is_abuser: match f_data_totalreports(doc) {
                    Some(n) => Some(n > 0),
                    None => None,
                },
                ..blank("abuseipdb"@)
            })
        }
    }
}

/// Decodes a parsed AbuseIPDB response (see `decode`).
pub fn from_json(doc: &Json) -> (r: Result<SourceData, SourceError>)
    ensures
        outcome(r) == decode(*doc),
{
    if !matches!(doc, Json::Obj(_)) {
        return Err(shape_error());
    }
    let v_data = match get_record(doc, "data") { Ok(x) => x, Err(_) => return Err(shape_error()), };
    let v_data_abuseconfidencescore = match v_data { Some(c) => match get_i64(c, "abuseConfidenceScore") { Ok(x) => x, Err(_) => return Err(shape_error()), }, None => None };
    let v_data_countrycode = match v_data { Some(c) => match get_text(c, "countryCode") { Ok(x) => x, Err(_) => return Err(shape_error()), }, None => None };
    let v_data_isp = match v_data { Some(c) => match get_text(c, "isp") { Ok(x) => x, Err(_) => return Err(shape_error()), }, None => None };
    let v_data_totalreports = match v_data { Some(c) => match get_i64(c, "totalReports") { Ok(x) => x, Err(_) => return Err(shape_error()), }, None => None };
    if v_data.is_none() {
        return Err(SourceError::Parse(owned("AbuseIPDB 响应缺 data")));
    }
    let mut d = SourceData::new("abuseipdb");
    d.abuseipdb_score = v_data_abuseconfidencescore;
    d.country = v_data_countrycode;
    d.isp = v_data_isp;
    d.is_abuser = match v_data_totalreports {
        Some(n) => Some(n > 0),
        None => None,
    };
    Ok(d)
}

/// Parses a AbuseIPDB response body: a body that is not JSON is a `Parse`
/// error with the JSON parser's message; a parsed document is decoded by
/// `from_json`.
pub fn parse(body: &str) -> (r: Result<SourceData, SourceError>)
    ensures
        outcome(r) == match parsed_json(body@) {
            Ok(doc) => decode(doc),
            Err(e) => Err(SourceErrorV::Parse(e)),
        },
{
    match parse_json(body) {
        Ok(doc) => from_json(&doc),
        Err(e) => Err(SourceError::Parse(e)),
    }
}

/// The AbuseIPDB source: `base` is the service's origin, `key` the API key
/// (configured as `IPANO_ABUSEIPDB_KEY`).
pub struct AbuseIpdb {
    pub base: String,
    pub key: Option<String>,
}

impl Default for AbuseIpdb {
    /// The service's origin, with no key.
    fn default() -> (r: Self)
        ensures
            r.base@ == "https://api.abuseipdb.com"@,
            r.key is None,
    {
        AbuseIpdb { base: owned("https://api.abuseipdb.com"), key: None }
    }
}

impl AbuseIpdb {
    /// The service's origin, with the configured key value (an empty value
    /// counts as none).
    pub fn with_key(value: Option<String>) -> (r: Self)
        ensures
            r.base@ == "https://api.abuseipdb.com"@,
            opt_text(r.key) == secret(opt_text(value)),
    {
        AbuseIpdb { base: owned("https://api.abuseipdb.com"), key: nonempty(value) }
    }

    /// The source's id in reports.
    pub fn id(&self) -> (r: &'static str)
        ensures
            r@ == "abuseipdb"@,
    {
        "abuseipdb"
    }

    /// The lookup request for `ip`; without a key the source needs one.
    pub fn request(&self, ip: &str) -> (r: Result<HttpRequest, SourceError>)
        ensures
            self.key is None ==> (r matches Err(e) && e@ == SourceErrorV::NeedsKey("IPANO_ABUSEIPDB_KEY"@)),
            self.key matches Some(k) ==> (r matches Ok(q) && q.url@ == self.base@ + "/api/v2/check?ipAddress="@ + ip@ + "&maxAgeInDays=90"@),
            self.key matches Some(k) ==> (r matches Ok(q) && q.headers@.map_values(|h: (String, String)| (h.0@, h.1@)) == seq![("Key"@, k@), ("Accept"@, "application/json"@)]),
    {
        let k = match &self.key {
            Some(k) => k,
            None => return Err(SourceError::NeedsKey(owned("IPANO_ABUSEIPDB_KEY"))),
        };
        let mut u = self.base.clone();
        push_text(&mut u, "/api/v2/check?ipAddress=");
        push_text(&mut u, ip);
        push_text(&mut u, "&maxAgeInDays=90");
    let hs: Vec<(String, String)> = vec![(owned("Key"), k.clone()), (owned("Accept"), owned("application/json"))];
    let req = HttpRequest { url: u, headers: hs };
    assert(req.headers@.map_values(|h: (String, String)| (h.0@, h.1@)) =~= seq![("Key"@, k@), ("Accept"@, "application/json"@)]);
    Ok(req)
    }

    /// Outcome of a response: 429 means rate limited; any other status is
    /// decoded from the body.
    pub fn interpret(&self, status: u16, body: &str) -> (r: Result<SourceData, SourceError>)
        ensures
            status == 429 ==> outcome(r) == Err::<SourceDataV, SourceErrorV>(SourceErrorV::RateLimited),
            status != 429 ==> outcome(r) == match parsed_json(body@) {
                Ok(doc) => decode(doc),
                Err(e) => Err(SourceErrorV::Parse(e)),
            },
    {
        if status == 429 {
            return Err(SourceError::RateLimited);
        }
        parse(body)
    }
}

} // verus!
