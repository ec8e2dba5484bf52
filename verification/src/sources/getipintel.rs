//! GetIPIntel: the probability that an address is a proxy or VPN (needs a
//! contact address). The probability is a decimal number; what the report
//! derives from it (a rounded percentage and the proxy flag) is computed in
//! floating point by the program around this library.

use vstd::prelude::*;
use crate::json::{Json, field, get_text, is_record, parse_json, parsed_json, text_of, text_val};
use crate::model::{SourceError, SourceErrorV, opt_text};
use crate::numtext::{float_of, is_float_chars};
use crate::sources::{HttpRequest, bad_shape, get, nonempty, secret, shape_error};
use crate::text::{chars_of, is_text, owned, push_text};

verus! {

/// The response's `status`.
pub open spec fn f_status(doc: Json) -> Option<Seq<char>> {
    text_val(field(doc, "status"@))
}

/// The response's `result`.
pub open spec fn f_result(doc: Json) -> Option<Seq<char>> {
    text_val(field(doc, "result"@))
}

/// The response has the fields and types the decoder expects.
pub open spec fn well_typed(doc: Json) -> bool {
    &&& is_record(doc)
    &&& text_of(field(doc, "status"@)) is Ok
    &&& text_of(field(doc, "result"@)) is Ok
}

/// What a GetIPIntel response means before any arithmetic: an `error`
/// status is unavailability; otherwise the `result` must be a decimal
/// number, which is the probability's text.
pub open spec fn probability(doc: Json) -> Result<Seq<char>, SourceErrorV> {
    if !well_typed(doc) {
        Err(bad_shape())
    } else if f_status(doc) == Some("error"@) {
        Err(SourceErrorV::Unavailable("getipintel 返回 error 状态"@))
    } else {
        match f_result(doc) {
            Some(t) => match float_of(t) {
                Some(p) => Ok(p),
                None => Err(SourceErrorV::Parse("getipintel result 非数值"@)),
            },
            None => Err(SourceErrorV::Parse("getipintel result 非数值"@)),
        }
    }
}

/// The probability text of a parsed response (see `probability`).
pub fn probability_of(doc: &Json) -> (r: Result<String, SourceError>)
    ensures
        match r {
            Ok(p) => probability(*doc) == Ok::<Seq<char>, SourceErrorV>(p@),
            Err(e) => probability(*doc) == Err::<Seq<char>, SourceErrorV>(e@),
        },
{
    if !matches!(doc, Json::Obj(_)) {
        return Err(shape_error());
    }
    let v_status = match get_text(doc, "status") { Ok(x) => x, Err(_) => return Err(shape_error()), };
    let v_result = match get_text(doc, "result") { Ok(x) => x, Err(_) => return Err(shape_error()), };
    match &v_status {
        Some(s) => {
            let c = chars_of(s.as_str());
            if is_text(c.as_slice(), "error") {
                return Err(SourceError::Unavailable(owned("getipintel 返回 error 状态")));
            }
        },
        None => {},
    }
    match v_result {
        Some(t) => {
            let c = chars_of(t.as_str());
            if is_float_chars(c.as_slice()) {
                Ok(t)
            } else {
                Err(SourceError::Parse(owned("getipintel result 非数值")))
            }
        },
        None => Err(SourceError::Parse(owned("getipintel result 非数值"))),
    }
}

/// The probability text in a response body: a body that is not JSON is a
/// `Parse` error with the parser's message; see `probability` otherwise.
pub fn probability_text(body: &str) -> (r: Result<String, SourceError>)
    ensures
        match parsed_json(body@) {
            Err(m) => r matches Err(e) && e@ == SourceErrorV::Parse(m),
            Ok(doc) => match r {
                Ok(p) => probability(doc) == Ok::<Seq<char>, SourceErrorV>(p@),
                Err(e) => probability(doc) == Err::<Seq<char>, SourceErrorV>(e@),
            },
        },
{
    match parse_json(body) {
        Ok(doc) => probability_of(&doc),
        Err(e) => Err(SourceError::Parse(e)),
    }
}

/// The GetIPIntel source: `base` is the service's origin, `key` the API key
/// (configured as `IPANO_IPINTEL_EMAIL`).
pub struct GetIpIntel {
    pub base: String,
    pub key: Option<String>,
}

impl Default for GetIpIntel {
    /// The service's origin, with no key.
    fn default() -> (r: Self)
        ensures
            r.base@ == "http://check.getipintel.net"@,
            r.key is None,
    {
        GetIpIntel { base: owned("http://check.getipintel.net"), key: None }
    }
}

impl GetIpIntel {
    /// The service's origin, with the configured key value (an empty value
    /// counts as none).
    pub fn with_key(value: Option<String>) -> (r: Self)
        ensures
            r.base@ == "http://check.getipintel.net"@,
            opt_text(r.key) == secret(opt_text(value)),
    {
        GetIpIntel { base: owned("http://check.getipintel.net"), key: nonempty(value) }
    }

    /// Rate limiting: a 429 answer.
    pub fn check_status(&self, status: u16) -> (r: Result<(), SourceError>)
        ensures
            status == 429 ==> (r matches Err(e) && e@ == SourceErrorV::RateLimited),
            status != 429 ==> r is Ok,
    {
        if status == 429 {
            return Err(SourceError::RateLimited);
        }
        Ok(())
    }

    /// The source's id in reports.
    pub fn id(&self) -> (r: &'static str)
        ensures
            r@ == "ipintel"@,
    {
        "ipintel"
    }

    /// The lookup request for `ip`; without a key the source needs one.
    pub fn request(&self, ip: &str) -> (r: Result<HttpRequest, SourceError>)
        ensures
            self.key is None ==> (r matches Err(e) && e@ == SourceErrorV::NeedsKey("IPANO_IPINTEL_EMAIL"@)),
            self.key matches Some(k) ==> (r matches Ok(q) && q.url@ == self.base@ + "/check.php?ip="@ + ip@ + "&contact="@ + k@ + "&flags=f&format=json"@),
            r matches Ok(q) ==> q.headers@.len() == 0,
    {
        let k = match &self.key {
            Some(k) => k,
            None => return Err(SourceError::NeedsKey(owned("IPANO_IPINTEL_EMAIL"))),
        };
        let mut u = self.base.clone();
        push_text(&mut u, "/check.php?ip=");
        push_text(&mut u, ip);
        push_text(&mut u, "&contact=");
        push_text(&mut u, k.as_str());
        push_text(&mut u, "&flags=f&format=json");
    Ok(get(u))
    }
}

} // verus!
