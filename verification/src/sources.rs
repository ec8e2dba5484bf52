//! Information sources: response decoding, request building and the shared
//! outcome rules. The HTTP exchange itself happens outside this library.

use vstd::prelude::*;
use crate::model::{SourceError, SourceErrorV};
use crate::text::{owned, push_text};

pub mod ipapi;
pub mod ipsb;
pub mod abuseipdb;
pub mod ipwhois;
pub mod dbip;
pub mod ipquery;
pub mod ipapiis;
pub mod ipapicom;
pub mod ip2location;
pub mod ipqs;
pub mod ipregistry;
pub mod virustotal;
pub mod ipdata;
pub mod bigdatacloud;
pub mod dkly;
pub mod ipinfo;
pub mod netcoffee;
pub mod ippure;
pub mod scamalytics;
pub mod ping0;
pub mod cloudflare;
pub mod getipintel;

verus! {

/// Error for a response whose JSON does not have the expected shape or types.
pub open spec fn bad_shape() -> SourceErrorV {
    SourceErrorV::Parse("unexpected response shape"@)
}

pub fn shape_error() -> (e: SourceError)
    ensures
        e@ == bad_shape(),
{
    SourceError::Parse(owned("unexpected response shape"))
}

/// An HTTP request to send: GET unless a body is given.
pub struct HttpRequest {
    pub url: String,
    pub headers: Vec<(String, String)>,
}

/// A request with no extra headers.
pub fn get(url: String) -> (r: HttpRequest)
    ensures
        r.url@ == url@,
        r.headers@.len() == 0,
{
    HttpRequest { url, headers: Vec::new() }
}

/// The outcome of a transport failure: a timeout, or unavailability with the
/// transport's message.
pub fn transport_error(timed_out: bool, message: String) -> (e: SourceError)
    ensures
        timed_out ==> e@ == SourceErrorV::Timeout,
        !timed_out ==> e@ == SourceErrorV::Unavailable(message@),
{
    if timed_out { SourceError::Timeout } else { SourceError::Unavailable(message) }
}

/// A configured secret: an empty value counts as absent.
pub open spec fn secret(v: Option<Seq<char>>) -> Option<Seq<char>> {
    match v {
        Some(s) => if s.len() == 0 { None } else { Some(s) },
        None => None,
    }
}

pub fn nonempty(v: Option<String>) -> (r: Option<String>)
    ensures
        crate::model::opt_text(r) == secret(crate::model::opt_text(v)),
{
    match v {
        Some(s) => if s.as_str().is_empty() { None } else { Some(s) },
        None => None,
    }
}

} // verus!
