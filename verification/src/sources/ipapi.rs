//! ip-api.com: geolocation, ISP and AS, proxy/hosting/mobile flags.

use vstd::prelude::*;
use crate::json::{
    Json, bool_of, bool_val, dec_val, decimal_of, field, get_bool, get_decimal, get_text, is_record,
    parse_json, parsed_json, text_of, text_val,
};
use crate::model::{IpType, SourceData, SourceDataV, SourceError, SourceErrorV, blank, outcome};
use crate::sources::{bad_shape, get, shape_error, HttpRequest};
use crate::text::{
    all_digits, chars_of, digits_value, parse_u32_chars, parse_u32_spec, slice_chars, string_of,
    owned, push_text, trim, trim_chars,
};

verus! {

/// `"AS13335 Cloudflare, Inc."` → `(Some(13335), Some("Cloudflare, Inc."))`: after
/// trimming, a text starting with `AS` whose first space-separated word parses
/// as a number gives that number and the trimmed (non-empty) rest; any other
/// text gives no number and the whole trimmed text.
pub open spec fn split_as_spec(s: Seq<char>) -> (Option<u32>, Option<Seq<char>>) {
    let t = trim(s);
    if t.len() >= 2 && t[0] == 'A' && t[1] == 'S' {
        let rest = t.skip(2);
        let sp = crate::text::find_seq(rest, seq![' ']);
        let first = match sp { Some(k) => rest.take(k), None => rest };
        let org = match sp {
            Some(k) => if trim(rest.skip(k + 1)).len() == 0 { None } else { Some(trim(rest.skip(k + 1))) },
            None => None,
        };
        match parse_u32_spec(first) {
            Some(n) => (Some(n), org),
            None => (None, Some(t)),
        }
    } else {
        (None, Some(t))
    }
}

pub fn split_as(s: &str) -> (r: (Option<u32>, Option<String>))
    ensures
        r.0 == split_as_spec(s@).0,
        crate::model::opt_text(r.1) == split_as_spec(s@).1,
{
    let cs = chars_of(s);
    let t = trim_chars(cs.as_slice());
    if t.len() >= 2 && t[0] == 'A' && t[1] == 'S' {
        let rest = slice_chars(t.as_slice(), 2, t.len());
        assert(rest@ =~= t@.skip(2));
        let sp = crate::text::find_text(rest.as_slice(), " ");
        proof {
            reveal_strlit(" ");
            assert(" "@ =~= seq![' ']);
            crate::text::lemma_find_seq_sound(rest@, seq![' ']);
        }
        let first = match sp {
            Some(k) => slice_chars(rest.as_slice(), 0, k),
            None => slice_chars(rest.as_slice(), 0, rest.len()),
        };
        assert(sp is None ==> first@ =~= rest@);
        let org: Option<String> = match sp {
            Some(k) => {
                let tail = slice_chars(rest.as_slice(), k + 1, rest.len());
                assert(tail@ =~= rest@.skip(k + 1));
                let o = trim_chars(tail.as_slice());
                if o.len() == 0 { None } else { Some(string_of(o.as_slice())) }
            }
            None => None,
        };
        match parse_u32_chars(first.as_slice()) {
            Some(n) => return (Some(n), org),
            None => {}
        }
    }
    (None, Some(string_of(t.as_slice())))
}

/// The response's fields have the types the decoder expects.
pub open spec fn well_typed(doc: Json) -> bool {
    &&& is_record(doc)
    &&& text_of(field(doc, "status"@)) matches Ok(Some(_))
    &&& text_of(field(doc, "message"@)) is Ok
    &&& text_of(field(doc, "country"@)) is Ok
    &&& text_of(field(doc, "regionName"@)) is Ok
    &&& text_of(field(doc, "city"@)) is Ok
    &&& decimal_of(field(doc, "lat"@)) is Ok
    &&& decimal_of(field(doc, "lon"@)) is Ok
    &&& text_of(field(doc, "timezone"@)) is Ok
    &&& text_of(field(doc, "isp"@)) is Ok
    &&& text_of(field(doc, "org"@)) is Ok
    &&& text_of(field(doc, "as"@)) is Ok
    &&& bool_of(field(doc, "proxy"@)) is Ok
    &&& bool_of(field(doc, "hosting"@)) is Ok
    &&& bool_of(field(doc, "mobile"@)) is Ok
}

/// Hosting wins over mobile; neither flag set gives no type.
pub open spec fn ip_type_of(hosting: Option<bool>, mobile: Option<bool>) -> Option<IpType> {
    if hosting == Some(true) {
        Some(IpType::Hosting)
    } else if mobile == Some(true) {
        Some(IpType::Mobile)
    } else {
        None
    }
}

/// What an ip-api response means: a failed lookup is unavailability with the
/// service's message; a successful one fills the location, network and flags.
pub open spec fn decode(doc: Json) -> Result<SourceDataV, SourceErrorV> {
    if !well_typed(doc) {
        Err(bad_shape())
    } else if text_val(field(doc, "status"@)) != Some("success"@) {
        Err(SourceErrorV::Unavailable(match text_val(field(doc, "message"@)) { Some(m) => m, None => Seq::empty() }))
    } else {
        let asf = match text_val(field(doc, "as"@)) {
            Some(a) => split_as_spec(a),
            None => (None, None),
        };
        Ok(SourceDataV {
            asn: asf.0,
            as_org: asf.1,
            country: text_val(field(doc, "country"@)),
            region: text_val(field(doc, "regionName"@)),
            city: text_val(field(doc, "city"@)),
            lat: dec_val(field(doc, "lat"@)),
            lon: dec_val(field(doc, "lon"@)),
            timezone: text_val(field(doc, "timezone"@)),
            isp: text_val(field(doc, "isp"@)),
            org: text_val(field(doc, "org"@)),
            is_proxy: bool_val(field(doc, "proxy"@)),
            is_hosting: bool_val(field(doc, "hosting"@)),
            ip_type: ip_type_of(bool_val(field(doc, "hosting"@)), bool_val(field(doc, "mobile"@))),
            ..blank("ipapi"@)
        })
    }
}

/// Decodes a parsed ip-api response (see `decode`).
pub fn from_json(doc: &Json) -> (r: Result<SourceData, SourceError>)
    ensures
        outcome(r) == decode(*doc),
{
    if !matches!(doc, Json::Obj(_)) {
        return Err(shape_error());
    }
    let status = match get_text(doc, "status") { Ok(Some(v)) => v, _ => return Err(shape_error()) };
    let message = match get_text(doc, "message") { Ok(v) => v, Err(_) => return Err(shape_error()) };
    let country = match get_text(doc, "country") { Ok(v) => v, Err(_) => return Err(shape_error()) };
    let region = match get_text(doc, "regionName") { Ok(v) => v, Err(_) => return Err(shape_error()) };
    let city = match get_text(doc, "city") { Ok(v) => v, Err(_) => return Err(shape_error()) };
    let lat = match get_decimal(doc, "lat") { Ok(v) => v, Err(_) => return Err(shape_error()) };
    let lon = match get_decimal(doc, "lon") { Ok(v) => v, Err(_) => return Err(shape_error()) };
    let timezone = match get_text(doc, "timezone") { Ok(v) => v, Err(_) => return Err(shape_error()) };
    let isp = match get_text(doc, "isp") { Ok(v) => v, Err(_) => return Err(shape_error()) };
    let org = match get_text(doc, "org") { Ok(v) => v, Err(_) => return Err(shape_error()) };
    let as_field = match get_text(doc, "as") { Ok(v) => v, Err(_) => return Err(shape_error()) };
    let proxy = match get_bool(doc, "proxy") { Ok(v) => v, Err(_) => return Err(shape_error()) };
    let hosting = match get_bool(doc, "hosting") { Ok(v) => v, Err(_) => return Err(shape_error()) };
    let mobile = match get_bool(doc, "mobile") { Ok(v) => v, Err(_) => return Err(shape_error()) };
    let sc = chars_of(status.as_str());
    if !crate::text::is_text(sc.as_slice(), "success") {
        let m = match message { Some(m) => m, None => String::new() };
        return Err(SourceError::Unavailable(m));
    }
    let mut d = SourceData::new("ipapi");
    match as_field {
        Some(a) => {
            let (asn, as_org) = split_as(a.as_str());
            d.asn = asn;
            d.as_org = as_org;
        }
        None => {}
    }
    d.country = country;
    d.region = region;
    d.city = city;
    d.lat = lat;
    d.lon = lon;
    d.timezone = timezone;
    d.isp = isp;
    d.org = org;
    d.is_proxy = proxy;
    d.is_hosting = hosting;
    d.ip_type = if hosting == Some(true) {
        Some(IpType::Hosting)
    } else if mobile == Some(true) {
        Some(IpType::Mobile)
    } else {
        None
    };
    Ok(d)
}

/// Parses an ip-api response body: JSON errors become `Parse` with the JSON
/// parser's message; a parsed document is decoded by `from_json`.
pub fn parse(body: &str) -> (r: Result<SourceData, SourceError>)
    ensures
        outcome(r) == match parsed_json(body@) {
            Ok(doc) => decode(doc),
            Err(e) => Err(SourceErrorV::Parse(e)),
        },
{
    match parse_json(body) {
        Ok(doc) => from_json(&doc),
        Err(e) => Err(SourceError::Parse(e)),
    }
}

/// The ip-api.com source; `base` is the service's origin.
pub struct IpApi {
    pub base: String,
}

impl Default for IpApi {
    fn default() -> (r: Self)
        ensures
            r.base@ == "http://ip-api.com"@,
    {
        IpApi { base: owned("http://ip-api.com") }
    }
}

impl IpApi {
    /// The source's id in reports.
    pub fn id(&self) -> (r: &'static str)
        ensures
            r@ == "ipapi"@,
    {
        "ipapi"
    }

    /// The lookup request for `ip`.
    pub fn request(&self, ip: &str) -> (r: HttpRequest)
        ensures
            r.url@ == self.base@ + "/json/"@ + ip@,
            r.headers@.len() == 0,
    {
        let mut u = self.base.clone();
        push_text(&mut u, "/json/");
        push_text(&mut u, ip);
        get(u)
    }
}

} // verus!
