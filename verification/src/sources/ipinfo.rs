//! ipinfo.io: host name, location, coordinates, organisation (with AS) and time zone.

use vstd::prelude::*;
use crate::json::{Json, field, get_text, is_record, parse_json, parsed_json, text_of, text_val};
use crate::model::{SourceData, SourceDataV, SourceError, SourceErrorV, blank, outcome, opt_text};
use crate::sources::{bad_shape, shape_error, HttpRequest, get};
use vstd::string::*;
use crate::numtext::{float_of, is_float_chars};
use crate::sources::ipapi::{split_as, split_as_spec};
use crate::text::{chars_of, find_seq, find_text, lemma_find_seq_sound, occurs_at, owned, push_text, slice_chars, string_of, trim, trim_chars};

verus! {

/// Coordinates from a `"lat,lon"` text: each side of the first comma,
/// trimmed, where `f64` parsing accepts it (no longitude without a comma).
pub open spec fn loc_pair(l: Seq<char>) -> (Option<Seq<char>>, Option<Seq<char>>) {
    match find_seq(l, seq![',']) {
        Some(k) => (float_of(trim(l.take(k))), float_of(trim(l.skip(k + 1)))),
        None => (float_of(trim(l)), None),
    }
}

fn float_piece(v: &[char], from: usize, to: usize) -> (r: Option<String>)
    requires
        from <= to <= v@.len(),
    ensures
        opt_text(r) == float_of(trim(v@.subrange(from as int, to as int))),
{
    let piece = slice_chars(v, from, to);
    let t = trim_chars(piece.as_slice());
    if is_float_chars(t.as_slice()) { Some(string_of(t.as_slice())) } else { None }
}

/// The coordinates of a `"lat,lon"` text (see `loc_pair`).
pub fn split_loc(l: &str) -> (r: (Option<String>, Option<String>))
    ensures
        opt_text(r.0) == loc_pair(l@).0,
        opt_text(r.1) == loc_pair(l@).1,
{
    let v = chars_of(l);
    let comma = find_text(v.as_slice(), ",");
    proof {
        reveal_strlit(",");
        assert(","@ =~= seq![',']);
    }
    match comma {
        Some(k) => {
            proof {
                lemma_find_seq_sound(v@, seq![',']);
                assert(find_seq(v@, seq![',']) == Some(k as int));
                assert(occurs_at(v@, seq![','], k as int));
                assert(seq![','].len() == 1);
                assert(k < v@.len());
                assert(k < v.len());
            }
            let lat = float_piece(v.as_slice(), 0, k);
            let lon = float_piece(v.as_slice(), k + 1, v.len());
            assert(v@.subrange(0, k as int) =~= v@.take(k as int));
            assert(v@.subrange(k + 1, v@.len() as int) =~= v@.skip(k + 1));
            (lat, lon)
        },
        None => {
            let lat = float_piece(v.as_slice(), 0, v.len());
            assert(v@.subrange(0, v@.len() as int) =~= v@);
            (lat, None)
        },
    }
}

/// The response's `hostname`.
pub open spec fn f_hostname(doc: Json) -> Option<Seq<char>> {
    text_val(field(doc, "hostname"@))
}

/// The response's `city`.
pub open spec fn f_city(doc: Json) -> Option<Seq<char>> {
    text_val(field(doc, "city"@))
}

/// The response's `region`.
pub open spec fn f_region(doc: Json) -> Option<Seq<char>> {
    text_val(field(doc, "region"@))
}

/// The response's `country`.
pub open spec fn f_country(doc: Json) -> Option<Seq<char>> {
    text_val(field(doc, "country"@))
}

/// The response's `loc`.
pub open spec fn f_loc(doc: Json) -> Option<Seq<char>> {
    text_val(field(doc, "loc"@))
}

/// The response's `org`.
pub open spec fn f_org(doc: Json) -> Option<Seq<char>> {
    text_val(field(doc, "org"@))
}

/// The response's `timezone`.
pub open spec fn f_timezone(doc: Json) -> Option<Seq<char>> {
    text_val(field(doc, "timezone"@))
}

/// The response has the fields and types the decoder expects.
pub open spec fn well_typed(doc: Json) -> bool {
    &&& is_record(doc)
    &&& text_of(field(doc, "hostname"@)) is Ok
    &&& text_of(field(doc, "city"@)) is Ok
    &&& text_of(field(doc, "region"@)) is Ok
    &&& text_of(field(doc, "country"@)) is Ok
    &&& text_of(field(doc, "loc"@)) is Ok
    &&& text_of(field(doc, "org"@)) is Ok
    &&& text_of(field(doc, "timezone"@)) is Ok
}

/// What an ipinfo.io response means: the AS and organisation split from `org`, the coordinates from `loc`, and location, time zone and host name.
pub open spec fn decode(doc: Json) -> Result<SourceDataV, SourceErrorV> {
    if !well_typed(doc) {
        Err(bad_shape())
    } else {
        let a = match f_org(doc) { Some(o) => split_as_spec(o), None => (None, None) };
        let ll = match f_loc(doc) { Some(l) => loc_pair(l), None => (None, None) };
        Ok(SourceDataV {
            asn: a.0,
            as_org: a.1,
            lat: ll.0,
            lon: ll.1,
            country: f_country(doc),
            region: f_region(doc),
            city: f_city(doc),
            timezone: f_timezone(doc),
            rdns: f_hostname(doc),
            ..blank("ipinfo"@)
        })
    }
}

/// Decodes a parsed ipinfo.io response (see `decode`).
pub fn from_json(doc: &Json) -> (r: Result<SourceData, SourceError>)
    ensures
        outcome(r) == decode(*doc),
{
    if !matches!(doc, Json::Obj(_)) {
        return Err(shape_error());
    }
    let v_hostname = match get_text(doc, "hostname") { Ok(x) => x, Err(_) => return Err(shape_error()), };
    let v_city = match get_text(doc, "city") { Ok(x) => x, Err(_) => return Err(shape_error()), };
    let v_region = match get_text(doc, "region") { Ok(x) => x, Err(_) => return Err(shape_error()), };
    let v_country = match get_text(doc, "country") { Ok(x) => x, Err(_) => return Err(shape_error()), };
    let v_loc = match get_text(doc, "loc") { Ok(x) => x, Err(_) => return Err(shape_error()), };
    let v_org = match get_text(doc, "org") { Ok(x) => x, Err(_) => return Err(shape_error()), };
    let v_timezone = match get_text(doc, "timezone") { Ok(x) => x, Err(_) => return Err(shape_error()), };
    let mut d = SourceData::new("ipinfo");
    match &v_org {
        Some(o) => {
            let (asn, org) = split_as(o.as_str());
            d.asn = asn;
            d.as_org = org;
        },
        None => {},
    }
    match &v_loc {
        Some(l) => {
            let (lat, lon) = split_loc(l.as_str());
            d.lat = lat;
            d.lon = lon;
        },
        None => {},
    }
    d.country = v_country;
    d.region = v_region;
    d.city = v_city;
    d.timezone = v_timezone;
    d.rdns = v_hostname;
    Ok(d)
}

/// Parses a ipinfo.io response body: a body that is not JSON is a `Parse`
/// error with the JSON parser's message; a parsed document is decoded by
/// `from_json`.
pub fn parse(body: &str) -> (r: Result<SourceData, SourceError>)
    ensures
        outcome(r) == match parsed_json(body@) {
            Ok(doc) => decode(doc),
            Err(e) => Err(SourceErrorV::Parse(e)),
        },
{
    match parse_json(body) {
        Ok(doc) => from_json(&doc),
        Err(e) => Err(SourceError::Parse(e)),
    }
}

/// The ipinfo.io source; `base` is the service's origin.
pub struct IpInfo {
    pub base: String,
}

impl Default for IpInfo {
    fn default() -> (r: Self)
        ensures
            r.base@ == "https://ipinfo.io"@,
    {
        IpInfo { base: owned("https://ipinfo.io") }
    }
}

impl IpInfo {
    /// The source's id in reports.
    pub fn id(&self) -> (r: &'static str)
        ensures
            r@ == "ipinfo"@,
    {
        "ipinfo"
    }

    /// The lookup request for `ip`.
    pub fn request(&self, ip: &str) -> (r: HttpRequest)
        ensures
            r.url@ == self.base@ + "/"@ + ip@ + "/json"@,
            r.headers@.len() == 0,
    {
        let mut u = self.base.clone();
        push_text(&mut u, "/");
        push_text(&mut u, ip);
        push_text(&mut u, "/json");
        get(u)
    }
}

} // verus!
