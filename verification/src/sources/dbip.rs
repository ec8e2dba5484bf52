//! DB-IP (free tier): country, state and city of an address.

use vstd::prelude::*;
use crate::json::{Json, field, get_text, is_record, parse_json, parsed_json, text_of, text_val};
use crate::model::{SourceData, SourceDataV, SourceError, SourceErrorV, blank, outcome};
use crate::sources::{bad_shape, shape_error, HttpRequest, get};
use crate::text::{owned, push_text};

verus! {

/// The response's `countryName`.
pub open spec fn f_countryname(doc: Json) -> Option<Seq<char>> {
    text_val(field(doc, "countryName"@))
}

/// The response's `stateProv`.
pub open spec fn f_stateprov(doc: Json) -> Option<Seq<char>> {
    text_val(field(doc, "stateProv"@))
}

/// The response's `city`.
pub open spec fn f_city(doc: Json) -> Option<Seq<char>> {
    text_val(field(doc, "city"@))
}

/// The response's `error`.
pub open spec fn f_error(doc: Json) -> Option<Seq<char>> {
    text_val(field(doc, "error"@))
}

/// The response has the fields and types the decoder expects.
pub open spec fn well_typed(doc: Json) -> bool {
    &&& is_record(doc)
    &&& text_of(field(doc, "countryName"@)) is Ok
    &&& text_of(field(doc, "stateProv"@)) is Ok
    &&& text_of(field(doc, "city"@)) is Ok
    &&& text_of(field(doc, "error"@)) is Ok
}

/// What a DB-IP response means: an `error` text is unavailability with that text; otherwise country, state and city.
pub open spec fn decode(doc: Json) -> Result<SourceDataV, SourceErrorV> {
    if !well_typed(doc) {
        Err(bad_shape())
    } else {
        match f_error(doc) {
            Some(e) => Err(SourceErrorV::Unavailable(e)),
            None => Ok(SourceDataV {
                country: f_countryname(doc),
                region: f_stateprov(doc),
                city: f_city(doc),
                ..blank("dbip"@)
            }),
        }
    }
}

/// Decodes a parsed DB-IP response (see `decode`).
pub fn from_json(doc: &Json) -> (r: Result<SourceData, SourceError>)
    ensures
        outcome(r) == decode(*doc),
{
    if !matches!(doc, Json::Obj(_)) {
        return Err(shape_error());
    }
    let v_countryname = match get_text(doc, "countryName") { Ok(x) => x, Err(_) => return Err(shape_error()), };
    let v_stateprov = match get_text(doc, "stateProv") { Ok(x) => x, Err(_) => return Err(shape_error()), };
    let v_city = match get_text(doc, "city") { Ok(x) => x, Err(_) => return Err(shape_error()), };
    let v_error = match get_text(doc, "error") { Ok(x) => x, Err(_) => return Err(shape_error()), };
    if let Some(e) = v_error {
        return Err(SourceError::Unavailable(e));
    }
    let mut d = SourceData::new("dbip");
    d.country = v_countryname;
    d.region = v_stateprov;
    d.city = v_city;
    Ok(d)
}

/// Parses a DB-IP response body: a body that is not JSON is a `Parse`
/// error with the JSON parser's message; a parsed document is decoded by
/// `from_json`.
pub fn parse(body: &str) -> (r: Result<SourceData, SourceError>)
    ensures
        outcome(r) == match parsed_json(body@) {
            Ok(doc) => decode(doc),
            Err(e) => Err(SourceErrorV::Parse(e)),
        },
{
    match parse_json(body) {
        Ok(doc) => from_json(&doc),
        Err(e) => Err(SourceError::Parse(e)),
    }
}

/// The DB-IP source; `base` is the service's origin.
pub struct DbIp {
    pub base: String,
}

impl Default for DbIp {
    fn default() -> (r: Self)
        ensures
            r.base@ == "https://api.db-ip.com/v2/free"@,
    {
        DbIp { base: owned("https://api.db-ip.com/v2/free") }
    }
}

impl DbIp {
    /// The source's id in reports.
    pub fn id(&self) -> (r: &'static str)
        ensures
            r@ == "dbip"@,
    {
        "dbip"
    }

    /// The lookup request for `ip`.
    pub fn request(&self, ip: &str) -> (r: HttpRequest)
        ensures
            r.url@ == self.base@ + "/"@ + ip@,
            r.headers@.len() == 0,
    {
        let mut u = self.base.clone();
        push_text(&mut u, "/");
        push_text(&mut u, ip);
        get(u)
    }
}

} // verus!
