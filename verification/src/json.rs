//! A plain model of JSON documents, the parse and the pretty print through
//! `serde_json`, and
//! typed field access with the rules of serde's derived deserializers.

use vstd::prelude::*;

verus! {

/// A JSON number as `serde_json` holds it.
#[derive(Debug, Clone)]
pub struct JsonNum {
    /// The value, when it is a non-negative integer.
    pub u: Option<u64>,
    /// The value, when it is an integer that fits in `i64`.
    pub i: Option<i64>,
    /// The number has a fraction or exponent.
    pub float: bool,
    /// The number's decimal text.
    pub text: String,
}

/// A JSON value.
#[derive(Debug)]
pub enum Json {
    Null,
    Bool(bool),
    Num(JsonNum),
    Str(String),
    Arr(Vec<Json>),
    Obj(Vec<(String, Json)>),
}

/// What `serde_json::from_str::<serde_json::Value>` makes of a text: the
/// document, or the parser's error message.
pub uninterp spec fn parsed_json(text: Seq<char>) -> Result<Json, Seq<char>>;

/// `serde_json::from_str::<serde_json::Value>`, with the value carried into
/// the plain model (objects in the map's key order) and the error as its message.
#[verifier::external_body]
pub(crate) fn parse_json(text: &str) -> (r: Result<Json, String>)
    ensures
        match r {
            Ok(j) => parsed_json(text@) == Ok::<Json, Seq<char>>(j),
            Err(e) => parsed_json(text@) == Err::<Json, Seq<char>>(e@),
        },
{
    match serde_json::from_str::<serde_json::Value>(text) {
        Ok(v) => Ok(from_value(v)),
        Err(e) => Err(e.to_string()),
    }
}

/// The document type of `serde_json`.
#[verifier::external_type_specification]
#[verifier::external_body]
pub struct ExValue(serde_json::Value);

/// Carries a `serde_json::Value` into the plain model, one variant for one.
#[verifier::external_body]
fn from_value(v: serde_json::Value) -> Json {
    match v {
        serde_json::Value::Null => Json::Null,
        serde_json::Value::Bool(b) => Json::Bool(b),
        serde_json::Value::Number(n) => Json::Num(JsonNum { u: n.as_u64(), i: n.as_i64(), float: n.is_f64(), text: n.to_string() }),
        serde_json::Value::String(s) => Json::Str(s),
        serde_json::Value::Array(a) => Json::Arr(a.into_iter().map(from_value).collect()),
        serde_json::Value::Object(m) => Json::Obj(m.into_iter().map(|(k, x)| (k, from_value(x))).collect()),
    }
}

/// Value of the first member named `key`.
pub open spec fn member(entries: Seq<(String, Json)>, key: Seq<char>) -> Option<Json>
    decreases entries.len(),
{
    if entries.len() == 0 {
        None
    } else if entries[0].0@ == key {
        Some(entries[0].1)
    } else {
        member(entries.drop_first(), key)
    }
}

/// The member `key` of an object (none for other values).
pub open spec fn field(doc: Json, key: Seq<char>) -> Option<Json> {
    match doc {
        Json::Obj(es) => member(es@, key),
        _ => None,
    }
}

/// A text field: absent or `null` is none; any other non-string is a type error.
pub open spec fn text_of(v: Option<Json>) -> Result<Option<Seq<char>>, ()> {
    match v {
        None => Ok(None),
        Some(Json::Null) => Ok(None),
        Some(Json::Str(s)) => Ok(Some(s@)),
        _ => Err(()),
    }
}

pub open spec fn bool_of(v: Option<Json>) -> Result<Option<bool>, ()> {
    match v {
        None => Ok(None),
        Some(Json::Null) => Ok(None),
        Some(Json::Bool(b)) => Ok(Some(b)),
        _ => Err(()),
    }
}

/// An unsigned 32-bit field: an integer in range; floats, negatives and
/// larger integers are errors.
pub open spec fn u32_of(v: Option<Json>) -> Result<Option<u32>, ()> {
    match v {
        None => Ok(None),
        Some(Json::Null) => Ok(None),
        Some(Json::Num(n)) => match n.u {
            Some(x) => if !n.float && x <= u32::MAX { Ok(Some(x as u32)) } else { Err(()) },
            None => Err(()),
        },
        _ => Err(()),
    }
}

/// A signed 64-bit field: an integer that fits; floats are errors.
pub open spec fn i64_of(v: Option<Json>) -> Result<Option<i64>, ()> {
    match v {
        None => Ok(None),
        Some(Json::Null) => Ok(None),
        Some(Json::Num(n)) => match n.i {
            Some(x) => if !n.float { Ok(Some(x)) } else { Err(()) },
            None => Err(()),
        },
        _ => Err(()),
    }
}

/// A decimal (floating-point) field: any number, kept as its decimal text.
pub open spec fn decimal_of(v: Option<Json>) -> Result<Option<Seq<char>>, ()> {
    match v {
        None => Ok(None),
        Some(Json::Null) => Ok(None),
        Some(Json::Num(n)) => Ok(Some(n.text@)),
        _ => Err(()),
    }
}

/// A nested-record field: an object, or absent/`null`.
pub open spec fn record_of(v: Option<Json>) -> Result<Option<Json>, ()> {
    match v {
        None => Ok(None),
        Some(Json::Null) => Ok(None),
        Some(Json::Obj(es)) => Ok(Some(Json::Obj(es))),
        _ => Err(()),
    }
}

/// A field of any JSON type: present unless absent or `null`.
pub open spec fn any_of(v: Option<Json>) -> Option<Json> {
    match v {
        Some(Json::Null) => None,
        other => other,
    }
}

pub fn get_field<'a>(doc: &'a Json, key: &str) -> (r: Option<&'a Json>)
    ensures
        match r {
            Some(v) => field(*doc, key@) == Some(*v),
            None => field(*doc, key@) is None,
        },
{
    match doc {
        Json::Obj(es) => {
            let k = crate::text::chars_of(key);
            let mut i: usize = 0;
            assert(es@.skip(0) =~= es@);
            assert(field(*doc, key@) == member(es@, key@));
            while i < es.len()
                invariant
                    i <= es@.len(),
                    k@ == key@,
                    field(*doc, key@) == member(es@, key@),
                    member(es@, key@) == member(es@.skip(i as int), key@),
                decreases es.len() - i,
            {
                assert(es@.skip(i as int).drop_first() =~= es@.skip(i + 1));
                assert(es@.skip(i as int)[0] == es@[i as int]);
                let name = crate::text::chars_of(es[i].0.as_str());
                if crate::text::same_chars(name.as_slice(), k.as_slice()) {
                    assert(es@.skip(i as int)[0].0@ == key@);
                    assert(member(es@.skip(i as int), key@) == Some(es@[i as int].1));
                    return Some(&es[i].1);
                }
                i += 1;
            }
            None
        }
        _ => None,
    }
}

pub fn get_text(doc: &Json, key: &str) -> (r: Result<Option<String>, ()>)
    ensures
        match r {
            Ok(Some(s)) => text_of(field(*doc, key@)) == Ok::<Option<Seq<char>>, ()>(Some(s@)),
            Ok(None) => text_of(field(*doc, key@)) == Ok::<Option<Seq<char>>, ()>(None),
            Err(_) => text_of(field(*doc, key@)) is Err,
        },
{
    match get_field(doc, key) {
        None => Ok(None),
        Some(Json::Null) => Ok(None),
        Some(Json::Str(s)) => Ok(Some(s.clone())),
        Some(_) => Err(()),
    }
}

pub fn get_bool(doc: &Json, key: &str) -> (r: Result<Option<bool>, ()>)
    ensures
        r == bool_of(field(*doc, key@)),
{
    match get_field(doc, key) {
        None => Ok(None),
        Some(Json::Null) => Ok(None),
        Some(Json::Bool(b)) => Ok(Some(*b)),
        Some(_) => Err(()),
    }
}

pub fn get_u32(doc: &Json, key: &str) -> (r: Result<Option<u32>, ()>)
    ensures
        r == u32_of(field(*doc, key@)),
{
    match get_field(doc, key) {
        None => Ok(None),
        Some(Json::Null) => Ok(None),
        Some(Json::Num(n)) => match n.u {
            Some(x) => if !n.float && x <= 4294967295u64 { Ok(Some(x as u32)) } else { Err(()) },
            None => Err(()),
        },
        Some(_) => Err(()),
    }
}

pub fn get_i64(doc: &Json, key: &str) -> (r: Result<Option<i64>, ()>)
    ensures
        r == i64_of(field(*doc, key@)),
{
    match get_field(doc, key) {
        None => Ok(None),
        Some(Json::Null) => Ok(None),
        Some(Json::Num(n)) => match n.i {
            Some(x) => if !n.float { Ok(Some(x)) } else { Err(()) },
            None => Err(()),
        },
        Some(_) => Err(()),
    }
}

pub fn get_decimal(doc: &Json, key: &str) -> (r: Result<Option<String>, ()>)
    ensures
        match r {
            Ok(Some(s)) => decimal_of(field(*doc, key@)) == Ok::<Option<Seq<char>>, ()>(Some(s@)),
            Ok(None) => decimal_of(field(*doc, key@)) == Ok::<Option<Seq<char>>, ()>(None),
            Err(_) => decimal_of(field(*doc, key@)) is Err,
        },
{
    match get_field(doc, key) {
        None => Ok(None),
        Some(Json::Null) => Ok(None),
        Some(Json::Num(n)) => Ok(Some(n.text.clone())),
        Some(_) => Err(()),
    }
}

pub fn get_record<'a>(doc: &'a Json, key: &str) -> (r: Result<Option<&'a Json>, ()>)
    ensures
        match r {
            Ok(Some(v)) => record_of(field(*doc, key@)) == Ok::<Option<Json>, ()>(Some(*v)),
            Ok(None) => record_of(field(*doc, key@)) == Ok::<Option<Json>, ()>(None),
            Err(_) => record_of(field(*doc, key@)) is Err,
        },
{
    match get_field(doc, key) {
        None => Ok(None),
        Some(Json::Null) => Ok(None),
        Some(v) => match v {
            Json::Obj(_) => Ok(Some(v)),
            _ => Err(()),
        },
    }
}

pub fn get_any<'a>(doc: &'a Json, key: &str) -> (r: Option<&'a Json>)
    ensures
        match r {
            Some(v) => any_of(field(*doc, key@)) == Some(*v),
            None => any_of(field(*doc, key@)) is None,
        },
{
    match get_field(doc, key) {
        Some(Json::Null) => None,
        other => other,
    }
}

/// The value is an object (what a derived record deserializer accepts here).
pub open spec fn is_record(doc: Json) -> bool {
    doc is Obj
}

/// The member `key` of an optional record.
pub open spec fn sub_field(rec: Option<Json>, key: Seq<char>) -> Option<Json> {
    match rec {
        Some(r) => field(r, key),
        None => None,
    }
}

/// Values of well-typed fields (none when absent, `null` or ill-typed).
pub open spec fn text_val(v: Option<Json>) -> Option<Seq<char>> {
    match text_of(v) { Ok(x) => x, Err(_) => None }
}

pub open spec fn bool_val(v: Option<Json>) -> Option<bool> {
    match bool_of(v) { Ok(x) => x, Err(_) => None }
}

pub open spec fn u32_val(v: Option<Json>) -> Option<u32> {
    match u32_of(v) { Ok(x) => x, Err(_) => None }
}

pub open spec fn i64_val(v: Option<Json>) -> Option<i64> {
    match i64_of(v) { Ok(x) => x, Err(_) => None }
}

pub open spec fn dec_val(v: Option<Json>) -> Option<Seq<char>> {
    match decimal_of(v) { Ok(x) => x, Err(_) => None }
}

pub open spec fn rec_val(v: Option<Json>) -> Option<Json> {
    match record_of(v) { Ok(x) => x, Err(_) => None }
}

} // verus!

verus! {

/// A JSON value as plain data: numbers by their decimal text.
pub ghost enum JsonV {
    Null,
    Bool(bool),
    Num(Seq<char>),
    Str(Seq<char>),
    Arr(Seq<JsonV>),
    Obj(Seq<(Seq<char>, JsonV)>),
}

/// The plain form of a JSON value.
pub open spec fn json_v(j: Json) -> JsonV
    decreases j,
{
    match j {
        Json::Null => JsonV::Null,
        Json::Bool(b) => JsonV::Bool(b),
        Json::Num(n) => JsonV::Num(n.text@),
        Json::Str(s) => JsonV::Str(s@),
        Json::Arr(v) => JsonV::Arr(Seq::new(v@.len(), |i: int| if 0 <= i < v@.len() { json_v(v@[i]) } else { JsonV::Null })),
        Json::Obj(es) => JsonV::Obj(Seq::new(es@.len(), |i: int| if 0 <= i < es@.len() { (es@[i].0@, json_v(es@[i].1)) } else { (Seq::empty(), JsonV::Null) })),
    }
}

/// The members of an object, in plain form.
pub open spec fn entries_v(es: Seq<(String, Json)>) -> Seq<(Seq<char>, JsonV)> {
    Seq::new(es.len(), |i: int| (es[i].0@, json_v(es[i].1)))
}

/// The items of an array, in plain form.
pub open spec fn items_v(v: Seq<Json>) -> Seq<JsonV> {
    Seq::new(v.len(), |i: int| json_v(v[i]))
}

pub proof fn lemma_obj_v(es: Vec<(String, Json)>)
    ensures
        json_v(Json::Obj(es)) == JsonV::Obj(entries_v(es@)),
{
    let r = json_v(Json::Obj(es));
    assert(r->Obj_0 =~= entries_v(es@));
}

pub proof fn lemma_arr_v(v: Vec<Json>)
    ensures
        json_v(Json::Arr(v)) == JsonV::Arr(items_v(v@)),
{
    let r = json_v(Json::Arr(v));
    assert(r->Arr_0 =~= items_v(v@));
}

/// What `serde_json::to_string_pretty` prints for the document: two-space
/// indentation, object keys in sorted order (a later duplicate key replacing
/// an earlier one), numbers read from their decimal text.
pub uninterp spec fn json_text(doc: JsonV) -> Seq<char>;

/// `serde_json::to_string_pretty` of the document carried into a
/// `serde_json::Value`. Printing a `Value` cannot fail.
#[verifier::external_body]
pub(crate) fn pretty_json(doc: &Json) -> (s: String)
    ensures
        s@ == json_text(json_v(*doc)),
{
    serde_json::to_string_pretty(&to_value(doc)).unwrap_or_default()
}

/// Carries the plain model into a `serde_json::Value`, one variant for one;
/// a number goes by its decimal text (`null` where that is no JSON number).
#[verifier::external_body]
fn to_value(doc: &Json) -> serde_json::Value {
    match doc {
        Json::Null => serde_json::Value::Null,
        Json::Bool(b) => serde_json::Value::Bool(*b),
        Json::Num(n) => n.text.parse::<serde_json::Number>().map(serde_json::Value::Number).unwrap_or(serde_json::Value::Null),
        Json::Str(s) => serde_json::Value::String(s.clone()),
        Json::Arr(a) => serde_json::Value::Array(a.iter().map(to_value).collect()),
        Json::Obj(m) => serde_json::Value::Object(m.iter().map(|(k, x)| (k.clone(), to_value(x))).collect()),
    }
}

/// Appends a member.
pub fn put(es: &mut Vec<(String, Json)>, key: &str, v: Json)
    ensures
        entries_v(final(es)@) == entries_v(old(es)@).push((key@, json_v(v))),
{
    let ghost before = es@;
    let ghost jv = json_v(v);
    es.push((crate::text::owned(key), v));
    assert(entries_v(es@) =~= entries_v(before).push((key@, jv)));
}

/// Appends an item.
pub fn push_item(v: &mut Vec<Json>, x: Json)
    ensures
        items_v(final(v)@) == items_v(old(v)@).push(json_v(x)),
{
    let ghost before = v@;
    let ghost xv = json_v(x);
    v.push(x);
    assert(items_v(v@) =~= items_v(before).push(xv));
}

/// A text, or `null`.
pub open spec fn str_v(o: Option<String>) -> JsonV {
    match o {
        Some(s) => JsonV::Str(s@),
        None => JsonV::Null,
    }
}

pub open spec fn bool_v(o: Option<bool>) -> JsonV {
    match o {
        Some(b) => JsonV::Bool(b),
        None => JsonV::Null,
    }
}

/// An unsigned number, or `null`.
pub open spec fn uint_v(o: Option<u64>) -> JsonV {
    match o {
        Some(x) => JsonV::Num(crate::text::dec_text(x as nat)),
        None => JsonV::Null,
    }
}

/// A signed number, or `null`.
pub open spec fn sint_v(o: Option<i64>) -> JsonV {
    match o {
        Some(x) => JsonV::Num(crate::text::int_text(x as int)),
        None => JsonV::Null,
    }
}

/// A number kept as its decimal text, or `null`.
pub open spec fn decimal_v(o: Option<String>) -> JsonV {
    match o {
        Some(t) => JsonV::Num(t@),
        None => JsonV::Null,
    }
}

pub fn str_json(o: &Option<String>) -> (j: Json)
    ensures
        json_v(j) == str_v(*o),
{
    match o {
        Some(s) => Json::Str(s.clone()),
        None => Json::Null,
    }
}

pub fn bool_json(o: Option<bool>) -> (j: Json)
    ensures
        json_v(j) == bool_v(o),
{
    match o {
        Some(b) => Json::Bool(b),
        None => Json::Null,
    }
}

pub fn uint_json(o: Option<u64>) -> (j: Json)
    ensures
        json_v(j) == uint_v(o),
{
    match o {
        Some(x) => Json::Num(JsonNum {
            u: Some(x),
            i: if x <= 9223372036854775807u64 { Some(x as i64) } else { None },
            float: false,
            text: crate::text::uint_text(x),
        }),
        None => Json::Null,
    }
}

pub fn sint_json(o: Option<i64>) -> (j: Json)
    ensures
        json_v(j) == sint_v(o),
{
    match o {
        Some(x) => Json::Num(JsonNum {
            u: if x >= 0 { Some(x as u64) } else { None },
            i: Some(x),
            float: false,
            text: crate::text::sint_text(x),
        }),
        None => Json::Null,
    }
}

/// A decimal text as a number; it is taken as having a fraction.
pub fn decimal_json(o: &Option<String>) -> (j: Json)
    ensures
        json_v(j) == decimal_v(*o),
{
    match o {
        Some(t) => Json::Num(JsonNum { u: None, i: None, float: true, text: t.clone() }),
        None => Json::Null,
    }
}

pub fn obj(es: Vec<(String, Json)>) -> (j: Json)
    ensures
        json_v(j) == JsonV::Obj(entries_v(es@)),
{
    proof {
        lemma_obj_v(es);
    }
    Json::Obj(es)
}

pub fn arr(v: Vec<Json>) -> (j: Json)
    ensures
        json_v(j) == JsonV::Arr(items_v(v@)),
{
    proof {
        lemma_arr_v(v);
    }
    Json::Arr(v)
}

} // verus!
